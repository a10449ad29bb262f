//! Deterministic file names: a batch-wide digit width and zero-padded
//! ordinals.
use vstd::prelude::*;
use crate::sniff::{ImageFormat, file_extension_of};

verus! {

/// Ten to the power `w`.
pub open spec fn pow10(w: nat) -> nat
    decreases w,
{
    if w == 0 {
        1
    } else {
        10 * pow10((w - 1) as nat)
    }
}

/// `w` is the digit width of a batch of `n` images: the least `w >= 1` with
/// `n <= 10^w`, that is `max(1, ceil(log10(n)))`.
pub open spec fn is_digit_width(n: nat, w: nat) -> bool {
    &&& w >= 1
    &&& n <= pow10(w)
    &&& (w == 1 || pow10((w - 1) as nat) < n)
}

/// The decimal digit for `d < 10`.
pub open spec fn digit_char(d: nat) -> char {
    if d == 0 {
        '0'
    } else if d == 1 {
        '1'
    } else if d == 2 {
        '2'
    } else if d == 3 {
        '3'
    } else if d == 4 {
        '4'
    } else if d == 5 {
        '5'
    } else if d == 6 {
        '6'
    } else if d == 7 {
        '7'
    } else if d == 8 {
        '8'
    } else {
        '9'
    }
}

/// The decimal notation of `n`, without leading zeros.
pub open spec fn decimal(n: nat) -> Seq<char>
    decreases n,
{
    if n < 10 {
        seq![digit_char(n)]
    } else {
        decimal(n / 10).push(digit_char(n % 10))
    }
}

/// `n` in decimal, left-padded with zeros to at least `w` characters.
pub open spec fn zero_padded(n: nat, w: nat) -> Seq<char> {
    let d = decimal(n);
    if d.len() < w {
        Seq::new((w - d.len()) as nat, |_i: int| '0') + d
    } else {
        d
    }
}

/// The name of the file of the image at 0-based position `index`: its
/// 1-based ordinal padded to `width`, a dot, and the extension of `format`.
pub open spec fn file_name_of(index: nat, width: nat, format: ImageFormat) -> Seq<char> {
    zero_padded(index + 1, width) + seq!['.'] + file_extension_of(format)@
}

/// The path of that file inside directory `dir`.
pub open spec fn file_path_of(dir: Seq<char>, index: nat, width: nat, format: ImageFormat) -> Seq<
    char,
> {
    dir + seq!['/'] + file_name_of(index, width, format)
}

/// The digit width shared by all file names of a batch of `n` images.
pub fn digit_width(n: usize) -> (w: usize)
    ensures
        is_digit_width(n as nat, w as nat),
{
    let mut w: usize = 1;
    let mut p: u128 = 10;
    assert(pow10(1) == 10) by {
        reveal_with_fuel(pow10, 2);
    }
    while p < n as u128
        invariant
            1 <= w,
            p as nat == pow10(w as nat),
            (w as u128) < p,
            w == 1 || pow10((w - 1) as nat) < n,
        decreases n as int - w as int,
    {
        p = p * 10;
        w = w + 1;
    }
    w
}

fn digit_str(d: usize) -> (r: &'static str)
    requires
        d < 10,
    ensures
        r@ == seq![digit_char(d as nat)],
{
    proof {
        reveal_strlit("0");
        reveal_strlit("1");
        reveal_strlit("2");
        reveal_strlit("3");
        reveal_strlit("4");
        reveal_strlit("5");
        reveal_strlit("6");
        reveal_strlit("7");
        reveal_strlit("8");
        reveal_strlit("9");
    }
    if d == 0 {
        "0"
    } else if d == 1 {
        "1"
    } else if d == 2 {
        "2"
    } else if d == 3 {
        "3"
    } else if d == 4 {
        "4"
    } else if d == 5 {
        "5"
    } else if d == 6 {
        "6"
    } else if d == 7 {
        "7"
    } else if d == 8 {
        "8"
    } else {
        "9"
    }
}

fn append_decimal(s: &mut String, n: usize)
    ensures
        final(s)@ == old(s)@ + decimal(n as nat),
    decreases n,
{
    if n >= 10 {
        append_decimal(s, n / 10);
        s.append(digit_str(n % 10));
        proof {
            assert(decimal(n as nat) == decimal((n / 10) as nat).push(digit_char((n % 10) as nat)));
        }
        assert(final(s)@ =~= old(s)@ + decimal(n as nat));
    } else {
        s.append(digit_str(n));
        assert(final(s)@ =~= old(s)@ + decimal(n as nat));
    }
}

proof fn lemma_decimal_len(n: nat)
    ensures
        1 <= decimal(n).len() <= n + 1,
    decreases n,
{
    if n >= 10 {
        lemma_decimal_len(n / 10);
    }
}

/// `n` in decimal, zero-padded to at least `width` characters.
pub fn pad_number(n: usize, width: usize) -> (r: String)
    ensures
        r@ == zero_padded(n as nat, width as nat),
{
    let mut digits = String::new();
    append_decimal(&mut digits, n);
    let len = digits.as_str().unicode_len();
    let mut r = String::new();
    let mut k: usize = len;
    while k < width
        invariant
            len <= k <= width || (k == len && width < len),
            len == decimal(n as nat).len(),
            digits@ == decimal(n as nat),
            r@ == Seq::new((k - len) as nat, |_i: int| '0'),
        decreases width - k,
    {
        proof {
            reveal_strlit("0");
        }
        r.append("0");
        assert(r@ =~= Seq::new((k + 1 - len) as nat, |_i: int| '0'));
        k = k + 1;
    }
    r.append(digits.as_str());
    assert(r@ =~= zero_padded(n as nat, width as nat));
    r
}

/// The file name of the image at 0-based position `index` of a batch whose
/// digit width is `width`.
pub fn file_name(index: usize, width: usize, format: ImageFormat) -> (r: String)
    requires
        index < usize::MAX,
    ensures
        r@ == file_name_of(index as nat, width as nat, format),
{
    let mut r = pad_number(index + 1, width);
    proof {
        reveal_strlit(".");
    }
    r.append(".");
    r.append(format.file_extension());
    assert(r@ =~= file_name_of(index as nat, width as nat, format));
    r
}

/// The path under `dir` of the image at 0-based position `index`.
pub fn file_path(dir: &str, index: usize, width: usize, format: ImageFormat) -> (r: String)
    requires
        index < usize::MAX,
    ensures
        r@ == file_path_of(dir@, index as nat, width as nat, format),
{
    let mut r = String::from_str(dir);
    proof {
        reveal_strlit("/");
    }
    r.append("/");
    let name = file_name(index, width, format);
    r.append(name.as_str());
    assert(r@ =~= file_path_of(dir@, index as nat, width as nat, format));
    r
}

} // verus!
