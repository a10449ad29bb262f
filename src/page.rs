//! What the harvester reads from the page: the image sources, the title and
//! the folder derived from it.
use vstd::prelude::*;
use vstd::utf8::encode_utf8;
use crate::resolve::{opt_view, resolve_all, resolve_sources, views};

verus! {

/// The `src` values of the page's `img` elements in the order of scraper's
/// tree (the order in which the parser created the nodes), `None` for an
/// element without one.
pub uninterp spec fn img_src_attrs_of(html: Seq<char>) -> Seq<Option<Seq<char>>>;

/// The concatenated text of the page's first `h1` element, if it has one.
pub uninterp spec fn first_h1_text_of(html: Seq<char>) -> Option<Seq<char>>;

/// Whether `c` has the Unicode property White_Space.
pub open spec fn is_white_space(c: char) -> bool {
    let u = c as u32;
    (0x9 <= u <= 0xD) || u == 0x20 || u == 0x85 || u == 0xA0 || u == 0x1680 || (0x2000 <= u
        <= 0x200A) || u == 0x2028 || u == 0x2029 || u == 0x202F || u == 0x205F || u == 0x3000
}

/// `s` without its leading white space.
pub open spec fn trim_start_of(s: Seq<char>) -> Seq<char>
    decreases s.len(),
{
    if s.len() > 0 && is_white_space(s[0]) {
        trim_start_of(s.drop_first())
    } else {
        s
    }
}

/// `s` without its trailing white space.
pub open spec fn trim_end_of(s: Seq<char>) -> Seq<char>
    decreases s.len(),
{
    if s.len() > 0 && is_white_space(s.last()) {
        trim_end_of(s.drop_last())
    } else {
        s
    }
}

/// `s` without leading and trailing white space.
pub open spec fn trimmed_of(s: Seq<char>) -> Seq<char> {
    trim_end_of(trim_start_of(s))
}

/// Relies on scraper's `Html::parse_document` and `Html::select` with the
/// selector `img`, and `Element::attr("src")`: the outcome depends on the
/// document text alone.
#[verifier::external_body]
fn img_src_attrs(html: &str) -> (r: Vec<Option<String>>)
    ensures
        r@.map_values(|o: Option<String>| opt_view(o)) == img_src_attrs_of(html@),
{
    let doc = scraper::Html::parse_document(html);
    let sel = scraper::Selector::parse("img").unwrap();
    doc.select(&sel).map(|e| e.value().attr("src").map(|s| s.to_string())).collect()
}

/// Relies on scraper's `Html::parse_document` and `Html::select` with the
/// selector `h1`, and `ElementRef::text` of the first match: the outcome
/// depends on the document text alone.
#[verifier::external_body]
fn first_h1_text(html: &str) -> (r: Option<String>)
    ensures
        opt_view(r) == first_h1_text_of(html@),
{
    let doc = scraper::Html::parse_document(html);
    let sel = scraper::Selector::parse("h1").unwrap();
    doc.select(&sel).next().map(|e| e.text().collect::<String>())
}

/// Relies on `str::trim`, documented to remove leading and trailing
/// characters with the Unicode property White_Space.
#[verifier::external_body]
fn trim(s: &str) -> (r: String)
    ensures
        r@ == trimmed_of(s@),
{
    s.trim().to_string()
}

/// Whether `c` may not stand in a file name on any platform.
pub open spec fn is_illegal_name_char(c: char) -> bool {
    c == '/' || c == '?' || c == '<' || c == '>' || c == '\\' || c == ':' || c == '*' || c == '|'
        || c == '"'
}

/// Whether `c` is a control character.
pub open spec fn is_control_char(c: char) -> bool {
    let u = c as u32;
    u <= 0x1F || (0x80 <= u <= 0x9F)
}

/// What holds of every sanitized name, on every platform: no character
/// that a file name cannot hold, no control character, and at most 255
/// bytes of UTF-8.
pub open spec fn is_legal_segment(n: Seq<char>) -> bool {
    &&& forall|i: int| 0 <= i < n.len() ==> !is_illegal_name_char(#[trigger] n[i])
    &&& forall|i: int| 0 <= i < n.len() ==> !is_control_char(#[trigger] n[i])
    &&& encode_utf8(n).len() <= 255
}

/// Whether `a` is `b` with some characters deleted.
pub open spec fn is_subsequence(a: Seq<char>, b: Seq<char>) -> bool
    decreases b.len(),
{
    if a.len() == 0 {
        true
    } else if b.len() == 0 {
        false
    } else if a.last() == b.last() {
        is_subsequence(a.drop_last(), b.drop_last())
    } else {
        is_subsequence(a, b.drop_last())
    }
}

/// Whether `c` is an ASCII letter or digit.
pub open spec fn is_ascii_alnum(c: char) -> bool {
    ('a' <= c <= 'z') || ('A' <= c <= 'Z') || ('0' <= c <= '9')
}

/// A title that sanitizing leaves as it is on every platform: 5 to 255 ASCII
/// letters and digits (too long for a reserved device name).
pub open spec fn is_plain_name(t: Seq<char>) -> bool {
    &&& 5 <= t.len() <= 255
    &&& forall|i: int| 0 <= i < t.len() ==> is_ascii_alnum(#[trigger] t[i])
}

/// Relies on `sanitize_filename::sanitize`: it deletes the characters
/// `/ ? < > \ : * | "` and control characters, empties a name made only of
/// dots, on Windows also reserved device names and trailing dots and
/// spaces, and truncates to 255 bytes on a character boundary: it only deletes.
#[verifier::external_body]
fn sanitize_name(s: &str) -> (r: String)
    ensures
        is_legal_segment(r@),
        is_subsequence(r@, s@),
        is_plain_name(s@) ==> r@ == s@,
{
    sanitize_filename::sanitize(s)
}

/// The title used when the page has no `h1` element.
pub open spec fn default_title() -> Seq<char> {
    seq!['U', 'n', 't', 'i', 't', 'l', 'e', 'd']
}

/// The folder title of a page: the trimmed text of its first `h1`, else
/// `Untitled`.
pub open spec fn title_of(html: Seq<char>) -> Seq<char> {
    match first_h1_text_of(html) {
        Some(t) => trimmed_of(t),
        None => default_title(),
    }
}

/// The directory under which all folders are made.
pub open spec fn image_root() -> Seq<char> {
    seq!['.', '/', 'i', 'm', 'g', '/']
}

/// The download URLs of the page's images, in the order of scraper's tree.
pub fn collect_image_urls(html: &str, proxy: &str) -> (r: Vec<String>)
    ensures
        views(r@) == resolve_all(img_src_attrs_of(html@), proxy@),
{
    let srcs = img_src_attrs(html);
    resolve_sources(&srcs, proxy)
}

/// The title of the page.
pub fn extract_h1_title(html: &str) -> (r: String)
    ensures
        r@ == title_of(html@),
{
    match first_h1_text(html) {
        Some(t) => trim(t.as_str()),
        None => {
            proof {
                reveal_strlit("Untitled");
            }
            let r = String::from_str("Untitled");
            assert(r@ =~= default_title());
            r
        },
    }
}

/// The folder under `./img/` named after `title`, once it is made a legal
/// path segment; a plain title is kept as it is.
pub fn folder_path(title: &str) -> (r: String)
    ensures
        r@.len() >= 6,
        r@ == image_root() + r@.subrange(6, r@.len() as int),
        is_legal_segment(r@.subrange(6, r@.len() as int)),
        is_subsequence(r@.subrange(6, r@.len() as int), title@),
        is_plain_name(title@) ==> r@ == image_root() + title@,
{
    let name = sanitize_name(title);
    proof {
        reveal_strlit("./img/");
    }
    let mut r = String::from_str("./img/");
    r.append(name.as_str());
    assert(r@.subrange(6, r@.len() as int) =~= name@);
    assert(r@ =~= image_root() + name@);
    r
}

} // verus!
