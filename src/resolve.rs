//! Turning raw `src` attribute values into download URLs.
use vstd::prelude::*;

verus! {

/// The marker that starts a source already relative to the proxy.
pub open spec fn proxy_marker() -> Seq<char> {
    seq!['/', 'p', 'r', 'o', 'x', 'y', '/']
}

/// `s` without its leading proxy marker, if it starts with one.
pub open spec fn strip_marker(s: Seq<char>) -> Seq<char> {
    if s.len() >= 7 && s.subrange(0, 7) == proxy_marker() {
        s.subrange(7, s.len() as int)
    } else {
        s
    }
}

/// The download URL for raw source `raw` behind proxy prefix `proxy`.
pub open spec fn resolved_url(raw: Seq<char>, proxy: Seq<char>) -> Seq<char> {
    proxy + strip_marker(raw)
}

/// The view of an optional string.
pub open spec fn opt_view(o: Option<String>) -> Option<Seq<char>> {
    match o {
        Some(s) => Some(s@),
        None => None,
    }
}

/// The views of a sequence of strings.
pub open spec fn views(v: Seq<String>) -> Seq<Seq<char>> {
    v.map_values(|s: String| s@)
}

/// The download URLs for a sequence of attribute values, in order; an
/// element without a `src` value is passed over.
pub open spec fn resolve_all(srcs: Seq<Option<Seq<char>>>, proxy: Seq<char>) -> Seq<Seq<char>>
    decreases srcs.len(),
{
    if srcs.len() == 0 {
        seq![]
    } else {
        let rest = resolve_all(srcs.drop_last(), proxy);
        match srcs.last() {
            Some(s) => rest.push(resolved_url(s, proxy)),
            None => rest,
        }
    }
}

fn marker_at(s: &str, i: usize, n: usize) -> (r: bool)
    requires
        n == s@.len(),
        i <= n,
    ensures
        r == (n - i >= 7 && s@.subrange(i as int, i + 7) == proxy_marker()),
{
    if n - i < 7 {
        return false;
    }
    let r = s.get_char(i) == '/' && s.get_char(i + 1) == 'p' && s.get_char(i + 2) == 'r'
        && s.get_char(i + 3) == 'o' && s.get_char(i + 4) == 'x' && s.get_char(i + 5) == 'y'
        && s.get_char(i + 6) == '/';
    assert(r == (s@.subrange(i as int, i + 7) =~= proxy_marker()));
    r
}

/// Resolves one raw source against the proxy prefix: a leading proxy
/// marker is stripped, then the prefix is put in front.
pub fn resolve_url(raw: &str, proxy: &str) -> (r: String)
    ensures
        r@ == resolved_url(raw@, proxy@),
{
    let n = raw.unicode_len();
    let start: usize = if marker_at(raw, 0, n) {
        7
    } else {
        0
    };
    let rest = raw.substring_char(start, n);
    assert(start == 0 ==> rest@ =~= raw@);
    let mut r = String::from_str(proxy);
    r.append(rest);
    r
}

/// Resolves the `src` values of a page's image elements, keeping their order.
pub fn resolve_sources(srcs: &Vec<Option<String>>, proxy: &str) -> (r: Vec<String>)
    ensures
        views(r@) == resolve_all(srcs@.map_values(|o: Option<String>| opt_view(o)), proxy@),
{
    let ghost all = srcs@.map_values(|o: Option<String>| opt_view(o));
    let mut r: Vec<String> = Vec::new();
    let mut k: usize = 0;
    while k < srcs.len()
        invariant
            k <= srcs@.len(),
            all == srcs@.map_values(|o: Option<String>| opt_view(o)),
            views(r@) == resolve_all(all.subrange(0, k as int), proxy@),
        decreases srcs.len() - k,
    {
        assert(all.subrange(0, k + 1).drop_last() =~= all.subrange(0, k as int));
        match &srcs[k] {
            Some(s) => {
                let u = resolve_url(s.as_str(), proxy);
                r.push(u);
                assert(views(r@) =~= resolve_all(all.subrange(0, k as int), proxy@).push(
                    resolved_url(s@, proxy@),
                ));
            },
            None => {},
        }
        k = k + 1;
    }
    assert(all.subrange(0, srcs@.len() as int) =~= all);
    r
}

/// Page URLs on this host are fetched through the proxy.
pub open spec fn proxied_host() -> Seq<char> {
    seq!['h', 't', 't', 'p', 's', ':', '/', '/', 't', 'e', 'l', 'e', 'g', 'r', 'a', '.', 'p', 'h']
}

/// The URL the page `target` is fetched from.
pub open spec fn page_url_of(target: Seq<char>, proxy: Seq<char>) -> Seq<char> {
    if target.len() >= 18 && target.subrange(0, 18) == proxied_host() {
        proxy + target
    } else {
        target
    }
}

/// The URL the page `target` is fetched from: behind the proxy prefix when it
/// is on the proxied host, else unchanged.
pub fn page_url(target: &str, proxy: &str) -> (r: String)
    ensures
        r@ == page_url_of(target@, proxy@),
{
    let n = target.unicode_len();
    proof {
        reveal_strlit("https://telegra.ph");
    }
    let host = String::from_str("https://telegra.ph");
    assert(host@ =~= proxied_host());
    if n >= 18 && String::from_str(target.substring_char(0, 18)) == host {
        let mut r = String::from_str(proxy);
        r.append(target);
        r
    } else {
        String::from_str(target)
    }
}

} // verus!
