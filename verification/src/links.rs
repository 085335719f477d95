//! The link that a note points to: the first web address in its text, as the
//! `url` crate writes it.

use regex::Regex;
use url::Url;
use vstd::prelude::*;

verus! {

/// A web address: `http://` or `https://` and the characters up to the next
/// white space.
pub const LINK_PATTERN: &'static str = "https?://[^\\s]+";

/// Unicode white space: what `\s` matches in a `regex` pattern.
pub open spec fn is_white_space(c: char) -> bool {
    let n = c as int;
    ||| 9 <= n <= 13
    ||| n == 32
    ||| n == 0x85
    ||| n == 0xa0
    ||| n == 0x1680
    ||| 0x2000 <= n <= 0x200a
    ||| n == 0x2028
    ||| n == 0x2029
    ||| n == 0x202f
    ||| n == 0x205f
    ||| n == 0x3000
}

pub open spec fn https_prefix() -> Seq<char> {
    seq!['h', 't', 't', 'p', 's', ':', '/', '/']
}

pub open spec fn http_prefix() -> Seq<char> {
    seq!['h', 't', 't', 'p', ':', '/', '/']
}

/// `w` stands in `s` at index `i`.
pub open spec fn occurs_at(s: Seq<char>, i: int, w: Seq<char>) -> bool {
    0 <= i && i + w.len() <= s.len() && s.subrange(i, i + w.len()) == w
}

/// A web address starts at index `i` of `s`: `https://` or `http://` and a
/// character that is not white space.
pub open spec fn address_starts_at(s: Seq<char>, i: int) -> bool {
    ||| occurs_at(s, i, https_prefix()) && i + 8 < s.len() && !is_white_space(s[i + 8])
    ||| occurs_at(s, i, http_prefix()) && i + 7 < s.len() && !is_white_space(s[i + 7])
}

/// The first index from `k` on that holds white space, or the end of `s`.
pub open spec fn address_end(s: Seq<char>, k: int) -> int
    decreases s.len() - k,
{
    if k >= s.len() || is_white_space(s[k]) {
        k
    } else {
        address_end(s, k + 1)
    }
}

/// The first web address of `s` from index `i` on: from its start to the
/// next white space.
pub open spec fn first_address_from(s: Seq<char>, i: int) -> Option<Seq<char>>
    decreases s.len() - i,
{
    if i >= s.len() {
        None
    } else if address_starts_at(s, i) {
        Some(s.subrange(i, address_end(s, i)))
    } else {
        first_address_from(s, i + 1)
    }
}

/// What `Regex::new(pattern)` followed by `captures(haystack)` and `get(0)`
/// finds: `None` where the pattern is refused, `Some(None)` where nothing
/// matches, else the text of the leftmost-first match.
pub uninterp spec fn regex_first_match(pattern: Seq<char>, haystack: Seq<char>) -> Option<
    Option<Seq<char>>,
>;

/// What `Url::parse(input)` followed by `as_str()` gives: the serialization of
/// the URL, or `None` where `input` is not an absolute URL.
pub uninterp spec fn url_serialization(input: Seq<char>) -> Option<Seq<char>>;

pub open spec fn nested_view(res: Option<Option<String>>) -> Option<Option<Seq<char>>> {
    match res {
        Some(Some(s)) => Some(Some(s@)),
        Some(None) => Some(None),
        None => None,
    }
}

pub open spec fn option_view(res: Option<String>) -> Option<Seq<char>> {
    match res {
        Some(s) => Some(s@),
        None => None,
    }
}

/// `Regex::new(pattern)`, then the whole match (group 0) of
/// `captures(haystack)`; the result is named by `regex_first_match`. For the
/// pattern `https?://[^\s]+` the crate's documentation fixes it: the pattern
/// compiles, `\s` is `\p{White_Space}`, and the leftmost-first match starts
/// at the first `https://` or `http://` followed by a non-space character
/// and runs greedily to the next white space.
#[verifier::external_body]
fn regex_first_match_text(pattern: &str, haystack: &str) -> (res: Option<Option<String>>)
    ensures
        nested_view(res) == regex_first_match(pattern@, haystack@),
        pattern@ == "https?://[^\\s]+"@ ==> nested_view(res) == Some(
            first_address_from(haystack@, 0),
        ),
{
    match Regex::new(pattern) {
        Ok(re) => Some(
            re.captures(haystack).and_then(|c| c.get(0)).map(|m| m.as_str().to_string()),
        ),
        Err(_) => None,
    }
}

/// `Url::parse(input)` and, where it succeeds, `as_str()`; the result is
/// named by `url_serialization`.
#[verifier::external_body]
fn url_text(input: &str) -> (res: Option<String>)
    ensures
        option_view(res) == url_serialization(input@),
{
    match Url::parse(input) {
        Ok(u) => Some(u.as_str().to_string()),
        Err(_) => None,
    }
}

/// The link that a match of the address pattern gives: the URL it parses
/// as, if any; nothing where no match was found or the pattern was refused.
pub open spec fn link_of_match(found: Option<Option<Seq<char>>>) -> Option<Seq<char>> {
    match found {
        Some(Some(m)) => url_serialization(m),
        _ => None,
    }
}

/// The link of a note: the URL of the first web address in `content` where
/// it parses as one.
pub open spec fn link_of(content: Seq<char>) -> Option<Seq<char>> {
    link_of_match(regex_first_match(LINK_PATTERN@, content))
}

/// The link of a note by the meaning of the address pattern: the URL of the
/// first web address in `content`, read up to the next white space.
pub open spec fn first_address_link(content: Seq<char>) -> Option<Seq<char>> {
    match first_address_from(content, 0) {
        Some(m) => url_serialization(m),
        None => None,
    }
}

/// No web address starts within a prefix `p` that holds no `:` and ends
/// in white space.
proof fn lemma_no_address_in_prefix(s: Seq<char>, p: Seq<char>, i: int)
    requires
        p.len() > 0,
        is_white_space(p.last()),
        !p.contains(':'),
        p.len() <= s.len(),
        s.subrange(0, p.len() as int) == p,
        0 <= i < p.len(),
    ensures
        !address_starts_at(s, i),
{
    let n = p.len() as int;
    assert(s[n - 1] == p[n - 1]);
    if occurs_at(s, i, https_prefix()) && i + 8 < s.len() && !is_white_space(s[i + 8]) {
        assert(s[i + 5] == https_prefix()[5]);
        if i + 8 >= n - 1 {
            let k = n - 1 - i;
            assert(0 <= k <= 8);
            if k < 8 {
                assert(s[i + k] == https_prefix()[k]);
            }
        } else {
            assert(s[i + 5] == p[i + 5]);
            assert(p.contains(':'));
        }
    }
    if occurs_at(s, i, http_prefix()) && i + 7 < s.len() && !is_white_space(s[i + 7]) {
        assert(s[i + 4] == http_prefix()[4]);
        if i + 7 >= n - 1 {
            let k = n - 1 - i;
            assert(0 <= k <= 7);
            if k < 7 {
                assert(s[i + k] == http_prefix()[k]);
            }
        } else {
            assert(s[i + 4] == p[i + 4]);
            assert(p.contains(':'));
        }
    }
}

/// Searching from any index within the prefix finds what searching from its end finds.
proof fn lemma_skip_prefix(s: Seq<char>, p: Seq<char>, i: int)
    requires
        p.len() == 0 || (is_white_space(p.last()) && !p.contains(':')),
        p.len() <= s.len(),
        s.subrange(0, p.len() as int) == p,
        0 <= i <= p.len(),
    ensures
        first_address_from(s, i) == first_address_from(s, p.len() as int),
    decreases p.len() - i,
{
    if i < p.len() {
        lemma_no_address_in_prefix(s, p, i);
        lemma_skip_prefix(s, p, i + 1);
    }
}

/// An address runs over characters that are not white space up to the
/// first one that is.
proof fn lemma_address_end(s: Seq<char>, start: int, stop: int, k: int)
    requires
        0 <= start <= k <= stop <= s.len(),
        stop == s.len() || is_white_space(s[stop]),
        forall|j: int| start <= j < stop ==> !is_white_space(#[trigger] s[j]),
    ensures
        address_end(s, k) == stop,
    decreases stop - k,
{
    if k < stop {
        lemma_address_end(s, start, stop, k + 1);
    }
}

/// A web address `u` (`https://` or `http://` and characters that are not
/// white space) that stands after text `p` without `:` ending in white space,
/// or at the start, and before white space or the end, is the link of the
/// note: the link runs up to the white space, whatever characters it holds.
pub proof fn law_link_runs_to_white_space(p: Seq<char>, u: Seq<char>, q: Seq<char>)
    requires
        p.len() == 0 || (is_white_space(p.last()) && !p.contains(':')),
        (u.len() > 8 && u.subrange(0, 8) == https_prefix()) || (u.len() > 7 && u.subrange(0, 7)
            == http_prefix()),
        forall|k: int| 0 <= k < u.len() ==> !is_white_space(#[trigger] u[k]),
        q.len() == 0 || is_white_space(q[0]),
    ensures
        first_address_link(p + u + q) == url_serialization(u),
{
    let s = p + u + q;
    let a = p.len() as int;
    let b = a + u.len();
    assert(s.subrange(0, a) =~= p);
    lemma_skip_prefix(s, p, 0);
    assert forall|j: int| a <= j < b implies !is_white_space(#[trigger] s[j]) by {
        assert(s[j] == u[j - a]);
    }
    if q.len() > 0 {
        assert(s[b] == q[0]);
    }
    lemma_address_end(s, a, b, a);
    if u.len() > 8 && u.subrange(0, 8) == https_prefix() {
        assert(s.subrange(a, a + 8) =~= u.subrange(0, 8));
        assert(s[a + 8] == u[8]);
    } else {
        assert(s.subrange(a, a + 7) =~= u.subrange(0, 7));
        assert(s[a + 7] == u[7]);
    }
    assert(address_starts_at(s, a));
    assert(s.subrange(a, b) =~= u);
}

/// A note whose text holds no `:` has no link.
pub proof fn law_no_colon_no_link(content: Seq<char>)
    requires
        !content.contains(':'),
    ensures
        first_address_link(content) is None,
{
    lemma_no_colon_from(content, 0);
}

proof fn lemma_no_colon_from(s: Seq<char>, i: int)
    requires
        !s.contains(':'),
        0 <= i,
    ensures
        first_address_from(s, i) is None,
    decreases s.len() - i,
{
    if i < s.len() {
        if occurs_at(s, i, https_prefix()) {
            assert(s[i + 5] == https_prefix()[5]);
        }
        if occurs_at(s, i, http_prefix()) {
            assert(s[i + 4] == http_prefix()[4]);
        }
        lemma_no_colon_from(s, i + 1);
    }
}

/// The address to open for what the address pattern found in a note.
pub fn link_from_match(found: Option<Option<String>>) -> (res: Option<String>)
    ensures
        option_view(res) == link_of_match(nested_view(found)),
{
    match found {
        Some(Some(m)) => url_text(m.as_str()),
        _ => None,
    }
}

/// The address to open for a note, if its text holds one.
pub fn link_to_open(content: &str) -> (res: Option<String>)
    ensures
        option_view(res) == link_of(content@),
        option_view(res) == first_address_link(content@),
{
    let found = regex_first_match_text(LINK_PATTERN, content);
    link_from_match(found)
}

} // verus!
