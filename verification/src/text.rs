//! Text primitives of the credential check, and what is assumed of the
//! standard library and of `http` where they do the work.

use axum::http::HeaderValue;
use vstd::prelude::*;

verus! {

/// Whether `c` has the Unicode `White_Space` property, as `char::is_whitespace`
/// reports it. The property is a table of the Unicode database, so it is
/// named here and not written out.
pub uninterp spec fn white_space(c: char) -> bool;

/// `s` without its leading run of white space.
pub open spec fn trim_front(s: Seq<char>) -> Seq<char>
    decreases s.len(),
{
    if s.len() > 0 && white_space(s.first()) {
        trim_front(s.drop_first())
    } else {
        s
    }
}

/// `s` without its trailing run of white space.
pub open spec fn trim_back(s: Seq<char>) -> Seq<char>
    decreases s.len(),
{
    if s.len() > 0 && white_space(s.last()) {
        trim_back(s.drop_last())
    } else {
        s
    }
}

/// `s` with leading and trailing white space removed.
pub open spec fn trimmed(s: Seq<char>) -> Seq<char> {
    trim_back(trim_front(s))
}

/// Where the leading run of white space ends: `trim_front` keeps what stands
/// from there on.
proof fn lemma_trim_front(s: Seq<char>) -> (start: int)
    ensures
        0 <= start <= s.len(),
        trim_front(s) == s.subrange(start, s.len() as int),
        forall|k: int| 0 <= k < start ==> white_space(s[k]),
        start < s.len() ==> !white_space(s[start]),
    decreases s.len(),
{
    if s.len() > 0 && white_space(s.first()) {
        let rest = s.drop_first();
        let inner: int = lemma_trim_front(rest);
        assert forall|k: int| 0 <= k < inner + 1 implies white_space(s[k]) by {
            if k > 0 {
                assert(s[k] == rest[k - 1]);
            }
        }
        inner + 1
    } else {
        0
    }
}

/// Where the trailing run of white space begins: `trim_back` keeps what
/// stands before it.
proof fn lemma_trim_back(s: Seq<char>) -> (end: int)
    ensures
        0 <= end <= s.len(),
        trim_back(s) == s.subrange(0, end),
        forall|k: int| end <= k < s.len() ==> white_space(s[k]),
        0 < end ==> !white_space(s[end - 1]),
    decreases s.len(),
{
    if s.len() > 0 && white_space(s.last()) {
        let rest = s.drop_last();
        let inner: int = lemma_trim_back(rest);
        assert forall|k: int| inner <= k < s.len() implies white_space(s[k]) by {
            if k < s.len() - 1 {
                assert(s[k] == rest[k]);
            }
        }
        inner
    } else {
        s.len() as int
    }
}

/// What trimming keeps: one stretch of the text. Everything before it and
/// everything after it is white space, and where it is not empty it begins
/// and ends with a character that is not. So the result is empty exactly when
/// the text holds nothing but white space.
pub proof fn lemma_trimmed_is_core(s: Seq<char>) -> (bounds: (int, int))
    ensures
        0 <= bounds.0 <= bounds.1 <= s.len(),
        trimmed(s) == s.subrange(bounds.0, bounds.1),
        forall|k: int| 0 <= k < bounds.0 ==> white_space(s[k]),
        forall|k: int| bounds.1 <= k < s.len() ==> white_space(s[k]),
        bounds.0 < bounds.1 ==> !white_space(s[bounds.0]) && !white_space(s[bounds.1 - 1]),
        trimmed(s).len() == 0 <==> (forall|k: int| 0 <= k < s.len() ==> white_space(s[k])),
{
    let start: int = lemma_trim_front(s);
    let front = s.subrange(start, s.len() as int);
    let kept: int = lemma_trim_back(front);
    let end: int = start + kept;
    assert forall|k: int| end <= k < s.len() implies white_space(s[k]) by {
        assert(front[k - start] == s[k]);
    }
    (start, end)
}

/// `str::trim` is documented to return the slice with leading and trailing
/// white space removed, white space being the `White_Space` property. Assumed:
/// the result is exactly that slice, so that it neither begins nor ends with
/// white space.
pub assume_specification[ str::trim ](s: &str) -> (r: &str)
    ensures
        r@ == trimmed(s@),
        r@.len() > 0 ==> !white_space(r@.first()) && !white_space(r@.last()),
;

/// `str::strip_prefix` with a string pattern. Assumed, as documented: `Some`
/// of what follows the prefix when `s` starts with it, `None` when it does not.
#[verifier::external_body]
pub(crate) fn strip_prefix<'a>(s: &'a str, prefix: &str) -> (r: Option<&'a str>)
    ensures
        match r {
            Some(rest) => s@ == prefix@ + rest@,
            None => !prefix@.is_prefix_of(s@),
        },
{
    s.strip_prefix(prefix)
}

/// A byte that `HeaderValue::to_str` takes for text: printable ASCII or a tab.
pub open spec fn visible_ascii(b: u8) -> bool {
    32 <= b < 127 || b == 9
}

/// The text of a raw header value: its bytes read as ASCII characters, or
/// nothing when a byte is not visible ASCII.
pub open spec fn header_text(raw: Seq<u8>) -> Option<Seq<char>> {
    if forall|i: int| 0 <= i < raw.len() ==> visible_ascii(#[trigger] raw[i]) {
        Some(Seq::new(raw.len(), |i: int| raw[i] as char))
    } else {
        None
    }
}

/// `HeaderValue::from_bytes` followed by `HeaderValue::to_str`. The first
/// refuses bytes below 32 other than tab, and 127; the second refuses whatever
/// is not printable ASCII or tab, and otherwise hands the bytes back as a
/// string. Assumed: the outcome is `header_text` of the bytes.
#[verifier::external_body]
pub(crate) fn header_to_text(raw: &[u8]) -> (r: Option<String>)
    ensures
        match r {
            Some(text) => header_text(raw@) == Some(text@),
            None => header_text(raw@) is None,
        },
{
    match HeaderValue::from_bytes(raw) {
        Ok(value) => value.to_str().ok().map(str::to_owned),
        Err(_) => None,
    }
}

} // verus!
