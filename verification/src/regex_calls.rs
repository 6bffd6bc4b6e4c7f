//! Calls into the `regex` crate (its byte-oriented `regex::bytes::Regex`).
//! A pattern that does not compile is treated as one that never matches.
use vstd::prelude::*;

verus! {

/// What `regex::bytes::Regex::new(pattern)` then `find(hay)` gives: the byte
/// offsets `(start, end)` of the leftmost-first match, or `None`.
pub uninterp spec fn regex_find_result(pattern: Seq<char>, hay: Seq<u8>) -> Option<(usize, usize)>;

/// What `regex::bytes::Regex::new(pattern)` then `captures(hay)` gives: the
/// byte offsets of each capture group of the leftmost-first match (group 0 is
/// the whole match), or `None` when nothing matches.
pub uninterp spec fn regex_captures_result(pattern: Seq<char>, hay: Seq<u8>) -> Option<Seq<Option<(usize, usize)>>>;

/// What `regex::bytes::Regex::new(pattern)` then `replace_all(hay, rep)` gives.
pub uninterp spec fn regex_replace_all_result(pattern: Seq<char>, hay: Seq<u8>, rep: Seq<char>) -> Seq<u8>;

/// Calls `regex::bytes::Regex::new` and `Regex::find`. Trusted: the result is
/// the named result, and a match lies inside the haystack (`Match` documents
/// `start <= end` and that `&hay[start..end]` is the matched slice).
#[verifier::external_body]
pub(crate) fn regex_find(pattern: &str, hay: &[u8]) -> (res: Option<(usize, usize)>)
    ensures
        res == regex_find_result(pattern@, hay@),
        res matches Some((s, e)) ==> s <= e <= hay@.len(),
{
    let Ok(re) = regex::bytes::Regex::new(pattern) else {
        return None;
    };
    match re.find(hay) {
        Some(m) => Some((m.start(), m.end())),
        None => None,
    }
}

/// Calls `regex::bytes::Regex::new`, `Regex::captures` and reads every group
/// with `Captures::iter`. Trusted: the result is the named result, and each
/// group that took part in the match lies inside the haystack.
#[verifier::external_body]
pub(crate) fn regex_captures(pattern: &str, hay: &[u8]) -> (res: Option<Vec<Option<(usize, usize)>>>)
    ensures
        res is None <==> regex_captures_result(pattern@, hay@) is None,
        res matches Some(groups) ==> regex_captures_result(pattern@, hay@) == Some(groups@),
        res matches Some(groups) ==> forall|i: int|
            0 <= i < groups@.len() ==> (#[trigger] groups@[i] matches Some((s, e)) ==> s <= e <= hay@.len()),
{
    let Ok(re) = regex::bytes::Regex::new(pattern) else {
        return None;
    };
    let caps = re.captures(hay)?;
    let mut groups = Vec::new();
    for g in caps.iter() {
        groups.push(match g {
            Some(m) => Some((m.start(), m.end())),
            None => None,
        });
    }
    Some(groups)
}

/// Calls `regex::bytes::Regex::new` and `Regex::replace_all` with the bytes of
/// `rep` as replacement (in which `$0` stands for the match). Trusted: the
/// result is the named result.
#[verifier::external_body]
pub(crate) fn regex_replace_all(pattern: &str, hay: &[u8], rep: &str) -> (res: Vec<u8>)
    ensures
        res@ == regex_replace_all_result(pattern@, hay@, rep@),
{
    let Ok(re) = regex::bytes::Regex::new(pattern) else {
        return hay.to_vec();
    };
    re.replace_all(hay, rep.as_bytes()).into_owned()
}

} // verus!
