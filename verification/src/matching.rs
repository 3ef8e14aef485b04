//! Regular expressions: what the library asks of the `regex` crate.

use vstd::prelude::*;

verus! {

/// What the groups of the expression `pattern` hold at its first match in
/// `text`, group 0 being the whole match and a group that took no part
/// being `None`. `None` for all where the expression does not match, or is
/// no valid expression.
pub uninterp spec fn regex_captures(pattern: Seq<char>, text: Seq<char>) -> Option<
    Seq<Option<Seq<char>>>,
>;

/// Where the groups of the expression `pattern` lie in `text`, for each of
/// its matches from left to right: the byte positions at which a group
/// begins and ends, group 0 being the whole match. No matches where the
/// expression is no valid expression.
pub uninterp spec fn regex_capture_spans(pattern: Seq<char>, text: Seq<char>) -> Seq<
    Seq<Option<(usize, usize)>>,
>;

/// Where the matches of the expression `pattern` lie in `text`, from left
/// to right: the byte positions at which each begins and ends. No matches
/// where the expression is no valid expression.
pub uninterp spec fn regex_matches(pattern: Seq<char>, text: Seq<char>) -> Seq<(usize, usize)>;

/// The texts of the groups, as values of specifications.
pub open spec fn group_texts(groups: Option<Vec<Option<String>>>) -> Option<Seq<Option<Seq<char>>>> {
    match groups {
        Some(g) => Some(
            g@.map_values(
                |t: Option<String>|
                    match t {
                        Some(s) => Some(s@),
                        None => None,
                    },
            ),
        ),
        None => None,
    }
}

/// The spans of the groups of every match, as values of specifications.
pub open spec fn span_rows(rows: Vec<Vec<Option<(usize, usize)>>>) -> Seq<
    Seq<Option<(usize, usize)>>,
> {
    rows@.map_values(|row: Vec<Option<(usize, usize)>>| row@)
}

/// `regex::Regex::captures` on the expression that `regex::Regex::new`
/// makes of `pattern`: the texts of the groups at the first match. The
/// result is named, not spelled out.
#[verifier::external_body]
pub(crate) fn captures_of(pattern: &str, text: &str) -> (groups: Option<Vec<Option<String>>>)
    ensures
        group_texts(groups) == regex_captures(pattern@, text@),
{
    let re = regex::Regex::new(pattern).ok()?;
    let caps = re.captures(text)?;
    Some(caps.iter().map(|m| m.map(|m| m.as_str().to_owned())).collect())
}

/// `regex::Regex::captures_iter` on the expression that `regex::Regex::new`
/// makes of `pattern`: the spans of the groups of every match. The result
/// is named, not spelled out.
#[verifier::external_body]
pub(crate) fn capture_spans_of(pattern: &str, text: &str) -> (rows: Vec<
    Vec<Option<(usize, usize)>>,
>)
    ensures
        span_rows(rows) == regex_capture_spans(pattern@, text@),
{
    match regex::Regex::new(pattern) {
        Ok(re) => re.captures_iter(text).map(
            |caps| caps.iter().map(|m| m.map(|m| (m.start(), m.end()))).collect(),
        ).collect(),
        Err(_) => Vec::new(),
    }
}

/// `regex::Regex::find_iter` on the expression that `regex::Regex::new`
/// makes of `pattern`: the spans of all matches. The result is named, not
/// spelled out.
#[verifier::external_body]
pub(crate) fn matches_of(pattern: &str, text: &str) -> (spans: Vec<(usize, usize)>)
    ensures
        spans@ == regex_matches(pattern@, text@),
{
    match regex::Regex::new(pattern) {
        Ok(re) => re.find_iter(text).map(|m| (m.start(), m.end())).collect(),
        Err(_) => Vec::new(),
    }
}

} // verus!
