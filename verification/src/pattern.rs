use regex::Regex;
use vstd::prelude::*;

verus! {

/// Whether the regular expression `pattern` matches somewhere in `text`, as the `regex` crate
/// decides it; `None` where the crate turns the pattern down.
pub uninterp spec fn pattern_found(pattern: Seq<char>, text: Seq<char>) -> Option<bool>;

/// The pieces of `text` that lie between the matches of the regular expression `pattern`, in
/// their order, as the `regex` crate cuts them; `None` where the crate turns the pattern down.
pub uninterp spec fn pattern_pieces(pattern: Seq<char>, text: Seq<char>) -> Option<
    Seq<Seq<char>>,
>;

/// Compiles `pattern` with `regex::Regex::new` and asks `Regex::is_match` whether it matches
/// anywhere in `text`. Nothing is proved of the answer: the contract only gives it its name.
#[verifier::external_body]
pub(crate) fn is_match(pattern: &str, text: &str) -> (r: Option<bool>)
    ensures
        r == pattern_found(pattern@, text@),
{
    match Regex::new(pattern) {
        Ok(compiled) => Some(compiled.is_match(text)),
        Err(_) => None,
    }
}

/// Compiles `pattern` with `regex::Regex::new` and cuts `text` with `Regex::split`, copying
/// each piece. Nothing is proved of the pieces: the contract only gives them their name.
#[verifier::external_body]
pub(crate) fn split(pattern: &str, text: &str) -> (r: Option<Vec<String>>)
    ensures
        match r {
            Some(pieces) => pattern_pieces(pattern@, text@) == Some(pieces.deep_view()),
            None => pattern_pieces(pattern@, text@) is None,
        },
{
    match Regex::new(pattern) {
        Ok(compiled) => Some(compiled.split(text).map(String::from).collect()),
        Err(_) => None,
    }
}

} // verus!
