//! How a check answers, once a parser has given its verdict.
use vstd::prelude::*;

verus! {

/// The text that stands before a parser's message in a rejection.
pub open spec fn invalid_prefix() -> Seq<char> {
    "Invalid JSON: "@
}

/// An answer that reports a rejection: the prefix, then a non-empty
/// description.
pub open spec fn is_rejection(r: Seq<char>) -> bool {
    r.len() > invalid_prefix().len() && r.subrange(0, invalid_prefix().len() as int)
        == invalid_prefix()
}

/// A parser's verdict as plain text: `None` for an accepted input, else the
/// parser's message.
pub open spec fn verdict_view(v: Option<String>) -> Option<Seq<char>> {
    match v {
        None => None,
        Some(m) => Some(m@),
    }
}

/// The answer for input `s` under `verdict`: the input itself when it was
/// accepted, else the rejection prefix followed by the message.
pub open spec fn reported(s: Seq<char>, verdict: Option<Seq<char>>) -> Seq<char> {
    match verdict {
        None => s,
        Some(m) => invalid_prefix() + m,
    }
}

/// Builds the answer for `json_str` from a parser's verdict on it.
pub fn report(json_str: String, verdict: Option<String>) -> (r: String)
    ensures
        r@ == reported(json_str@, verdict_view(verdict)),
{
    match verdict {
        None => json_str,
        Some(m) => String::from_str("Invalid JSON: ").concat(m.as_str()),
    }
}

} // verus!
