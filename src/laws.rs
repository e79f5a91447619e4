//! What holds of every answer of the identity checks, for every input.
use vstd::prelude::*;

verus! {

use crate::backend::serde_verdict;
use crate::outcome::{invalid_prefix, is_rejection, reported};

/// The answer that `parse_json`, `parse_json_serde` and both WebAssembly
/// checks give for `s`.
pub open spec fn serde_answer(s: Seq<char>) -> Seq<char> {
    reported(s, serde_verdict(s))
}

/// An input that serde_json accepts is answered with itself, so checking
/// that answer again gives the same answer.
pub proof fn lemma_serde_answer_idempotent(s: Seq<char>)
    requires
        serde_verdict(s) is None,
    ensures
        serde_answer(s) == s,
        serde_answer(serde_answer(s)) == serde_answer(s),
{
}

/// A rejection is never empty: it is the prefix `Invalid JSON: ` followed
/// by the parser's message, and with a non-empty message it has the form
/// `is_rejection` describes.
pub proof fn lemma_rejection_described(s: Seq<char>, message: Seq<char>)
    ensures
        reported(s, Some(message)).len() > 0,
        message.len() > 0 ==> is_rejection(reported(s, Some(message))),
        reported(s, Some(message)).subrange(0, invalid_prefix().len() as int)
            == invalid_prefix(),
        reported(s, Some(message)).subrange(
            invalid_prefix().len() as int,
            reported(s, Some(message)).len() as int,
        ) == message,
{
    reveal_strlit("Invalid JSON: ");
    let r = reported(s, Some(message));
    assert(r.subrange(0, invalid_prefix().len() as int) =~= invalid_prefix());
    assert(r.subrange(invalid_prefix().len() as int, r.len() as int) =~= message);
}

/// Whatever serde_json rejects is answered with a non-empty description
/// that starts with `Invalid JSON: ` and ends with serde_json's message.
pub proof fn lemma_serde_rejection_described(s: Seq<char>)
    requires
        serde_verdict(s) is Some,
    ensures
        serde_answer(s).len() > 0,
        serde_answer(s) == invalid_prefix() + serde_verdict(s)->0,
{
    lemma_rejection_described(s, serde_verdict(s)->0);
}

} // verus!
