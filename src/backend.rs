//! The outside parsers, each behind one call whose result is named here.
use vstd::prelude::*;

verus! {

use crate::outcome::verdict_view;

/// serde_json's verdict on a text read as one raw JSON value: `None` when it
/// accepts the text, else the message of its error.
pub uninterp spec fn serde_verdict(s: Seq<char>) -> Option<Seq<char>>;

/// serde_json's reading of a text as a value tree: the value written back as
/// compact JSON, or the message of its error.
pub uninterp spec fn serde_compact(s: Seq<char>) -> Result<Seq<char>, Seq<char>>;

/// Relies on serde_json::from_str::<&RawValue>, which validates the text
/// without building a value, and on its error's `Display` for the message,
/// which always names what went wrong.
#[verifier::external_body]
pub(crate) fn serde_raw_check(s: &str) -> (r: Option<String>)
    ensures
        verdict_view(r) == serde_verdict(s@),
        r matches Some(m) ==> m@.len() > 0,
{
    match serde_json::from_str::<&serde_json::value::RawValue>(s) {
        Ok(_) => None,
        Err(e) => Some(e.to_string()),
    }
}

/// Relies on simd_json::to_owned_value, run on a copy of the text's bytes
/// (it rewrites its buffer), and on its error's `Display` for the message:
/// the error kind and a position. simd_json picks its string parser by the
/// features of the CPU it runs on, and those parsers count positions
/// differently, so neither the message nor the verdict is named here; only
/// that a message is never empty.
#[verifier::external_body]
pub(crate) fn simd_check(s: &str) -> (r: Option<String>)
    ensures
        r matches Some(m) ==> m@.len() > 0,
{
    let mut bytes = s.as_bytes().to_vec();
    match simd_json::to_owned_value(&mut bytes) {
        Ok(_) => None,
        Err(e) => Some(e.to_string()),
    }
}

/// Relies on serde_json::from_str::<Value>, and on the `Display` of the value
/// (compact JSON) or of the error (its message, never empty).
#[verifier::external_body]
pub(crate) fn serde_value_compact(s: &str) -> (r: Result<String, String>)
    ensures
        r matches Err(m) ==> m@.len() > 0,
        match r {
            Ok(t) => serde_compact(s@) == Ok::<Seq<char>, Seq<char>>(t@),
            Err(m) => serde_compact(s@) == Err::<Seq<char>, Seq<char>>(m@),
        },
{
    match serde_json::from_str::<serde_json::Value>(s) {
        Ok(v) => Ok(v.to_string()),
        Err(e) => Err(e.to_string()),
    }
}

} // verus!
