//! The check that reads the text into a value tree and answers with the value
//! written back as compact JSON, or fails with the parser's message.
use vstd::prelude::*;

verus! {

use crate::backend::{serde_compact, serde_value_compact};

/// The text of a result, as plain sequences.
pub open spec fn result_view(r: Result<String, String>) -> Result<Seq<char>, Seq<char>> {
    match r {
        Ok(t) => Ok(t@),
        Err(m) => Err(m@),
    }
}

/// Parses `json_str` into a value tree: `Ok` with the value as compact JSON
/// when it is valid JSON, else `Err` with serde_json's message, which is
/// never empty.
pub fn parse_json(json_str: String) -> (r: Result<String, String>)
    ensures
        result_view(r) == serde_compact(json_str@),
        r matches Err(m) ==> m@.len() > 0,
{
    serde_value_compact(json_str.as_str())
}

} // verus!
