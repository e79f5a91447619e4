//! Checks whether a text is one syntactically valid JSON value, through
//! serde_json or simd_json, and answers with the text itself or with a
//! description of what is wrong with it.
use vstd::prelude::*;

pub mod backend;
pub mod compact;
pub mod laws;
pub mod outcome;

pub use outcome::report;

verus! {

use crate::backend::{serde_raw_check, serde_verdict, simd_check};
use crate::laws::lemma_rejection_described;
use crate::outcome::{is_rejection, reported, verdict_view};

/// Answers for `s` from a parser's verdict on it, and shows that a
/// rejection with a non-empty message has the rejection form.
fn answer(json_str: String, verdict: Option<String>) -> (r: String)
    requires
        verdict matches Some(m) ==> m@.len() > 0,
    ensures
        r@ == reported(json_str@, verdict_view(verdict)),
        verdict is None ==> r@ == json_str@,
        verdict is Some ==> is_rejection(r@),
{
    let ghost s = json_str@;
    let ghost v = verdict_view(verdict);
    proof {
        if v is Some {
            lemma_rejection_described(s, v->0);
        }
    }
    report(json_str, verdict)
}

/// Checks `json_str` with serde_json's raw-value reader: the text itself when
/// it is valid JSON, else `Invalid JSON: ` followed by serde_json's message.
pub fn parse_json(json_str: String) -> (r: String)
    ensures
        r@ == reported(json_str@, serde_verdict(json_str@)),
        serde_verdict(json_str@) is Some ==> is_rejection(r@),
{
    let verdict = serde_raw_check(json_str.as_str());
    answer(json_str, verdict)
}

/// The same check as `parse_json`, under the name of its backend.
pub fn parse_json_serde(json_str: String) -> (r: String)
    ensures
        r@ == reported(json_str@, serde_verdict(json_str@)),
        serde_verdict(json_str@) is Some ==> is_rejection(r@),
{
    let verdict = serde_raw_check(json_str.as_str());
    answer(json_str, verdict)
}

/// Checks `json_str` with simd_json: the text itself when it is valid JSON,
/// else `Invalid JSON: ` followed by simd_json's message. simd_json's
/// answer depends on the machine it runs on, so what is stated is the form
/// of the answer, whichever verdict came back.
pub fn parse_json_simd(json_str: String) -> (r: String)
    ensures
        r@ == json_str@ || is_rejection(r@),
{
    let verdict = simd_check(json_str.as_str());
    answer(json_str, verdict)
}

/// The borrowed-text form of `parse_json_serde`, as a WebAssembly host calls it.
pub fn wasm_parse_json_serde(json_str: &str) -> (r: String)
    ensures
        r@ == reported(json_str@, serde_verdict(json_str@)),
        serde_verdict(json_str@) is Some ==> is_rejection(r@),
{
    let verdict = serde_raw_check(json_str);
    answer(String::from_str(json_str), verdict)
}

/// The borrowed-text form of the SIMD check for WebAssembly, where simd_json
/// is not available: it checks with serde_json.
pub fn wasm_parse_json_simd(json_str: &str) -> (r: String)
    ensures
        r@ == reported(json_str@, serde_verdict(json_str@)),
        serde_verdict(json_str@) is Some ==> is_rejection(r@),
{
    let verdict = serde_raw_check(json_str);
    answer(String::from_str(json_str), verdict)
}

} // verus!
