use json_parse::compact;
use json_parse::{
    parse_json, parse_json_serde, parse_json_simd, report, wasm_parse_json_serde,
    wasm_parse_json_simd,
};

#[test]
fn it_works() {
    let result = compact::parse_json(String::from("{\"test\": 123}"));
    assert!(result.is_ok());
}

#[test]
fn compact_rewrites_without_spaces() {
    let result = compact::parse_json(String::from("{\"test\": 123}"));
    assert_eq!(result, Ok(String::from("{\"test\":123}")));
}

#[test]
fn compact_fails_on_missing_brace() {
    let result = compact::parse_json(String::from("{\"test\": 123"));
    let message = result.unwrap_err();
    assert!(message.contains("EOF"));
}

#[test]
fn valid_input_is_returned_unchanged() {
    let input = String::from("{\"test\": 123}");
    assert_eq!(parse_json(input.clone()), input);
    assert_eq!(parse_json_serde(input.clone()), input);
    assert_eq!(parse_json_simd(input.clone()), input);
    assert_eq!(wasm_parse_json_serde(&input), input);
    assert_eq!(wasm_parse_json_simd(&input), input);
}

#[test]
fn missing_brace_is_reported() {
    let input = "{\"test\": 123";
    let serde = parse_json(String::from(input));
    assert!(serde.starts_with("Invalid JSON: "));
    assert!(serde.contains("EOF"));
    assert_eq!(parse_json_serde(String::from(input)), serde);
    assert_eq!(wasm_parse_json_serde(input), serde);
    assert_eq!(wasm_parse_json_simd(input), serde);
    let simd = parse_json_simd(String::from(input));
    assert!(simd.starts_with("Invalid JSON: "));
    assert!(simd.len() > "Invalid JSON: ".len());
}

#[test]
fn invalid_inputs_get_a_description() {
    for input in ["{", "not json", ""] {
        let serde = parse_json(String::from(input));
        assert!(serde.starts_with("Invalid JSON: "));
        assert!(serde.len() > "Invalid JSON: ".len());
        let simd = parse_json_simd(String::from(input));
        assert!(simd.starts_with("Invalid JSON: "));
        assert!(simd.len() > "Invalid JSON: ".len());
        let message = compact::parse_json(String::from(input)).unwrap_err();
        assert!(!message.is_empty());
    }
}

#[test]
fn checking_an_answer_again_gives_the_same_answer() {
    for input in ["[1, 2, 3]", "{\"a\": {\"b\": null}}", "\"text\"", "42"] {
        let once = parse_json(String::from(input));
        assert_eq!(parse_json(once.clone()), once);
        let once_simd = parse_json_simd(String::from(input));
        assert_eq!(parse_json_simd(once_simd.clone()), once_simd);
    }
}

#[test]
fn backends_agree_on_validity() {
    for input in ["{\"test\": 123}", "[true, false, null]", "{", "not json", "", "[1,]"] {
        let serde_ok = parse_json(String::from(input)) == input;
        let simd_ok = parse_json_simd(String::from(input)) == input;
        assert_eq!(serde_ok, simd_ok, "{}", input);
    }
}

#[test]
fn trailing_characters_are_rejected() {
    let answer = parse_json(String::from("{} x"));
    assert!(answer.starts_with("Invalid JSON: trailing characters"));
}

#[test]
fn report_keeps_accepted_input() {
    assert_eq!(report(String::from("[1]"), None), "[1]");
}

#[test]
fn report_prefixes_the_message() {
    let answer = report(String::from("{"), Some(String::from("EOF")));
    assert_eq!(answer, "Invalid JSON: EOF");
}
