//! Tests of the boundary operations: validation, the result record, and the
//! produced buffers.

use harmony_ffi::{
    harmony_encoding_decode, harmony_encoding_encode_plain, harmony_encoding_new,
    harmony_encoding_render_prompt, harmony_encoding_stop_tokens, HarmonyEncodingWrapper,
    TOKEN_CALL, TOKEN_END, TOKEN_MESSAGE, TOKEN_RETURN, TOKEN_START,
};

fn handle() -> HarmonyEncodingWrapper {
    harmony_encoding_new().expect("the built-in encoding always loads")
}

#[test]
fn create_always_yields_a_handle() {
    assert!(harmony_encoding_new().is_some());
}

#[test]
fn round_trip_plain_text() {
    let h = handle();
    let text = "Hello, world! \u{00e9}\u{4e16}\u{754c}";
    let (res, tokens) = harmony_encoding_encode_plain(Some(&h), Some(text));
    assert!(res.success);
    let tokens = tokens.unwrap();
    let decoded = harmony_encoding_decode(Some(&h), Some(&tokens));
    assert_eq!(decoded.as_deref(), Some(text));
}

#[test]
fn round_trip_empty_text() {
    let h = handle();
    let (res, tokens) = harmony_encoding_encode_plain(Some(&h), Some(""));
    assert!(res.success);
    let tokens = tokens.unwrap();
    assert_eq!(tokens.len(), 0);
    let decoded = harmony_encoding_decode(Some(&h), Some(&tokens));
    assert_eq!(decoded.as_deref(), Some(""));
}

#[test]
fn encode_plain_exact_tokens() {
    let h = handle();
    let (res, tokens) = harmony_encoding_encode_plain(Some(&h), Some("Hi"));
    assert!(res.success);
    assert!(res.error_message.is_none());
    assert_eq!(tokens.unwrap(), vec![72, 105]);
}

#[test]
fn encode_plain_null_handle() {
    let (res, tokens) = harmony_encoding_encode_plain(None, Some("x"));
    assert!(!res.success);
    let msg = res.error_message.expect("a failure carries a diagnostic");
    assert_eq!(msg, "Null encoding wrapper");
    assert!(tokens.is_none());
}

#[test]
fn encode_plain_null_text() {
    let h = handle();
    let (res, tokens) = harmony_encoding_encode_plain(Some(&h), None);
    assert!(!res.success);
    assert_eq!(res.error_message.as_deref(), Some("Null text"));
    assert!(tokens.is_none());
}

#[test]
fn render_prompt_user_only() {
    let h = handle();
    let (res, tokens) = harmony_encoding_render_prompt(Some(&h), None, Some("Hello"), None);
    assert!(res.success);
    assert!(res.error_message.is_none());
    let tokens = tokens.unwrap();
    assert!(!tokens.is_empty());
    let mut expected = vec![TOKEN_START];
    expected.extend("user".chars().map(|c| c as u32));
    expected.push(TOKEN_MESSAGE);
    expected.extend("Hello".chars().map(|c| c as u32));
    expected.push(TOKEN_END);
    assert_eq!(tokens, expected);
}

#[test]
fn render_prompt_with_system_and_prefix() {
    let h = handle();
    let (res, tokens) =
        harmony_encoding_render_prompt(Some(&h), Some("be brief"), Some("Hi"), Some("Ok"));
    assert!(res.success);
    let tokens = tokens.unwrap();
    let mut expected = Vec::new();
    for (role, text) in [("system", "be brief"), ("user", "Hi"), ("assistant", "Ok")] {
        expected.push(TOKEN_START);
        expected.extend(role.chars().map(|c| c as u32));
        expected.push(TOKEN_MESSAGE);
        expected.extend(text.chars().map(|c| c as u32));
        expected.push(TOKEN_END);
    }
    assert_eq!(tokens, expected);
}

#[test]
fn render_prompt_null_user_always_fails() {
    let h = handle();
    for system in [None, Some("sys")] {
        for prefix in [None, Some("pre")] {
            let (res, tokens) = harmony_encoding_render_prompt(Some(&h), system, None, prefix);
            assert!(!res.success);
            assert_eq!(res.error_message.as_deref(), Some("Null user message"));
            assert!(tokens.is_none());
        }
    }
}

#[test]
fn render_prompt_null_handle() {
    let (res, tokens) = harmony_encoding_render_prompt(None, None, Some("Hi"), None);
    assert!(!res.success);
    assert_eq!(res.error_message.as_deref(), Some("Null encoding wrapper"));
    assert!(tokens.is_none());
}

#[test]
fn render_prompt_empty_optionals_count_as_absent() {
    let h = handle();
    let (_, with_empty) = harmony_encoding_render_prompt(Some(&h), Some(""), Some("Hi"), Some(""));
    let (_, without) = harmony_encoding_render_prompt(Some(&h), None, Some("Hi"), None);
    assert_eq!(with_empty.unwrap(), without.unwrap());
}

#[test]
fn render_prompt_empty_user_is_present() {
    let h = handle();
    let (res, tokens) = harmony_encoding_render_prompt(Some(&h), None, Some(""), None);
    assert!(res.success);
    let expected: Vec<u32> = vec![
        TOKEN_START,
        'u' as u32,
        's' as u32,
        'e' as u32,
        'r' as u32,
        TOKEN_MESSAGE,
        TOKEN_END,
    ];
    assert_eq!(tokens.unwrap(), expected);
}

#[test]
fn stop_tokens_stable_across_calls() {
    let h = handle();
    let (res1, first) = harmony_encoding_stop_tokens(Some(&h));
    let (res2, second) = harmony_encoding_stop_tokens(Some(&h));
    assert!(res1.success && res2.success);
    let first = first.unwrap();
    let second = second.unwrap();
    assert!(!first.is_empty());
    assert_eq!(first, second);
}

#[test]
fn stop_tokens_exact() {
    let h = handle();
    let (_, tokens) = harmony_encoding_stop_tokens(Some(&h));
    assert_eq!(tokens.unwrap(), vec![TOKEN_RETURN, TOKEN_CALL]);
}

#[test]
fn stop_tokens_null_handle() {
    let (res, tokens) = harmony_encoding_stop_tokens(None);
    assert!(!res.success);
    assert_eq!(res.error_message.as_deref(), Some("Null encoding wrapper"));
    assert!(tokens.is_none());
}

#[test]
fn decode_empty_tokens_is_empty_string_not_null() {
    let h = handle();
    let tokens: Vec<u32> = Vec::new();
    let decoded = harmony_encoding_decode(Some(&h), Some(&tokens));
    assert_eq!(decoded.as_deref(), Some(""));
}

#[test]
fn decode_null_handle_or_tokens() {
    let h = handle();
    let tokens = vec![72, 105];
    assert!(harmony_encoding_decode(None, Some(&tokens)).is_none());
    assert!(harmony_encoding_decode(Some(&h), None).is_none());
}

#[test]
fn decode_surrogate_token_fails() {
    let h = handle();
    let tokens = vec![72, 0xD800, 105];
    assert!(harmony_encoding_decode(Some(&h), Some(&tokens)).is_none());
}

#[test]
fn decode_unknown_token_fails() {
    let h = handle();
    let tokens = vec![TOKEN_CALL + 1];
    assert!(harmony_encoding_decode(Some(&h), Some(&tokens)).is_none());
}

#[test]
fn decode_rendered_prompt_shows_markers() {
    let h = handle();
    let (_, tokens) = harmony_encoding_render_prompt(Some(&h), None, Some("Hi"), None);
    let decoded = harmony_encoding_decode(Some(&h), Some(&tokens.unwrap()));
    assert_eq!(decoded.as_deref(), Some("<|start|>user<|message|>Hi<|end|>"));
}

#[test]
fn decode_stop_tokens_shows_markers() {
    let h = handle();
    let (_, tokens) = harmony_encoding_stop_tokens(Some(&h));
    let decoded = harmony_encoding_decode(Some(&h), Some(&tokens.unwrap()));
    assert_eq!(decoded.as_deref(), Some("<|return|><|call|>"));
}
