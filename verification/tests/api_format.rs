use ptrui::api::{
    api_error_message, build_translate_body, interpret_translation_payload, json_escape,
    resolve_auth, status_is_success, transport_error_message,
};

#[test]
fn body_holds_text_and_language_codes() {
    let body = build_translate_body("hello", "EN", "ES");
    assert_eq!(body, r#"{"text":["hello"],"source_lang":"EN","target_lang":"ES"}"#);
}

#[test]
fn body_escapes_quotes_backslashes_and_newlines() {
    let body = build_translate_body("say \"hi\"\\\n", "EN", "ES");
    assert_eq!(
        body,
        r#"{"text":["say \"hi\"\\\n"],"source_lang":"EN","target_lang":"ES"}"#
    );
}

#[test]
fn escaping_matches_the_json_encoder() {
    let tricky = "a\"b\\c\nd\re\tf\u{8}g\u{c}h\u{1}i\u{1f}j";
    let escaped = json_escape(tricky);
    let serde_encoded = serde_json::to_string(tricky).unwrap();
    assert_eq!(format!("\"{}\"", escaped), serde_encoded);
}

#[test]
fn status_success_is_the_2xx_range() {
    assert!(status_is_success(200));
    assert!(status_is_success(204));
    assert!(status_is_success(299));
    assert!(!status_is_success(199));
    assert!(!status_is_success(300));
    assert!(!status_is_success(404));
    assert!(!status_is_success(500));
}

#[test]
fn error_messages_carry_their_detail() {
    assert_eq!(
        api_error_message("404 Not Found", "missing"),
        "Translation API error (404 Not Found): missing"
    );
    assert_eq!(
        transport_error_message("connection refused"),
        "Failed to call translation API: connection refused"
    );
}

#[test]
fn payload_with_translations_yields_the_first() {
    let parsed = Ok(vec!["hola".to_string(), "bonjour".to_string()]);
    assert_eq!(interpret_translation_payload(parsed), Ok("hola".to_string()));
}

#[test]
fn empty_translations_list_is_an_error() {
    let parsed: Result<Vec<String>, String> = Ok(vec![]);
    assert_eq!(
        interpret_translation_payload(parsed),
        Err("API response missing translations".to_string())
    );
}

#[test]
fn undecodable_body_is_an_error() {
    let parsed: Result<Vec<String>, String> = Err("expected value at line 1".to_string());
    assert_eq!(
        interpret_translation_payload(parsed),
        Err("Invalid API response: expected value at line 1".to_string())
    );
}

#[test]
fn missing_key_means_no_auth_header() {
    assert_eq!(resolve_auth(None, None), (None, None));
    assert_eq!(resolve_auth(None, Some("X-Api-Key".to_string())), (None, None));
}

#[test]
fn default_header_carries_the_key_prefix() {
    let (name, value) = resolve_auth(Some("sekrit".to_string()), None);
    assert_eq!(name.as_deref(), Some("Authorization"));
    assert_eq!(value.as_deref(), Some("DeepL-Auth-Key sekrit"));
}

#[test]
fn authorization_header_is_matched_case_insensitively() {
    let (name, value) = resolve_auth(
        Some("sekrit".to_string()),
        Some("AUTHORIZATION".to_string()),
    );
    assert_eq!(name.as_deref(), Some("AUTHORIZATION"));
    assert_eq!(value.as_deref(), Some("DeepL-Auth-Key sekrit"));
}

#[test]
fn custom_header_carries_the_bare_key() {
    let (name, value) = resolve_auth(
        Some("sekrit".to_string()),
        Some("X-Api-Key".to_string()),
    );
    assert_eq!(name.as_deref(), Some("X-Api-Key"));
    assert_eq!(value.as_deref(), Some("sekrit"));
}
