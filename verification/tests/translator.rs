use ew_translator::json::{parse_json_text, Json};
use ew_translator::settings::{TranslationSettings, TranslationSource};
use ew_translator::translator::{
    chat_completions_endpoint, check_phrase, ensure_success, failure_kind, finish_translation, gemini_endpoint,
    json_error_message, parse_chat_translation, parse_gemini_translation,
    parse_google_translation, status_text, HttpMethod, Provider, RequestFailure, TranslateError,
};

fn translation_settings(source: TranslationSource, api_url: &str, model: &str) -> TranslationSettings {
    TranslationSettings {
        source,
        api_key: Some("test-secret".into()),
        model: Some(model.into()),
        api_url: api_url.into(),
    }
}

#[test]
fn parses_google_translation_segments() {
    let body =
        r#"[[["Привет, ","Hello, ",null,null,10],["мир!","world!",null,null,10]],null,"en"]"#;

    assert_eq!(parse_google_translation(body).unwrap(), "Привет, мир!");
}

#[test]
fn parses_gemini_text_parts() {
    let body =
        r#"{"candidates":[{"content":{"parts":[{"text":"Привет, "},{"text":"мир!"}]}}]}"#;

    assert_eq!(parse_gemini_translation(body).unwrap(), "Привет, мир!");
}

#[test]
fn reports_gemini_safety_block() {
    let body = r#"{"promptFeedback":{"blockReason":"SAFETY"}}"#;

    let error = parse_gemini_translation(body).unwrap_err();

    assert!(error
        .message()
        .contains("translation was blocked: SAFETY"));
}

#[test]
fn parses_chat_completion_string_content() {
    let body = r#"{"choices":[{"message":{"role":"assistant","content":"Привет!"}}]}"#;

    assert_eq!(
        parse_chat_translation(body, TranslationSource::OpenAi).unwrap(),
        "Привет!"
    );
}

#[test]
fn parses_chat_completion_content_parts() {
    let body = r#"{"choices":[{"message":{"content":[{"type":"text","text":"Привет, "},{"type":"text","text":"мир!"}]}}]}"#;

    assert_eq!(
        parse_chat_translation(body, TranslationSource::OpenRouter).unwrap(),
        "Привет, мир!"
    );
}

#[test]
fn does_not_expose_html_error_pages() {
    let error = ensure_success(
        TranslationSource::GoogleTranslate,
        429,
        "<html><title>Sorry...</title><body>automated queries</body></html>",
    )
    .unwrap_err();
    let message = error.message();

    assert!(message.contains("rate limit exceeded"));
    assert!(!message.contains("<html>"));
}

#[test]
fn reports_json_api_errors_without_dumping_the_response() {
    let body = r#"{"error":{"message":"invalid API key","internal":"do not show"}}"#;
    let error = ensure_success(
        TranslationSource::OpenRouter,
        401,
        body,
    )
    .unwrap_err();

    assert_eq!(
        error.message(),
        "OpenRouter returned HTTP 401 Unauthorized: invalid API key"
    );
    assert!(!error.message().contains("internal"));
}

#[test]
fn builds_provider_endpoints() {
    assert_eq!(
        gemini_endpoint("https://example.com/v1beta/", "models/gemini-test").unwrap(),
        "https://example.com/v1beta/models/gemini-test:generateContent"
    );
    assert_eq!(
        chat_completions_endpoint("http://localhost:1234/v1/"),
        "http://localhost:1234/v1/chat/completions"
    );
    assert_eq!(
        chat_completions_endpoint("https://example.com/v1/chat/completions"),
        "https://example.com/v1/chat/completions"
    );
}

#[test]
fn chat_endpoint_is_stable_when_applied_twice() {
    let once = chat_completions_endpoint("https://example.com/v1//");
    assert_eq!(once, "https://example.com/v1/chat/completions");
    assert_eq!(chat_completions_endpoint(&once), once);
}

#[test]
fn gemini_endpoint_refuses_path_characters() {
    for model in ["", "models/", "a/b", "a?b", "a#b"] {
        let error = gemini_endpoint("https://example.com", model).unwrap_err();
        assert_eq!(
            error.message(),
            "Google Gemini returned an invalid response: model ID contains unsupported path characters"
        );
    }
    assert_eq!(
        gemini_endpoint("https://example.com", "gemini-2.5-flash-lite").unwrap(),
        "https://example.com/models/gemini-2.5-flash-lite:generateContent"
    );
}

#[test]
fn error_messages_are_compact_and_cut() {
    let body = r#"{"message":"  quota\n\n exceeded\tfor   today "}"#;
    assert_eq!(json_error_message(body).as_deref(), Some("quota exceeded for today"));
    let long = format!(r#"{{"error":{{"message":"{}"}}}}"#, "x".repeat(300));
    assert_eq!(json_error_message(&long).unwrap().chars().count(), 240);
    assert_eq!(json_error_message(r#"{"error":{"message":42}}"#), None);
    assert_eq!(json_error_message(r#"{"message":"   "}"#), None);
    assert_eq!(json_error_message("<html></html>"), None);
    assert_eq!(
        json_error_message(r#"{"promptFeedback":{"blockReason":"OTHER"}}"#).as_deref(),
        Some("OTHER")
    );
}

#[test]
fn status_lines_follow_the_status_code_display() {
    assert_eq!(status_text(404, Some("Not Found")), "404 Not Found");
    assert_eq!(status_text(599, None), "599 <unknown status code>");
    let error = TranslateError::HttpStatus {
        provider: TranslationSource::Gemini,
        status: 503,
        detail: None,
    };
    assert_eq!(error.message(), "Google Gemini returned HTTP 503 Service Unavailable");
    let error = TranslateError::HttpStatus {
        provider: TranslationSource::GoogleTranslate,
        status: 500,
        detail: Some("boom".into()),
    };
    assert_eq!(
        error.message(),
        "Google Translate returned HTTP 500 Internal Server Error: boom"
    );
}

#[test]
fn other_error_messages() {
    assert_eq!(TranslateError::EmptyPhrase.message(), "No text is selected");
    assert_eq!(
        TranslateError::Runtime("no threads".into()).message(),
        "Cannot start translation runtime: no threads"
    );
    let cases = [
        (RequestFailure::Timeout, "OpenRouter request timed out"),
        (RequestFailure::Connect, "OpenRouter connection failed"),
        (RequestFailure::Decode, "OpenRouter response could not be decoded"),
        (RequestFailure::Other, "OpenRouter network request failed"),
    ];
    for (failure, expected) in cases {
        let error = TranslateError::Request {
            provider: TranslationSource::OpenRouter,
            failure,
        };
        assert_eq!(error.message(), expected);
    }
}

#[test]
fn invalid_and_empty_responses() {
    let error = parse_google_translation("not json").unwrap_err();
    assert!(error
        .message()
        .starts_with("Google Translate returned an invalid response: invalid JSON: "));
    let error = parse_google_translation(r#"{"a":1}"#).unwrap_err();
    assert_eq!(
        error.message(),
        "Google Translate returned an invalid response: response contains no translation segments"
    );
    let error = parse_chat_translation(r#"{"choices":[]}"#, TranslationSource::OpenAi).unwrap_err();
    assert_eq!(
        error.message(),
        "OpenAI-compatible API returned an invalid response: response contains no assistant text"
    );
    let error =
        parse_chat_translation(r#"{"choices":[{"text":7}]}"#, TranslationSource::OpenAi).unwrap_err();
    assert_eq!(
        error.message(),
        "OpenAI-compatible API returned an invalid response: translation text is empty"
    );
    assert_eq!(
        parse_chat_translation(r#"{"choices":[{"text":" Hi "}]}"#, TranslationSource::OpenAi).unwrap(),
        "Hi"
    );
    let error = parse_gemini_translation("{}").unwrap_err();
    assert_eq!(
        error.message(),
        "Google Gemini returned an invalid response: response contains no candidate text"
    );
    assert!(finish_translation("  \n".into(), TranslationSource::Gemini).is_err());
    assert_eq!(
        finish_translation(" ok \n".into(), TranslationSource::Gemini).unwrap(),
        "ok"
    );
}

#[test]
fn json_pointer_steps_read_objects_and_arrays() {
    let document = parse_json_text(r#"{"a":[{"0":"x"},"y"],"n":1.5}"#).unwrap();
    assert_eq!(document.pointer(&["a", "1"]).and_then(Json::as_str), Some("y"));
    assert!(document.pointer(&["a", "01"]).is_none());
    assert!(document.pointer(&["a", "+1"]).is_none());
    assert_eq!(document.pointer(&["a", "0", "0"]).and_then(Json::as_str), Some("x"));
    assert!(matches!(document.get_member("n"), Some(Json::Number(_))));
}

#[test]
fn blank_phrases_are_refused() {
    assert!(matches!(check_phrase(" \n\t"), Err(TranslateError::EmptyPhrase)));
    assert!(check_phrase(" hi ").is_ok());
}

#[test]
fn gemini_request_carries_key_header_and_prompt() {
    let provider = Provider::new(translation_settings(
        TranslationSource::Gemini,
        "http://127.0.0.1:9/",
        "gemini-test",
    ));
    assert_eq!(provider.unmet_expectation(), None);
    let request = provider.request("Hello!", "ru").unwrap();
    assert_eq!(request.method, HttpMethod::Post);
    assert_eq!(request.url, "http://127.0.0.1:9/models/gemini-test:generateContent");
    assert!(request.query.is_empty());
    assert_eq!(
        request.headers,
        vec![("x-goog-api-key".to_string(), "test-secret".to_string())]
    );
    assert_eq!(request.bearer_token, None);
    let body = request.body.unwrap();
    let text = body
        .pointer(&["contents", "0", "parts", "0", "text"])
        .and_then(Json::as_str)
        .unwrap();
    assert_eq!(text, "Target language: ru\n\nText to translate:\nHello!");
}

#[test]
fn openrouter_request_carries_bearer_and_attribution() {
    let provider = Provider::new(translation_settings(
        TranslationSource::OpenRouter,
        "http://127.0.0.1:9/v1",
        "provider/model",
    ));
    let request = provider.request("Hello!", "ru").unwrap();
    assert_eq!(request.url, "http://127.0.0.1:9/v1/chat/completions");
    assert_eq!(request.bearer_token.as_deref(), Some("test-secret"));
    assert_eq!(
        request.headers,
        vec![
            ("HTTP-Referer".to_string(), "https://github.com/bnku/ew-translator".to_string()),
            ("X-OpenRouter-Title".to_string(), "ew-translator".to_string()),
        ]
    );
    let body = request.body.unwrap();
    assert_eq!(body.get_member("model").and_then(Json::as_str), Some("provider/model"));
}

#[test]
fn google_request_puts_the_phrase_in_the_query() {
    let provider = Provider::new(translation_settings(
        TranslationSource::GoogleTranslate,
        "https://translate.googleapis.com/translate_a/single",
        "unused",
    ));
    let request = provider.request("Hello!", "fr").unwrap();
    assert_eq!(request.method, HttpMethod::Get);
    assert_eq!(request.url, "https://translate.googleapis.com/translate_a/single");
    let query: Vec<(&str, &str)> = request
        .query
        .iter()
        .map(|(name, value)| (name.as_str(), value.as_str()))
        .collect();
    assert_eq!(
        query,
        vec![("client", "gtx"), ("sl", "auto"), ("tl", "fr"), ("dt", "t"), ("q", "Hello!")]
    );
    assert!(request.body.is_none());
}

#[test]
fn responses_are_read_by_source() {
    let provider = Provider::new(translation_settings(
        TranslationSource::OpenAi,
        "http://127.0.0.1:9/v1",
        "m",
    ));
    assert_eq!(
        provider
            .read_response(200, r#"{"choices":[{"message":{"content":"Bonjour"}}]}"#)
            .unwrap(),
        "Bonjour"
    );
    let error = provider
        .read_response(500, r#"{"error":{"message":"overloaded"}}"#)
        .unwrap_err();
    assert_eq!(
        error.message(),
        "OpenAI-compatible API returned HTTP 500 Internal Server Error: overloaded"
    );
    let missing = Provider::new(TranslationSettings {
        source: TranslationSource::OpenAi,
        api_key: None,
        model: Some("m".into()),
        api_url: "http://127.0.0.1:9/v1".into(),
    });
    assert_eq!(missing.unmet_expectation(), Some("API key is validated at startup"));
}

#[test]
fn model_prefix_does_not_select_google() {
    let provider = Provider::new(translation_settings(
        TranslationSource::OpenRouter,
        "https://openrouter.ai/api/v1",
        "google/gemini-2.5-flash-lite",
    ));
    let request = provider.request("Hello!", "ru").unwrap();
    assert_eq!(request.method, HttpMethod::Post);
    assert_eq!(request.url, "https://openrouter.ai/api/v1/chat/completions");
    assert_eq!(request.bearer_token.as_deref(), Some("test-secret"));
}

#[test]
fn request_failures_are_classified_in_order() {
    assert_eq!(failure_kind(true, true, true), RequestFailure::Timeout);
    assert_eq!(failure_kind(false, true, true), RequestFailure::Connect);
    assert_eq!(failure_kind(false, false, true), RequestFailure::Decode);
    assert_eq!(failure_kind(false, false, false), RequestFailure::Other);
}
