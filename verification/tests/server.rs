use llm_proxy::error::StreamError;
use llm_proxy::providers::OpenAIChatCompletionsProvider;
use llm_proxy::request::{ChatCompletionsRequest, StreamOptions};
use llm_proxy::server::{model_is_openai, route, Provider, ServerConfig};
use llm_proxy::text::{
    concat_chars, find_char, has_substring, is_whitespace_char, lowercase, matches_at,
    push_decimal, slice, starts_with, str_equals, to_chars, to_lower_char, trimmed,
};

fn request(model: &str, stream: Option<bool>) -> ChatCompletionsRequest {
    ChatCompletionsRequest {
        frequency_penalty: Some(0x3f000000),
        logit_bias: Some(vec![("50256".to_string(), "-100".to_string())]),
        messages: vec![],
        max_tokens: Some(16),
        model: model.to_string(),
        n: Some(1),
        presence_penalty: None,
        stop: Some(vec!["\n".to_string()]),
        stream,
        stream_options: None,
        temperature: Some(0x3f800000),
        top_p: None,
        user: Some("u".to_string()),
        tools: None,
        tool_choice: None,
    }
}

fn chars(text: &str) -> Vec<char> {
    text.chars().collect()
}

#[test]
fn streaming_switched_off_is_refused() {
    let mut r = request("gpt-4o", Some(false));
    let error = route(&mut r, &Some("key".to_string())).unwrap_err();
    assert_eq!(error.message(), "Streaming is required but was disabled");
    assert_eq!(error.status_code(), 400);
    assert_eq!(r, request("gpt-4o", Some(false)));
    let mut r = request("amazon.nova", Some(false));
    assert_eq!(route(&mut r, &None).unwrap_err().status_code(), 400);
}

#[test]
fn openai_models_need_a_key() {
    let mut r = request("gpt-4o", None);
    let error = route(&mut r, &None).unwrap_err();
    assert_eq!(
        error.message(),
        "OpenAI API key is not configured but OpenAI model was requested"
    );
    assert_eq!(error.status_code(), 500);
    assert_eq!(r.stream_options, None);
    let mut r = request("GPT-4", Some(true));
    let error = route(&mut r, &Some(String::new())).unwrap_err();
    assert_eq!(error.message(), "OpenAI API key is empty but OpenAI model was requested");
    assert_eq!(r.stream_options, None);
}

#[test]
fn requests_are_routed_by_model_name() {
    let mut r = request("gpt-4o", None);
    assert_eq!(route(&mut r, &Some("key".to_string())), Ok(Provider::OpenAI));
    assert_eq!(r.stream_options, Some(StreamOptions { include_usage: true }));
    let mut expected = request("gpt-4o", None);
    expected.stream_options = Some(StreamOptions { include_usage: true });
    assert_eq!(r, expected);
    let mut r = request("Gpt-3.5-turbo", Some(true));
    assert_eq!(route(&mut r, &Some("key".to_string())), Ok(Provider::OpenAI));
    let mut r = request("amazon.nova-lite-v1:0", None);
    assert_eq!(route(&mut r, &None), Ok(Provider::Bedrock));
    assert_eq!(r.stream_options, Some(StreamOptions { include_usage: true }));
    let mut r = request("gpt", None);
    assert_eq!(route(&mut r, &None), Ok(Provider::Bedrock));
    let mut r = request("my-gpt-4", None);
    assert_eq!(route(&mut r, &None), Ok(Provider::Bedrock));
    let mut r = request("", None);
    assert_eq!(route(&mut r, &None), Ok(Provider::Bedrock));
}

#[test]
fn openai_model_names() {
    assert!(model_is_openai("gpt-"));
    assert!(model_is_openai("GPT-4O"));
    assert!(model_is_openai("gPt-x"));
    assert!(!model_is_openai("gpt_4"));
    assert!(!model_is_openai(" gpt-4"));
    assert!(!model_is_openai("gp"));
}

#[test]
fn server_settings_have_defaults() {
    let config = ServerConfig::from_settings(None, None, None);
    assert_eq!(
        config,
        ServerConfig { host: "127.0.0.1".to_string(), port: 3000, openai_api_key: None }
    );
    assert_eq!(config.bind_address(), "127.0.0.1:3000");
    let config = ServerConfig::from_settings(
        Some("0.0.0.0".to_string()),
        Some(8080),
        Some("k".to_string()),
    );
    assert_eq!(
        config,
        ServerConfig {
            host: "0.0.0.0".to_string(),
            port: 8080,
            openai_api_key: Some("k".to_string()),
        }
    );
    assert_eq!(config.bind_address(), "0.0.0.0:8080");
    let config = ServerConfig::from_settings(Some("h".to_string()), Some(0), None);
    assert_eq!(config.bind_address(), "h:0");
    let config = ServerConfig::from_settings(Some("h".to_string()), Some(65535), None);
    assert_eq!(config.bind_address(), "h:65535");
}

#[test]
fn openai_provider_prepares_the_call() {
    let provider = OpenAIChatCompletionsProvider::new("sk-test");
    assert_eq!(provider.authorization().unwrap(), "Bearer sk-test");
    assert_eq!(
        OpenAIChatCompletionsProvider::api_url(),
        "https://api.openai.com/v1/chat/completions"
    );
    let mut r = request("gpt-4o", None);
    OpenAIChatCompletionsProvider::prepare(&mut r);
    assert_eq!(r, request("gpt-4o", Some(true)));
    let mut r = request("gpt-4o", Some(false));
    OpenAIChatCompletionsProvider::prepare(&mut r);
    assert_eq!(r.stream, Some(true));
}

#[test]
fn api_key_has_to_fit_into_a_header() {
    for key in ["line\nbreak", "null\0", "del\u{7f}", "\r"] {
        let error = OpenAIChatCompletionsProvider::new(key).authorization().unwrap_err();
        assert_eq!(error.message(), "Invalid API key format");
    }
    for key in ["", "tab\tok", "sp ace", "\u{e9}", "~"] {
        assert_eq!(
            OpenAIChatCompletionsProvider::new(key).authorization().unwrap(),
            format!("Bearer {}", key)
        );
    }
}

#[test]
fn api_status_is_checked() {
    assert_eq!(OpenAIChatCompletionsProvider::check_status(200, "ok"), Ok(()));
    assert_eq!(OpenAIChatCompletionsProvider::check_status(299, ""), Ok(()));
    assert_eq!(
        OpenAIChatCompletionsProvider::check_status(199, "early"),
        Err(StreamError::ApiResponse { status: 199, message: "early".to_string() })
    );
    assert_eq!(
        OpenAIChatCompletionsProvider::check_status(300, "moved"),
        Err(StreamError::ApiResponse { status: 300, message: "moved".to_string() })
    );
    assert_eq!(
        OpenAIChatCompletionsProvider::check_status(401, "{\"error\":\"bad key\"}")
            .unwrap_err()
            .message(),
        "API error: HTTP 401: {\"error\":\"bad key\"}"
    );
}

#[test]
fn text_helpers() {
    assert_eq!(to_chars("a\u{e9}\u{1f600}"), vec!['a', '\u{e9}', '\u{1f600}']);
    assert_eq!(to_chars(""), Vec::<char>::new());
    assert_eq!(lowercase(&chars("AbC-Z[@\u{c9}\u{212a}")), chars("abc-z[@\u{c9}\u{212a}"));
    assert_eq!(to_lower_char('A'), 'a');
    assert_eq!(to_lower_char('Z'), 'z');
    assert_eq!(to_lower_char('a'), 'a');
    assert_eq!(to_lower_char('@'), '@');
    assert_eq!(to_lower_char('['), '[');
    assert!(has_substring(&chars("hello"), &chars("ell")));
    assert!(has_substring(&chars("hello"), &chars("")));
    assert!(has_substring(&chars(""), &chars("")));
    assert!(has_substring(&chars("hello"), &chars("hello")));
    assert!(has_substring(&chars("hello"), &chars("lo")));
    assert!(!has_substring(&chars("hello"), &chars("hello!")));
    assert!(!has_substring(&chars("hello"), &chars("lol")));
    assert!(!has_substring(&chars(""), &chars("a")));
    assert!(matches_at(&chars("abc"), &chars("bc"), 1));
    assert!(matches_at(&chars("abc"), &chars(""), 3));
    assert!(!matches_at(&chars("abc"), &chars(""), 4));
    assert!(!matches_at(&chars("abc"), &chars("bc"), 2));
    assert!(starts_with(&chars("data: x"), &chars("data: ")));
    assert!(!starts_with(&chars("data:"), &chars("data: ")));
    assert!(starts_with(&chars(""), &chars("")));
    assert_eq!(trimmed(&chars("  a b \r\n")), chars("a b"));
    assert_eq!(trimmed(&chars("\u{85}\u{1680}x\u{2003}\u{202f}\u{205f}")), chars("x"));
    assert_eq!(trimmed(&chars(" \t ")), chars(""));
    assert_eq!(trimmed(&chars("")), chars(""));
    assert_eq!(trimmed(&chars("\u{200b}x")), chars("\u{200b}x"));
    assert_eq!(find_char(&chars("a\nb\n"), '\n'), Some(1));
    assert_eq!(find_char(&chars("ab"), '\n'), None);
    assert_eq!(find_char(&chars(""), 'a'), None);
    assert_eq!(slice(&chars("hello"), 1, 3), chars("el"));
    assert_eq!(slice(&chars("hello"), 5, 5), chars(""));
    assert_eq!(concat_chars(&chars("ab"), &chars("cd")), chars("abcd"));
    assert!(str_equals("none", "none"));
    assert!(!str_equals("none", "None"));
    assert!(!str_equals("none", "non"));
    let mut digits = chars("n=");
    push_decimal(0, &mut digits);
    push_decimal(907, &mut digits);
    push_decimal(u64::MAX, &mut digits);
    assert_eq!(digits, chars("n=090718446744073709551615"));
}

#[test]
fn white_space_is_what_unicode_says() {
    for c in ['\u{9}', '\u{a}', '\u{b}', '\u{c}', '\u{d}', ' ', '\u{85}', '\u{a0}', '\u{1680}',
        '\u{2000}', '\u{200a}', '\u{2028}', '\u{2029}', '\u{202f}', '\u{205f}', '\u{3000}']
    {
        assert!(is_whitespace_char(c), "{:?}", c);
    }
    for c in ['\u{8}', '\u{e}', '\u{1f}', 'a', '\u{200b}', '\u{2060}', '\u{feff}', '\u{180e}'] {
        assert!(!is_whitespace_char(c), "{:?}", c);
    }
    let mut code: u32 = 0;
    while code <= 0x3100 {
        if let Some(c) = char::from_u32(code) {
            assert_eq!(is_whitespace_char(c), c.is_whitespace(), "{:x}", code);
        }
        code += 1;
    }
}
