use crypto_digest::http::is_header_text;
use crypto_digest::json::Json;
use crypto_digest::percent::Percent;
use crypto_digest::quote::AssetQuote;
use crypto_digest::summary::{
    bearer_token, completion_text, completions_url, plan_completion, read_completion,
    summary_prompt, SummaryError, MAX_TOKENS, MODEL, STREAM, SYSTEM_INSTRUCTION,
    TEMPERATURE_HUNDREDTHS, TOP_P_HUNDREDTHS,
};

fn bitcoin() -> AssetQuote {
    AssetQuote {
        name: "Bitcoin".to_string(),
        symbol: "BTC".to_string(),
        percent_change_24h: Percent::from_units(512_000_000),
        percent_change_7d: Percent::from_units(-1_203_000_000),
    }
}

fn object(members: Vec<(&str, Json)>) -> Json {
    Json::Object(members.into_iter().map(|(k, v)| (k.to_string(), v)).collect())
}

fn text(s: &str) -> Json {
    Json::Text(s.to_string())
}

#[test]
fn completions_url_drops_trailing_slashes_of_the_base() {
    assert_eq!(
        completions_url("https://api.groq.com"),
        "https://api.groq.com/openai/v1/chat/completions"
    );
    assert_eq!(
        completions_url("https://api.groq.com///"),
        "https://api.groq.com/openai/v1/chat/completions"
    );
    assert_eq!(completions_url("/"), "/openai/v1/chat/completions");
    assert_eq!(completions_url(""), "/openai/v1/chat/completions");
    assert_eq!(completions_url("http://h/a/b/"), "http://h/a/b/openai/v1/chat/completions");
    assert_eq!(completions_url("http://é/"), "http://é/openai/v1/chat/completions");
}

#[test]
fn completions_url_agrees_with_trim_end_matches() {
    for base in ["", "/", "//", "a", "a/", "a//b", "a//b//", "/a"] {
        let expected = format!("{}/openai/v1/chat/completions", base.trim_end_matches('/'));
        assert_eq!(completions_url(base), expected);
    }
}

#[test]
fn bearer_token_prefixes_the_key() {
    assert_eq!(bearer_token("gsk_123"), "Bearer gsk_123");
    assert_eq!(bearer_token(""), "Bearer ");
}

#[test]
fn prompt_embeds_facts_and_news() {
    let news = vec!["Up - https://a".to_string(), "Down - https://b".to_string()];
    let expected = "Analyze the following data:\n\nCoin: Bitcoin\nSymbol: BTC\n24h Change: 5.12%\n7d Change: -12.03%\nRecent News:\nUp - https://a\nDown - https://b\n";
    assert_eq!(summary_prompt(&bitcoin(), &news), expected);
}

#[test]
fn prompt_with_no_news_has_an_empty_block() {
    let expected = "Analyze the following data:\n\nCoin: Bitcoin\nSymbol: BTC\n24h Change: 5.12%\n7d Change: -12.03%\nRecent News:\n\n";
    assert_eq!(summary_prompt(&bitcoin(), &Vec::new()), expected);
}

#[test]
fn prompt_agrees_with_the_format_it_stands_for() {
    let quote = bitcoin();
    let news = vec!["No news found".to_string()];
    let expected = format!(
        "Analyze the following data:\n\nCoin: {}\nSymbol: {}\n24h Change: {:.2}%\n7d Change: {:.2}%\nRecent News:\n{}\n",
        quote.name,
        quote.symbol,
        5.12f64,
        -12.03f64,
        news.join("\n")
    );
    assert_eq!(summary_prompt(&quote, &news), expected);
}

#[test]
fn plan_fills_in_the_fixed_settings() {
    let request = plan_completion("k", "https://llm.example/", "hello".to_string()).unwrap();
    assert_eq!(request.url, "https://llm.example/openai/v1/chat/completions");
    assert_eq!(request.authorization, "Bearer k");
    assert_eq!(request.model, "mixtral-8x7b-32768");
    assert_eq!(request.model, MODEL);
    assert_eq!(request.system, SYSTEM_INSTRUCTION);
    assert!(request.system.starts_with("Response must not exceed 280 tokens."));
    assert_eq!(request.user, "hello");
    assert_eq!(request.max_tokens, 320);
    assert_eq!(request.max_tokens, MAX_TOKENS);
    assert_eq!(request.temperature_hundredths, 50);
    assert_eq!(request.top_p_hundredths, 100);
    assert!(!request.stream);
    assert_eq!((TEMPERATURE_HUNDREDTHS, TOP_P_HUNDREDTHS, STREAM), (50, 100, false));
}

#[test]
fn no_request_is_planned_with_a_key_that_cannot_stand_in_a_header() {
    for key in ["line\nbreak", "nul\0", "del\u{7f}", "cr\r", "esc\u{1b}"] {
        assert!(plan_completion(key, "https://llm.example", "p".to_string()).is_none(), "{:?}", key);
    }
    for key in ["", "gsk_abc", "with space", "tab\there", "ünï", "~!@#$%^&*()"] {
        assert!(plan_completion(key, "https://llm.example", "p".to_string()).is_some(), "{:?}", key);
    }
}

#[test]
fn header_text_is_what_the_http_client_takes_as_a_header_value() {
    let mut samples: Vec<String> = (0u32..=0x100).filter_map(char::from_u32).map(String::from).collect();
    samples.push("Bearer gsk_123".to_string());
    samples.push("Bearer a\nb".to_string());
    samples.push("€ 🚀".to_string());
    samples.push(String::new());
    for sample in samples {
        let accepted = reqwest::header::HeaderValue::from_str(&sample).is_ok();
        assert_eq!(is_header_text(&sample), accepted, "{:?}", sample);
    }
    assert!(is_header_text("\t"));
    assert!(is_header_text(" "));
    assert!(!is_header_text("\u{1f}"));
    assert!(!is_header_text("\u{7f}"));
    assert!(is_header_text("\u{80}"));
}

#[test]
fn completion_is_the_content_of_the_first_choice() {
    let body = r#"{"id":"x","choices":[{"index":0,"message":{"role":"assistant","content":"Bitcoin rose."},"finish_reason":"stop"},{"message":{"content":"second"}}]}"#;
    assert_eq!(read_completion(200, body), Ok("Bitcoin rose.".to_string()));
    assert_eq!(read_completion(299, body), Ok("Bitcoin rose.".to_string()));
}

#[test]
fn completion_fails_on_other_statuses() {
    let body = r#"{"choices":[{"message":{"content":"fine"}}]}"#;
    assert_eq!(read_completion(199, body), Err(SummaryError::NoValidResponse));
    assert_eq!(read_completion(300, body), Err(SummaryError::NoValidResponse));
    assert_eq!(read_completion(429, body), Err(SummaryError::NoValidResponse));
    assert_eq!(read_completion(500, body), Err(SummaryError::NoValidResponse));
}

#[test]
fn completion_fails_on_bodies_without_the_path() {
    for body in [
        "not json",
        "{}",
        r#"{"choices": "none"}"#,
        r#"{"choices": []}"#,
        r#"{"choices": {"0": {"message": {"content": "x"}}}}"#,
        r#"{"choices": [{}]}"#,
        r#"{"choices": ["text"]}"#,
        r#"{"choices": [{"message": "text"}]}"#,
        r#"{"choices": [{"message": ["content"]}]}"#,
        r#"{"choices": [{"message": {"role": "assistant"}}]}"#,
        r#"{"error": {"message": "bad key"}}"#,
        r#"[{"choices": [{"message": {"content": "x"}}]}]"#,
    ] {
        assert_eq!(read_completion(200, body), Err(SummaryError::NoValidResponse), "{}", body);
    }
}

#[test]
fn content_that_is_not_text_gives_the_empty_summary() {
    assert_eq!(read_completion(200, r#"{"choices":[{"message":{"content":null}}]}"#), Ok(String::new()));
    assert_eq!(read_completion(200, r#"{"choices":[{"message":{"content":17}}]}"#), Ok(String::new()));
    assert_eq!(read_completion(200, r#"{"choices":[{"message":{"content":""}}]}"#), Ok(String::new()));
}

#[test]
fn completion_text_reads_a_tree() {
    let doc = object(vec![(
        "choices",
        Json::Array(vec![object(vec![("message", object(vec![("content", text("hi"))]))])]),
    )]);
    assert_eq!(completion_text(&doc), Some("hi".to_string()));
    let no_choice = object(vec![("choices", Json::Array(vec![]))]);
    assert_eq!(completion_text(&no_choice), None);
    let wrong = object(vec![("choices", Json::Array(vec![object(vec![("message", Json::Null)])]))]);
    assert_eq!(completion_text(&wrong), None);
    assert_eq!(completion_text(&Json::Null), None);
}

#[test]
fn the_error_says_that_no_valid_response_came() {
    assert_eq!(SummaryError::NoValidResponse.message(), "No valid response received.");
}
