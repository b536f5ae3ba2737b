use crypto_digest::config::{
    assemble, MissingSetting, Settings, COMPLETION_BASE_NAME, COMPLETION_KEY_NAME,
    MARKET_KEY_NAME, NEWS_KEY_NAME,
};

fn some(s: &str) -> Option<String> {
    Some(s.to_string())
}

#[test]
fn all_four_settings_make_a_configuration() {
    assert_eq!(
        assemble(some("m"), some("c"), some("n"), some("https://llm.example")),
        Ok(Settings {
            market_key: "m".to_string(),
            completion_key: "c".to_string(),
            news_key: "n".to_string(),
            completion_base_url: "https://llm.example".to_string(),
        })
    );
}

#[test]
fn the_first_absent_setting_is_reported() {
    assert_eq!(assemble(None, None, None, None), Err(MissingSetting::MarketKey));
    assert_eq!(assemble(some("m"), None, None, None), Err(MissingSetting::CompletionKey));
    assert_eq!(assemble(some("m"), some("c"), None, None), Err(MissingSetting::NewsKey));
    assert_eq!(
        assemble(some("m"), some("c"), some("n"), None),
        Err(MissingSetting::CompletionBaseUrl)
    );
    assert_eq!(assemble(None, some("c"), some("n"), some("b")), Err(MissingSetting::MarketKey));
    assert_eq!(assemble(some("m"), some("c"), None, some("b")), Err(MissingSetting::NewsKey));
}

#[test]
fn an_absent_setting_is_named_in_the_complaint() {
    assert_eq!(MissingSetting::MarketKey.message(), "COINMARKETCAP_API_KEY not set");
    assert_eq!(MissingSetting::CompletionKey.message(), "GROQ_API_KEY not set");
    assert_eq!(MissingSetting::NewsKey.message(), "NEWS_API_KEY not set");
    assert_eq!(MissingSetting::CompletionBaseUrl.message(), "GROQ_API_BASE_URL not set");
    assert_eq!(MissingSetting::MarketKey.name(), MARKET_KEY_NAME);
    assert_eq!(MissingSetting::CompletionKey.name(), COMPLETION_KEY_NAME);
    assert_eq!(MissingSetting::NewsKey.name(), NEWS_KEY_NAME);
    assert_eq!(MissingSetting::CompletionBaseUrl.name(), COMPLETION_BASE_NAME);
}
