//! The settings that the service needs before it serves anything.
//!
//! All four are required. They are looked for in a fixed order, and the
//! first one that is absent is the one reported.

use vstd::prelude::*;
use vstd::string::*;

verus! {

/// The name of the setting that holds the market-data API key.
pub const MARKET_KEY_NAME: &'static str = "COINMARKETCAP_API_KEY";

/// The name of the setting that holds the completion API key.
pub const COMPLETION_KEY_NAME: &'static str = "GROQ_API_KEY";

/// The name of the setting that holds the news API key.
pub const NEWS_KEY_NAME: &'static str = "NEWS_API_KEY";

/// The name of the setting that holds the base address of the completion
/// provider.
pub const COMPLETION_BASE_NAME: &'static str = "GROQ_API_BASE_URL";

/// The four settings.
#[derive(Debug, PartialEq, Eq)]
pub struct Settings {
    pub market_key: String,
    pub completion_key: String,
    pub news_key: String,
    pub completion_base_url: String,
}

/// A required setting that is absent.
#[derive(Clone, Copy, Debug, PartialEq, Eq, Structural)]
pub enum MissingSetting {
    MarketKey,
    CompletionKey,
    NewsKey,
    CompletionBaseUrl,
}

impl MissingSetting {
    /// The name under which the setting is looked for.
    pub open spec fn spec_name(self) -> Seq<char> {
        match self {
            MissingSetting::MarketKey => MARKET_KEY_NAME@,
            MissingSetting::CompletionKey => COMPLETION_KEY_NAME@,
            MissingSetting::NewsKey => NEWS_KEY_NAME@,
            MissingSetting::CompletionBaseUrl => COMPLETION_BASE_NAME@,
        }
    }

    /// The name under which the setting is looked for.
    pub fn name(&self) -> (name: &'static str)
        ensures
            name@ == self.spec_name(),
    {
        match self {
            MissingSetting::MarketKey => MARKET_KEY_NAME,
            MissingSetting::CompletionKey => COMPLETION_KEY_NAME,
            MissingSetting::NewsKey => NEWS_KEY_NAME,
            MissingSetting::CompletionBaseUrl => COMPLETION_BASE_NAME,
        }
    }

    /// The complaint about the absent setting: its name, then ` not set`.
    pub fn message(&self) -> (text: String)
        ensures
            text@ == self.spec_name() + " not set"@,
    {
        String::from_str(self.name()).concat(" not set")
    }
}

/// Puts the settings together from what was found of each.
pub fn assemble(
    market_key: Option<String>,
    completion_key: Option<String>,
    news_key: Option<String>,
    completion_base_url: Option<String>,
) -> (outcome: Result<Settings, MissingSetting>)
    ensures
        match outcome {
            Ok(settings) => {
                &&& market_key == Some(settings.market_key)
                &&& completion_key == Some(settings.completion_key)
                &&& news_key == Some(settings.news_key)
                &&& completion_base_url == Some(settings.completion_base_url)
            },
            Err(MissingSetting::MarketKey) => market_key is None,
            Err(MissingSetting::CompletionKey) => market_key is Some && completion_key is None,
            Err(MissingSetting::NewsKey) => market_key is Some && completion_key is Some
                && news_key is None,
            Err(MissingSetting::CompletionBaseUrl) => market_key is Some && completion_key is Some
                && news_key is Some && completion_base_url is None,
        },
{
    let market_key = match market_key {
        Some(value) => value,
        None => {
            return Err(MissingSetting::MarketKey);
        },
    };
    let completion_key = match completion_key {
        Some(value) => value,
        None => {
            return Err(MissingSetting::CompletionKey);
        },
    };
    let news_key = match news_key {
        Some(value) => value,
        None => {
            return Err(MissingSetting::NewsKey);
        },
    };
    let completion_base_url = match completion_base_url {
        Some(value) => value,
        None => {
            return Err(MissingSetting::CompletionBaseUrl);
        },
    };
    Ok(Settings { market_key, completion_key, news_key, completion_base_url })
}

} // verus!
