//! The summarizer: how a completion request is worded and how its reply is
//! read.
//!
//! A reply counts only if its status is a success code and its body is a
//! JSON object in which `choices` is an array whose first element has an
//! object `message` with a member `content`. The summary is that member's
//! text, or the empty text where the member is not a string. Everything
//! else is the one error [`SummaryError::NoValidResponse`].
//!
//! No request is planned with a credential that cannot stand in a header:
//! the completion then counts as failed without anything being sent.

use vstd::prelude::*;
use vstd::string::*;
use crate::http::{header_text, is_header_text, is_success, success_code};
use crate::json::{document, parse, Json};
use crate::percent::two_decimals;
use crate::quote::{AssetQuote, AssetQuoteView};
use crate::text::{join_lines, joined, lines_view, trim_trailing_slashes, without_trailing};

verus! {

/// The model that writes the summaries.
pub const MODEL: &'static str = "mixtral-8x7b-32768";

/// The most tokens a summary may take.
pub const MAX_TOKENS: u32 = 320;

/// The sampling temperature, in hundredths: 0.5.
pub const TEMPERATURE_HUNDREDTHS: u32 = 50;

/// The nucleus-sampling mass, in hundredths: 1.0.
pub const TOP_P_HUNDREDTHS: u32 = 100;

/// Whether the reply is to be streamed: it is not, and no stop sequence is
/// set.
pub const STREAM: bool = false;

/// The instruction that fixes tone, length and shape of every summary.
pub const SYSTEM_INSTRUCTION: &'static str =
    "Response must not exceed 280 tokens. You are a crypto analyst and journalist. You analyze news/prices and summarize the data. The summary for each token must use the following template: 'Analyze the following data: Coin: {coin_name}, Symbol: {coin_symbol}, 24h Change: {24h_change}%, 7d Change: {7d_change}%, What caused: {news analysis}'. The summary must not exceed 300 tokens and must NOT include any URLs, references, or links. Just provide the analysis in a newspaper style. If the one of news is not related to the token - just ignore it. Dont eveven mention it. You don't have to list the news. We need a solid, stylish and beautiful newspaper paragraph that highlights the most important news and describes them to readers in the context of the reason for the rise or fall in the price of the token. Make sure that all sentences are logically connected and full.";

/// The summary that stands in for a failed completion.
pub open spec fn no_summary_text() -> Seq<char> {
    "No summary available."@
}

/// The one way in which a completion can fail.
#[derive(Clone, Copy, Debug, PartialEq, Eq, Structural)]
pub enum SummaryError {
    /// Anything but a well-formed successful reply.
    NoValidResponse,
}

impl SummaryError {
    /// The error in words.
    pub fn message(&self) -> (text: String)
        ensures
            text@ == "No valid response received."@,
    {
        String::from_str("No valid response received.")
    }
}

/// What is sent for one summary: a chat of one system message and one user
/// message, with no stop sequence.
#[derive(Debug)]
pub struct CompletionRequest {
    /// Where the request is posted.
    pub url: String,
    /// The value of the `Authorization` header.
    pub authorization: String,
    /// The model to run.
    pub model: String,
    /// The content of the system message.
    pub system: String,
    /// The content of the user message.
    pub user: String,
    /// The cap on the reply's length.
    pub max_tokens: u32,
    /// The sampling temperature, in hundredths.
    pub temperature_hundredths: u32,
    /// The nucleus-sampling mass, in hundredths.
    pub top_p_hundredths: u32,
    /// Whether the reply is to be streamed.
    pub stream: bool,
}

/// The chat-completions address under `base_url`.
pub open spec fn completions_address(base_url: Seq<char>) -> Seq<char> {
    without_trailing(base_url, '/') + "/openai/v1/chat/completions"@
}

/// The bearer credential made of `api_key`.
pub open spec fn bearer_text(api_key: Seq<char>) -> Seq<char> {
    "Bearer "@ + api_key
}

/// The user message for one asset: its name, symbol, both changes with two
/// decimals, and the references one per line.
pub open spec fn prompt_text(quote: AssetQuoteView, news: Seq<Seq<char>>) -> Seq<char> {
    "Analyze the following data:\n\nCoin: "@ + quote.name + "\nSymbol: "@ + quote.symbol
        + "\n24h Change: "@ + two_decimals(quote.change_24h) + "%\n7d Change: "@ + two_decimals(
        quote.change_7d,
    ) + "%\nRecent News:\n"@ + joined(news, "\n"@) + "\n"@
}

/// The summary that a reply document carries.
pub open spec fn completion_of(doc: Json) -> Option<Seq<char>> {
    match doc.spec_member("choices"@) {
        Some(Json::Array(choices)) => if choices@.len() == 0 {
            None
        } else {
            match choices@[0].spec_member("message"@) {
                Some(Json::Object(message)) => match Json::Object(message).spec_member(
                    "content"@,
                ) {
                    Some(Json::Text(content)) => Some(content@),
                    Some(_) => Some(Seq::<char>::empty()),
                    None => None,
                },
                _ => None,
            }
        },
        _ => None,
    }
}

/// The summary that a reply with this status and body carries.
pub open spec fn completion_in(status: u16, body: Seq<char>) -> Option<Seq<char>> {
    if success_code(status) {
        match document(body) {
            Some(doc) => completion_of(doc),
            None => None,
        }
    } else {
        None
    }
}

/// Builds the address that completions are posted to.
pub fn completions_url(base_url: &str) -> (url: String)
    ensures
        url@ == completions_address(base_url@),
{
    trim_trailing_slashes(base_url).concat("/openai/v1/chat/completions")
}

/// Builds the value of the `Authorization` header.
pub fn bearer_token(api_key: &str) -> (value: String)
    ensures
        value@ == bearer_text(api_key@),
{
    String::from_str("Bearer ").concat(api_key)
}

/// Words the user message for one asset and its references.
pub fn summary_prompt(quote: &AssetQuote, news: &Vec<String>) -> (prompt: String)
    ensures
        prompt@ == prompt_text(quote@, lines_view(news@)),
{
    let mut prompt = String::from_str("Analyze the following data:\n\nCoin: ");
    prompt.append(quote.name.as_str());
    prompt.append("\nSymbol: ");
    prompt.append(quote.symbol.as_str());
    prompt.append("\n24h Change: ");
    quote.percent_change_24h.push_to(&mut prompt);
    prompt.append("%\n7d Change: ");
    quote.percent_change_7d.push_to(&mut prompt);
    prompt.append("%\nRecent News:\n");
    let news_block = join_lines(news);
    prompt.append(news_block.as_str());
    prompt.append("\n");
    prompt
}

/// Plans the request for one summary, or none where the credential made of
/// `api_key` cannot stand in a header.
pub fn plan_completion(api_key: &str, base_url: &str, prompt: String) -> (planned: Option<
    CompletionRequest,
>)
    ensures
        planned is Some <==> header_text(bearer_text(api_key@)),
        planned matches Some(request) ==> {
            &&& request.url@ == completions_address(base_url@)
            &&& request.authorization@ == bearer_text(api_key@)
            &&& request.model@ == MODEL@
            &&& request.system@ == SYSTEM_INSTRUCTION@
            &&& request.user@ == prompt@
            &&& request.max_tokens == MAX_TOKENS
            &&& request.temperature_hundredths == TEMPERATURE_HUNDREDTHS
            &&& request.top_p_hundredths == TOP_P_HUNDREDTHS
            &&& request.stream == STREAM
        },
{
    let authorization = bearer_token(api_key);
    if !is_header_text(authorization.as_str()) {
        return None;
    }
    Some(
        CompletionRequest {
            url: completions_url(base_url),
            authorization,
            model: String::from_str(MODEL),
            system: String::from_str(SYSTEM_INSTRUCTION),
            user: prompt,
            max_tokens: MAX_TOKENS,
            temperature_hundredths: TEMPERATURE_HUNDREDTHS,
            top_p_hundredths: TOP_P_HUNDREDTHS,
            stream: STREAM,
        },
    )
}

/// Reads the summary out of a reply document.
pub fn completion_text(doc: &Json) -> (found: Option<String>)
    ensures
        match found {
            Some(text) => completion_of(*doc) == Some(text@),
            None => completion_of(*doc) is None,
        },
{
    match doc.member("choices") {
        Some(Json::Array(choices)) => {
            if choices.len() == 0 {
                return None;
            }
            let message = match choices[0].member("message") {
                Some(message) => message,
                None => {
                    return None;
                },
            };
            if !message.is_object() {
                return None;
            }
            match message.member("content") {
                Some(Json::Text(content)) => Some(content.clone()),
                Some(_) => Some(String::new()),
                None => None,
            }
        },
        _ => None,
    }
}

/// Reads the summary out of a reply.
pub fn read_completion(status: u16, body: &str) -> (outcome: Result<String, SummaryError>)
    ensures
        match outcome {
            Ok(text) => completion_in(status, body@) == Some(text@),
            Err(_) => completion_in(status, body@) is None,
        },
{
    if !is_success(status) {
        return Err(SummaryError::NoValidResponse);
    }
    match parse(body) {
        Some(doc) => match completion_text(&doc) {
            Some(text) => Ok(text),
            None => Err(SummaryError::NoValidResponse),
        },
        None => Err(SummaryError::NoValidResponse),
    }
}

} // verus!
