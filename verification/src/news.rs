//! The news lookup: how a search is worded and how its reply is read.
//!
//! A reply is a JSON object whose `articles` member is an array. Only the
//! first [`NEWS_CAP`] articles are looked at; of those, each one that has a
//! string `title` and a string `url` becomes the line `title - url`, and the
//! others are skipped.

use vstd::prelude::*;
use vstd::string::*;
use crate::json::{document, parse, Json};
use crate::text::lines_view;
use crate::url::{percent_encoded, push_percent_encoded};

verus! {

/// How many articles of a reply are looked at.
pub const NEWS_CAP: usize = 12;

/// The single reference that stands in for a failed lookup.
pub open spec fn no_news_line() -> Seq<char> {
    "No news found"@
}

/// Why a reply of the news provider could not be read.
#[derive(Clone, Copy, Debug, PartialEq, Eq, Structural)]
pub enum NewsError {
    /// The body is not a JSON document.
    NotJson,
    /// The document has no `articles` array.
    MissingArticles,
}

/// The search text for an asset.
pub open spec fn query_text(name: Seq<char>) -> Seq<char> {
    name + " cryptocurrency"@
}

/// The address of a search for `query`, newest articles first. Query and
/// key are percent-encoded, so that whatever they hold stays inside its own
/// parameter.
pub open spec fn search_address(api_key: Seq<char>, query: Seq<char>) -> Seq<char> {
    "https://newsapi.org/v2/everything?q="@ + percent_encoded(query)
        + "&sortBy=publishedAt&apiKey="@ + percent_encoded(api_key)
}

/// The line that stands for an article with a headline and an address.
pub open spec fn reference_line(title: Seq<char>, url: Seq<char>) -> Seq<char> {
    title + " - "@ + url
}

/// The line of one article, if it has both a string `title` and a string
/// `url`.
pub open spec fn article_line(article: Json) -> Option<Seq<char>> {
    match article.spec_member("title"@) {
        Some(Json::Text(title)) => match article.spec_member("url"@) {
            Some(Json::Text(url)) => Some(reference_line(title@, url@)),
            _ => None,
        },
        _ => None,
    }
}

/// The lines of the articles that have one, in the order of the articles.
pub open spec fn article_lines(articles: Seq<Json>) -> Seq<Seq<char>>
    decreases articles.len(),
{
    if articles.len() == 0 {
        Seq::<Seq<char>>::empty()
    } else {
        match article_line(articles.last()) {
            Some(line) => article_lines(articles.drop_last()).push(line),
            None => article_lines(articles.drop_last()),
        }
    }
}

/// How many of `total` articles are looked at.
pub open spec fn capped(total: int) -> int {
    if total < NEWS_CAP as int {
        total
    } else {
        NEWS_CAP as int
    }
}

/// The references that a reply document yields.
pub open spec fn references_of(doc: Json) -> Result<Seq<Seq<char>>, NewsError> {
    match doc.spec_member("articles"@) {
        Some(Json::Array(articles)) => Ok(
            article_lines(articles@.take(capped(articles@.len() as int))),
        ),
        _ => Err(NewsError::MissingArticles),
    }
}

/// The references that a reply body yields.
pub open spec fn references_in(body: Seq<char>) -> Result<Seq<Seq<char>>, NewsError> {
    match document(body) {
        Some(doc) => references_of(doc),
        None => Err(NewsError::NotJson),
    }
}

/// Whether an outcome in hand matches the outcome that the model gives.
pub open spec fn references_match(
    outcome: Result<Vec<String>, NewsError>,
    expected: Result<Seq<Seq<char>>, NewsError>,
) -> bool {
    match outcome {
        Ok(lines) => expected == Ok::<Seq<Seq<char>>, NewsError>(lines_view(lines@)),
        Err(e) => expected == Err::<Seq<Seq<char>>, NewsError>(e),
    }
}

/// Words the news search for the asset called `name`.
pub fn news_query(name: &str) -> (query: String)
    ensures
        query@ == query_text(name@),
{
    String::from_str(name).concat(" cryptocurrency")
}

/// Builds the address of the search request.
pub fn news_url(api_key: &str, query: &str) -> (url: String)
    ensures
        url@ == search_address(api_key@, query@),
{
    let mut url = String::from_str("https://newsapi.org/v2/everything?q=");
    push_percent_encoded(&mut url, query);
    url.append("&sortBy=publishedAt&apiKey=");
    push_percent_encoded(&mut url, api_key);
    url
}

/// The `User-Agent` header of a search request.
pub fn news_user_agent() -> (agent: &'static str)
    ensures
        agent@ == "Rust News Client"@,
{
    "Rust News Client"
}

/// Renders one article as `title - url`.
pub fn render_article(title: &str, url: &str) -> (line: String)
    ensures
        line@ == reference_line(title@, url@),
{
    let mut line = String::from_str(title);
    line.append(" - ");
    line.append(url);
    line
}

/// The line of `article`, if it has a headline and an address.
pub fn line_of(article: &Json) -> (line: Option<String>)
    ensures
        match line {
            Some(text) => article_line(*article) == Some(text@),
            None => article_line(*article) is None,
        },
{
    match article.member("title") {
        Some(Json::Text(title)) => match article.member("url") {
            Some(Json::Text(url)) => Some(render_article(title.as_str(), url.as_str())),
            _ => None,
        },
        _ => None,
    }
}

/// Reads the references out of a reply document.
pub fn headlines(doc: &Json) -> (outcome: Result<Vec<String>, NewsError>)
    ensures
        references_match(outcome, references_of(*doc)),
{
    match doc.member("articles") {
        Some(Json::Array(articles)) => {
            let count: usize = if articles.len() < NEWS_CAP {
                articles.len()
            } else {
                NEWS_CAP
            };
            let mut lines: Vec<String> = Vec::new();
            let mut i: usize = 0;
            while i < count
                invariant
                    i <= count <= articles.len(),
                    lines_view(lines@) == article_lines(articles@.take(i as int)),
                decreases count - i,
            {
                let ghost upto = articles@.take(i as int + 1);
                assert(upto.drop_last() =~= articles@.take(i as int));
                assert(upto.last() == articles@[i as int]);
                let ghost before = lines_view(lines@);
                match line_of(&articles[i]) {
                    Some(line) => {
                        lines.push(line);
                        assert(lines_view(lines@) =~= before.push(line@));
                    },
                    None => {},
                }
                i = i + 1;
            }
            Ok(lines)
        },
        _ => Err(NewsError::MissingArticles),
    }
}

/// Reads the references out of a reply body.
pub fn read_news(body: &str) -> (outcome: Result<Vec<String>, NewsError>)
    ensures
        references_match(outcome, references_in(body@)),
{
    match parse(body) {
        Some(doc) => headlines(&doc),
        None => Err(NewsError::NotJson),
    }
}

} // verus!
