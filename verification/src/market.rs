//! The market snapshot: what is asked of the market-data provider and how
//! its answer becomes a snapshot.
//!
//! One request is made, with no retry, and none at all with an API key that
//! cannot stand in a header. No snapshot comes of a request that was not
//! sent or never got an answer, of an answer whose status is not a success code, of
//! a body that is not a page of listings, or of a page in which some asset
//! lacks a quote in the reference currency.

use vstd::prelude::*;
use vstd::string::*;
use crate::http::{header_text, is_header_text, is_success, success_code};
use crate::quote::{
    all_quoted, has_reference, quote_views, snapshot, snapshot_of, AssetQuote, AssetQuoteView,
    Listing, SnapshotError,
};

verus! {

/// The address of the latest listings.
pub const LISTINGS_URL: &'static str =
    "https://pro-api.coinmarketcap.com/v1/cryptocurrency/listings/latest";

/// The name of the header that carries the API key.
pub const API_KEY_HEADER: &'static str = "X-CMC_PRO_API_KEY";

/// The `User-Agent` header of the request.
pub const USER_AGENT: &'static str = "Rust Client";

/// What is sent for the latest listings.
#[derive(Debug, PartialEq, Eq)]
pub struct ListingsRequest {
    /// Where the request goes.
    pub url: String,
    /// The name of the header that carries the API key.
    pub key_header: String,
    /// The API key.
    pub key: String,
    /// The value of the `User-Agent` header.
    pub user_agent: String,
}

/// What came of the request for the latest listings.
#[derive(Debug)]
pub enum SnapshotReply {
    /// No request could be planned.
    NotSent,
    /// The request failed before any answer arrived.
    Unreachable,
    /// An answer arrived. `page` holds its listings, or `None` where the
    /// body could not be read as a page of listings.
    Answered { status: u16, page: Option<Vec<Listing>> },
}

/// Why there is no snapshot.
#[derive(Debug, PartialEq, Eq)]
pub enum FetchError {
    /// No request could be planned.
    NotSent,
    /// The request failed before any answer arrived.
    Unreachable,
    /// The answer's status is not a success code.
    Rejected { status: u16 },
    /// The body is not a page of listings.
    Malformed,
    /// The listing at this position has no quote in the reference currency.
    Unquoted { position: usize },
}

/// Whether a reply yields a snapshot.
pub open spec fn yields_snapshot(reply: SnapshotReply) -> bool {
    match reply {
        SnapshotReply::Answered { status, page: Some(listings) } => success_code(status)
            && all_quoted(listings@, listings@.len() as int),
        _ => false,
    }
}

/// The snapshot that a reply yields, if it yields one.
pub open spec fn snapshot_in(reply: SnapshotReply) -> Option<Seq<AssetQuoteView>> {
    match reply {
        SnapshotReply::Answered { status, page: Some(listings) } => if success_code(status)
            && all_quoted(listings@, listings@.len() as int) {
            Some(snapshot_of(listings@))
        } else {
            None
        },
        _ => None,
    }
}

/// Plans the request for the latest listings, or none where `api_key`
/// cannot stand in a header.
pub fn plan_listings(api_key: &str) -> (planned: Option<ListingsRequest>)
    ensures
        planned is Some <==> header_text(api_key@),
        planned matches Some(request) ==> {
            &&& request.url@ == LISTINGS_URL@
            &&& request.key_header@ == API_KEY_HEADER@
            &&& request.key@ == api_key@
            &&& request.user_agent@ == USER_AGENT@
        },
{
    if !is_header_text(api_key) {
        return None;
    }
    Some(
        ListingsRequest {
            url: String::from_str(LISTINGS_URL),
            key_header: String::from_str(API_KEY_HEADER),
            key: String::from_str(api_key),
            user_agent: String::from_str(USER_AGENT),
        },
    )
}

/// Turns the provider's answer into a snapshot, in the provider's order, or
/// says why there is none. The status is looked at first, then the page,
/// then the listings from the first one on.
pub fn read_snapshot(reply: &SnapshotReply) -> (outcome: Result<Vec<AssetQuote>, FetchError>)
    ensures
        outcome is Ok <==> yields_snapshot(*reply),
        match outcome {
            Ok(quotes) => Some(quote_views(quotes@)) == snapshot_in(*reply),
            Err(FetchError::NotSent) => *reply is NotSent,
            Err(FetchError::Unreachable) => *reply is Unreachable,
            Err(FetchError::Rejected { status }) => {
                &&& *reply matches SnapshotReply::Answered { status: s, .. }
                &&& s == status
                &&& !success_code(status)
            },
            Err(FetchError::Malformed) => {
                &&& *reply matches SnapshotReply::Answered { status, page: None }
                &&& success_code(status)
            },
            Err(FetchError::Unquoted { position }) => {
                &&& *reply matches SnapshotReply::Answered { status, page: Some(listings) }
                &&& success_code(status)
                &&& position < listings.len()
                &&& all_quoted(listings@, position as int)
                &&& !has_reference(listings[position as int].quotes@)
            },
        },
{
    match reply {
        SnapshotReply::NotSent => Err(FetchError::NotSent),
        SnapshotReply::Unreachable => Err(FetchError::Unreachable),
        SnapshotReply::Answered { status, page } => {
            if !is_success(*status) {
                return Err(FetchError::Rejected { status: *status });
            }
            match page {
                None => Err(FetchError::Malformed),
                Some(listings) => match snapshot(listings) {
                    Ok(quotes) => Ok(quotes),
                    Err(SnapshotError::MissingReferenceQuote { position }) => Err(
                        FetchError::Unquoted { position },
                    ),
                },
            }
        },
    }
}

} // verus!
