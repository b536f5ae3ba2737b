use crypto_digest::http::is_success;
use crypto_digest::market::{
    plan_listings, read_snapshot, FetchError, ListingsRequest, SnapshotReply, API_KEY_HEADER,
    LISTINGS_URL, USER_AGENT,
};
use crypto_digest::percent::Percent;
use crypto_digest::quote::{snapshot, CurrencyQuote, Listing, SnapshotError};

fn in_currency(currency: &str, change_24h: i64, change_7d: i64) -> CurrencyQuote {
    CurrencyQuote {
        currency: currency.to_string(),
        percent_change_24h: Percent::from_units(change_24h),
        percent_change_7d: Percent::from_units(change_7d),
    }
}

fn listing(name: &str, symbol: &str, quotes: Vec<CurrencyQuote>) -> Listing {
    Listing { name: name.to_string(), symbol: symbol.to_string(), quotes }
}

fn page() -> Vec<Listing> {
    vec![
        listing("Bitcoin", "BTC", vec![in_currency("EUR", 1, 2), in_currency("USD", 500, -100)]),
        listing("Ethereum", "ETH", vec![in_currency("USD", -300, 250)]),
    ]
}

#[test]
fn success_codes_are_two_hundred_to_two_ninety_nine() {
    assert!(is_success(200));
    assert!(is_success(204));
    assert!(is_success(299));
    assert!(!is_success(199));
    assert!(!is_success(300));
    assert!(!is_success(404));
    assert!(!is_success(0));
    assert!(!is_success(u16::MAX));
}

#[test]
fn snapshot_reads_the_reference_quote_of_each_listing() {
    let quotes = snapshot(&page()).unwrap();
    assert_eq!(quotes.len(), 2);
    assert_eq!(quotes[0].name, "Bitcoin");
    assert_eq!(quotes[0].symbol, "BTC");
    assert_eq!(quotes[0].percent_change_24h.units, 500);
    assert_eq!(quotes[0].percent_change_7d.units, -100);
    assert_eq!(quotes[1].name, "Ethereum");
    assert_eq!(quotes[1].percent_change_24h.units, -300);
    assert_eq!(quotes[1].percent_change_7d.units, 250);
}

#[test]
fn snapshot_names_the_first_listing_without_reference_quote() {
    let mut listings = page();
    listings.push(listing("Odd", "ODD", vec![in_currency("EUR", 1, 1), in_currency("usd", 1, 1)]));
    listings.push(listing("Bare", "BARE", vec![]));
    assert_eq!(
        snapshot(&listings).unwrap_err(),
        SnapshotError::MissingReferenceQuote { position: 2 }
    );
}

#[test]
fn reference_quote_is_the_first_one_in_usd() {
    let l = listing(
        "X",
        "X",
        vec![in_currency("BTC", 1, 1), in_currency("USD", 2, 2), in_currency("USD", 3, 3)],
    );
    assert_eq!(l.reference_quote(), Some(1));
    assert_eq!(listing("Y", "Y", vec![in_currency("EUR", 1, 1)]).reference_quote(), None);
    assert_eq!(snapshot(&vec![l]).unwrap()[0].percent_change_24h.units, 2);
}

#[test]
fn an_empty_page_is_an_empty_snapshot() {
    assert!(snapshot(&Vec::new()).unwrap().is_empty());
    let reply = SnapshotReply::Answered { status: 200, page: Some(Vec::new()) };
    assert!(read_snapshot(&reply).unwrap().is_empty());
}

#[test]
fn a_good_reply_yields_the_snapshot() {
    let reply = SnapshotReply::Answered { status: 200, page: Some(page()) };
    let quotes = read_snapshot(&reply).unwrap();
    assert_eq!(quotes.len(), 2);
    assert_eq!(quotes[1].symbol, "ETH");
}

#[test]
fn each_failure_of_the_fetch_has_its_error() {
    assert_eq!(read_snapshot(&SnapshotReply::NotSent).unwrap_err(), FetchError::NotSent);
    assert_eq!(read_snapshot(&SnapshotReply::Unreachable).unwrap_err(), FetchError::Unreachable);
    let rejected = SnapshotReply::Answered { status: 401, page: Some(page()) };
    assert_eq!(read_snapshot(&rejected).unwrap_err(), FetchError::Rejected { status: 401 });
    let rejected_unread = SnapshotReply::Answered { status: 503, page: None };
    assert_eq!(read_snapshot(&rejected_unread).unwrap_err(), FetchError::Rejected { status: 503 });
    let malformed = SnapshotReply::Answered { status: 200, page: None };
    assert_eq!(read_snapshot(&malformed).unwrap_err(), FetchError::Malformed);
    let mut listings = page();
    listings.insert(1, listing("Bare", "BARE", vec![]));
    let unquoted = SnapshotReply::Answered { status: 200, page: Some(listings) };
    assert_eq!(read_snapshot(&unquoted).unwrap_err(), FetchError::Unquoted { position: 1 });
}

#[test]
fn the_listings_request_carries_the_key_in_its_header() {
    assert_eq!(
        plan_listings("abc-123"),
        Some(ListingsRequest {
            url: "https://pro-api.coinmarketcap.com/v1/cryptocurrency/listings/latest".to_string(),
            key_header: "X-CMC_PRO_API_KEY".to_string(),
            key: "abc-123".to_string(),
            user_agent: "Rust Client".to_string(),
        })
    );
    assert!(plan_listings("").is_some());
}

#[test]
fn no_listings_request_is_planned_with_a_key_that_cannot_stand_in_a_header() {
    for key in ["line\nbreak", "nul\0", "del\u{7f}", "\r"] {
        assert_eq!(plan_listings(key), None, "{:?}", key);
        assert!(reqwest::header::HeaderValue::from_str(key).is_err());
    }
}

#[test]
fn the_request_is_worded_as_the_provider_expects() {
    assert_eq!(LISTINGS_URL, "https://pro-api.coinmarketcap.com/v1/cryptocurrency/listings/latest");
    assert_eq!(API_KEY_HEADER, "X-CMC_PRO_API_KEY");
    assert_eq!(USER_AGENT, "Rust Client");
}
