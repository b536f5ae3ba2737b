use crypto_digest::builder::{BuildAction, BuildEvent};
use crypto_digest::cache::{DailyCache, DateKey};
use crypto_digest::digest::DigestEntry;
use crypto_digest::endpoint::{
    keep_written, Response, ServeAction, ServeEvent, Serving, ROUTE, STATUS_OK,
    STATUS_SERVER_ERROR,
};
use crypto_digest::market::SnapshotReply;
use crypto_digest::percent::Percent;
use crypto_digest::quote::{CurrencyQuote, Listing};

fn day() -> DateKey {
    DateKey::parse("2024-05-01").unwrap()
}

fn listing(name: &str, symbol: &str, change_24h: i64) -> Listing {
    Listing {
        name: name.to_string(),
        symbol: symbol.to_string(),
        quotes: vec![CurrencyQuote {
            currency: "USD".to_string(),
            percent_change_24h: Percent::from_units(change_24h),
            percent_change_7d: Percent::from_units(0),
        }],
    }
}

fn page(count: usize) -> Vec<Listing> {
    (0..count).map(|i| listing(&format!("coin{}", i), &format!("C{}", i), i as i64 * 100)).collect()
}

fn stored() -> Vec<DigestEntry> {
    vec![DigestEntry {
        token: "Bitcoin".to_string(),
        symbol: "BTC".to_string(),
        summary: "It rose.".to_string(),
        references: vec!["Up - https://a".to_string()],
    }]
}

struct Calls {
    reads: usize,
    fetches: usize,
    lookups: usize,
    completions: usize,
    pauses: usize,
    writes: Vec<(String, Vec<DigestEntry>)>,
}

fn drive(
    cached: Option<Vec<DigestEntry>>,
    reply: fn() -> SnapshotReply,
    write: Result<(), String>,
) -> (Response, Calls) {
    let mut calls = Calls { reads: 0, fetches: 0, lookups: 0, completions: 0, pauses: 0, writes: Vec::new() };
    let mut cached = Some(cached);
    let mut serving = Serving::begin(day());
    loop {
        let event = match serving.action() {
            ServeAction::ReadCache { path } => {
                assert_eq!(path, "data/2024-05-01.json");
                calls.reads += 1;
                ServeEvent::CacheRead(cached.take().unwrap())
            }
            ServeAction::FetchSnapshot => {
                calls.fetches += 1;
                ServeEvent::Snapshot(reply())
            }
            ServeAction::Build(BuildAction::LookupNews { query }) => {
                calls.lookups += 1;
                ServeEvent::Build(BuildEvent::News(Some(vec![format!("about {}", query)])))
            }
            ServeAction::Build(BuildAction::Summarize { .. }) => {
                calls.completions += 1;
                ServeEvent::Build(BuildEvent::Summary(Some(format!("summary {}", calls.completions))))
            }
            ServeAction::Build(BuildAction::Pause { .. }) => {
                calls.pauses += 1;
                ServeEvent::Build(BuildEvent::Paused)
            }
            ServeAction::Build(BuildAction::Finish) => unreachable!(),
            ServeAction::WriteCache { path, digest } => {
                calls.writes.push((path, digest));
                ServeEvent::Stored(write.clone())
            }
            ServeAction::Respond(response) => {
                assert!(serving.is_answered());
                assert_eq!(serving.response(), Some(&response));
                return (response, calls);
            }
        };
        assert!(!serving.is_answered());
        assert_eq!(serving.response(), None);
        serving = serving.step(event);
    }
}

fn eight() -> SnapshotReply {
    SnapshotReply::Answered { status: 200, page: Some(page(8)) }
}

fn unsent_request() -> SnapshotReply {
    SnapshotReply::NotSent
}

fn unreachable_provider() -> SnapshotReply {
    SnapshotReply::Unreachable
}

fn rejecting_provider() -> SnapshotReply {
    SnapshotReply::Answered { status: 401, page: None }
}

fn garbled_provider() -> SnapshotReply {
    SnapshotReply::Answered { status: 200, page: None }
}

fn unquoted_provider() -> SnapshotReply {
    let mut listings = page(8);
    listings[3].quotes[0].currency = "EUR".to_string();
    SnapshotReply::Answered { status: 200, page: Some(listings) }
}

fn empty_provider() -> SnapshotReply {
    SnapshotReply::Answered { status: 200, page: Some(Vec::new()) }
}

#[test]
fn a_cached_digest_is_served_without_asking_any_provider() {
    let (response, calls) = drive(Some(stored()), eight, Ok(()));
    assert_eq!(response, Response::Digest(stored()));
    assert_eq!(response.status(), 200);
    assert_eq!(calls.reads, 1);
    assert_eq!((calls.fetches, calls.lookups, calls.completions, calls.pauses), (0, 0, 0, 0));
    assert!(calls.writes.is_empty());
}

#[test]
fn a_miss_builds_the_digest_and_writes_it_once() {
    let (response, calls) = drive(None, eight, Ok(()));
    assert_eq!(calls.reads, 1);
    assert_eq!(calls.fetches, 1);
    assert_eq!(calls.lookups, 6);
    assert_eq!(calls.completions, 6);
    assert_eq!(calls.pauses, 6);
    assert_eq!(calls.writes.len(), 1);
    assert_eq!(calls.writes[0].0, "data/2024-05-01.json");
    let digest = match response {
        Response::Digest(digest) => digest,
        Response::Failure(text) => panic!("{}", text),
    };
    assert_eq!(digest, calls.writes[0].1);
    let tokens: Vec<&str> = digest.iter().map(|e| e.token.as_str()).collect();
    assert_eq!(tokens, ["coin7", "coin6", "coin5", "coin0", "coin1", "coin2"]);
    assert_eq!(digest[0].symbol, "C7");
    assert_eq!(digest[0].summary, "summary 1");
    assert_eq!(digest[0].references, ["about coin7 cryptocurrency"]);
    assert_eq!(digest[5].summary, "summary 6");
}

#[test]
fn no_snapshot_means_a_server_error_and_nothing_more() {
    for reply in [
        unsent_request,
        unreachable_provider,
        rejecting_provider,
        garbled_provider,
        unquoted_provider,
    ] {
        let (response, calls) = drive(None, reply, Ok(()));
        assert_eq!(response, Response::Failure("Failed to generate summaries".to_string()));
        assert_eq!(response.status(), 500);
        assert_eq!((calls.reads, calls.fetches), (1, 1));
        assert_eq!((calls.lookups, calls.completions, calls.pauses), (0, 0, 0));
        assert!(calls.writes.is_empty());
    }
}

#[test]
fn a_failed_write_means_a_server_error_with_the_reason() {
    let (response, calls) = drive(None, eight, Err("disk full".to_string()));
    assert_eq!(
        response,
        Response::Failure("Failed to fetch and store summaries: disk full".to_string())
    );
    assert_eq!(response.status(), STATUS_SERVER_ERROR);
    assert_eq!(calls.writes.len(), 1);
    assert_eq!(calls.lookups, 6);
}

#[test]
fn an_empty_snapshot_gives_an_empty_digest() {
    let (response, calls) = drive(None, empty_provider, Ok(()));
    assert_eq!(response, Response::Digest(Vec::new()));
    assert_eq!((calls.fetches, calls.lookups, calls.completions, calls.pauses), (1, 0, 0, 0));
    assert_eq!(calls.writes, vec![("data/2024-05-01.json".to_string(), Vec::new())]);
}

#[test]
fn events_that_answer_nothing_leave_the_request_where_it_is() {
    let serving = Serving::begin(day());
    let serving = serving.step(ServeEvent::Stored(Ok(())));
    let serving = serving.step(ServeEvent::Snapshot(eight()));
    let serving = serving.step(ServeEvent::Build(BuildEvent::Paused));
    assert_eq!(serving.action(), ServeAction::ReadCache { path: "data/2024-05-01.json".to_string() });
    let serving = serving.step(ServeEvent::CacheRead(None));
    assert_eq!(serving.action(), ServeAction::FetchSnapshot);
    let serving = serving.step(ServeEvent::CacheRead(Some(stored())));
    assert_eq!(serving.action(), ServeAction::FetchSnapshot);
    let serving = serving.step(ServeEvent::Snapshot(eight()));
    assert_eq!(
        serving.action(),
        ServeAction::Build(BuildAction::LookupNews { query: "coin7 cryptocurrency".to_string() })
    );
    let serving = serving.step(ServeEvent::Snapshot(empty_provider()));
    let serving = serving.step(ServeEvent::Build(BuildEvent::Summary(None)));
    assert_eq!(
        serving.action(),
        ServeAction::Build(BuildAction::LookupNews { query: "coin7 cryptocurrency".to_string() })
    );
}

#[test]
fn once_answered_the_answer_stays() {
    let serving = Serving::begin(day()).step(ServeEvent::CacheRead(Some(stored())));
    let serving = serving
        .step(ServeEvent::CacheRead(None))
        .step(ServeEvent::Snapshot(eight()))
        .step(ServeEvent::Stored(Err("late".to_string())));
    assert_eq!(serving.action(), ServeAction::Respond(Response::Digest(stored())));
    assert_eq!(serving.day().as_str(), "2024-05-01");
}

#[test]
fn a_day_held_in_memory_is_answered_without_any_action() {
    let held = DailyCache::new().put(&day(), stored());
    let serving = Serving::begin_with(day(), &held);
    assert!(serving.is_answered());
    assert_eq!(serving.action(), ServeAction::Respond(Response::Digest(stored())));
    let other = DateKey::parse("2024-05-02").unwrap();
    let serving = Serving::begin_with(other, &held);
    assert!(!serving.is_answered());
    assert_eq!(serving.action(), ServeAction::ReadCache { path: "data/2024-05-02.json".to_string() });
    let serving = Serving::begin_with(day(), &DailyCache::new());
    assert_eq!(serving.action(), ServeAction::ReadCache { path: "data/2024-05-01.json".to_string() });
}

#[test]
fn a_digest_is_taken_into_memory_only_when_its_record_was_written() {
    let held = keep_written(DailyCache::new(), &day(), stored(), false);
    assert_eq!(held.get(&day()), None);
    assert_eq!(held.len(), 0);
    let held = keep_written(held, &day(), stored(), true);
    assert_eq!(held.get(&day()), Some(&stored()));
    let held = keep_written(held, &day(), Vec::new(), false);
    assert_eq!(held.get(&day()), Some(&stored()));
    let held = keep_written(held, &day(), Vec::new(), true);
    assert_eq!(held.get(&day()), Some(&Vec::new()));
    assert_eq!(held.len(), 1);
}

#[test]
fn the_surface_is_one_route_with_two_statuses() {
    assert_eq!(ROUTE, "/crypto-summary");
    assert_eq!(STATUS_OK, 200);
    assert_eq!(STATUS_SERVER_ERROR, 500);
    let failure = Response::Failure("x".to_string());
    assert_eq!(failure.duplicate(), failure);
    assert_eq!(Response::Digest(stored()).duplicate(), Response::Digest(stored()));
}
