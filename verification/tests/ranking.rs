use crypto_digest::percent::Percent;
use crypto_digest::quote::AssetQuote;
use crypto_digest::ranking::{gainers, losers, select, PICKS};

fn quote(name: &str, change_24h: i64) -> AssetQuote {
    AssetQuote {
        name: name.to_string(),
        symbol: name.to_uppercase(),
        percent_change_24h: Percent::from_units(change_24h),
        percent_change_7d: Percent::from_units(0),
    }
}

fn names(quotes: &[AssetQuote]) -> Vec<String> {
    quotes.iter().map(|q| q.name.clone()).collect()
}

#[test]
fn three_assets_are_each_picked_twice() {
    let quotes = vec![quote("BTC", 500), quote("ETH", -300), quote("DOGE", 1000)];
    assert_eq!(gainers(&quotes), vec![2, 0, 1]);
    assert_eq!(losers(&quotes), vec![1, 0, 2]);
    let picked = select(&quotes);
    assert_eq!(names(&picked), ["DOGE", "BTC", "ETH", "ETH", "BTC", "DOGE"]);
}

#[test]
fn six_or_more_assets_give_three_gainers_then_three_losers() {
    let quotes = vec![
        quote("a", 100),
        quote("b", -700),
        quote("c", 900),
        quote("d", 0),
        quote("e", -200),
        quote("f", 300),
        quote("g", -900),
        quote("h", 800),
    ];
    let picked = select(&quotes);
    assert_eq!(picked.len(), 6);
    assert_eq!(names(&picked), ["c", "h", "f", "g", "b", "e"]);
    let exactly_six = select(&quotes[..6].to_vec());
    assert_eq!(names(&exactly_six), ["c", "f", "a", "b", "e", "d"]);
}

#[test]
fn heads_of_the_rankings_are_the_extremes() {
    let quotes = vec![quote("a", 5), quote("b", -7), quote("c", 9), quote("d", 9), quote("e", -7)];
    let up = gainers(&quotes);
    let down = losers(&quotes);
    let largest = quotes.iter().map(|q| q.percent_change_24h.units).max().unwrap();
    let smallest = quotes.iter().map(|q| q.percent_change_24h.units).min().unwrap();
    assert_eq!(quotes[up[0]].percent_change_24h.units, largest);
    assert_eq!(quotes[down[0]].percent_change_24h.units, smallest);
}

#[test]
fn equal_changes_keep_the_provider_order_in_both_rankings() {
    let quotes = vec![quote("a", 1), quote("b", 2), quote("c", 1), quote("d", 2), quote("e", 1)];
    assert_eq!(gainers(&quotes), vec![1, 3, 0, 2, 4]);
    assert_eq!(losers(&quotes), vec![0, 2, 4, 1, 3]);
}

#[test]
fn all_equal_changes_pick_the_same_assets_twice() {
    let quotes: Vec<AssetQuote> = ["a", "b", "c", "d", "e", "f", "g"].iter().map(|n| quote(n, 42)).collect();
    assert_eq!(names(&select(&quotes)), ["a", "b", "c", "a", "b", "c"]);
}

#[test]
fn short_snapshots_give_short_selections() {
    assert!(select(&Vec::new()).is_empty());
    assert_eq!(names(&select(&vec![quote("only", 1)])), ["only", "only"]);
    let two = vec![quote("x", -1), quote("y", 4)];
    assert_eq!(names(&select(&two)), ["y", "x", "x", "y"]);
    assert_eq!(PICKS, 3);
}

#[test]
fn rankings_list_every_position_once() {
    let quotes: Vec<AssetQuote> =
        (0..50).map(|i| quote("q", ((i * 37) % 11) as i64 - 5)).collect();
    for order in [gainers(&quotes), losers(&quotes)] {
        let mut seen = order.clone();
        seen.sort();
        assert_eq!(seen, (0..50).collect::<Vec<usize>>());
    }
    let up = gainers(&quotes);
    for pair in up.windows(2) {
        let (a, b) = (pair[0], pair[1]);
        let (ka, kb) = (quotes[a].percent_change_24h.units, quotes[b].percent_change_24h.units);
        assert!(ka > kb || (ka == kb && a < b));
    }
}

#[test]
fn changes_closer_than_a_hundredth_are_still_told_apart() {
    let quotes = vec![quote("a", 500_100_000), quote("b", 500_400_000), quote("c", 500_400_001)];
    assert_eq!(gainers(&quotes), vec![2, 1, 0]);
    assert_eq!(losers(&quotes), vec![0, 1, 2]);
}

#[test]
fn ranking_handles_the_extremes_of_the_range() {
    let quotes = vec![quote("low", i64::MIN), quote("high", i64::MAX), quote("mid", 0)];
    assert_eq!(gainers(&quotes), vec![1, 2, 0]);
    assert_eq!(losers(&quotes), vec![0, 2, 1]);
}

#[test]
fn selection_copies_the_quotes_whole() {
    let mut q = quote("Bitcoin", 512);
    q.symbol = "BTC".to_string();
    q.percent_change_7d = Percent::from_units(-1234);
    let picked = select(&vec![q]);
    assert_eq!(picked[0].name, "Bitcoin");
    assert_eq!(picked[0].symbol, "BTC");
    assert_eq!(picked[0].percent_change_24h, Percent::from_units(512));
    assert_eq!(picked[1].percent_change_7d, Percent::from_units(-1234));
}
