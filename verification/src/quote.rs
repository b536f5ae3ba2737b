//! Market snapshot records.
//!
//! A provider listing carries one quote per currency. Only the quote in the
//! reference currency is read; a listing without it makes the whole snapshot
//! unusable, and the first such listing is named in the error.

use vstd::prelude::*;
use vstd::string::*;
use crate::percent::Percent;

verus! {

/// The changes of one asset in one quote currency.
#[derive(Debug)]
pub struct CurrencyQuote {
    pub currency: String,
    pub percent_change_24h: Percent,
    pub percent_change_7d: Percent,
}

/// One asset as the market-data provider lists it.
#[derive(Debug)]
pub struct Listing {
    pub name: String,
    pub symbol: String,
    pub quotes: Vec<CurrencyQuote>,
}

/// One asset with its changes in the reference currency.
#[derive(Debug)]
pub struct AssetQuote {
    pub name: String,
    pub symbol: String,
    pub percent_change_24h: Percent,
    pub percent_change_7d: Percent,
}

/// The mathematical content of an [`AssetQuote`].
pub struct AssetQuoteView {
    pub name: Seq<char>,
    pub symbol: Seq<char>,
    pub change_24h: int,
    pub change_7d: int,
}

impl View for AssetQuote {
    type V = AssetQuoteView;

    open spec fn view(&self) -> AssetQuoteView {
        AssetQuoteView {
            name: self.name@,
            symbol: self.symbol@,
            change_24h: self.percent_change_24h.units as int,
            change_7d: self.percent_change_7d.units as int,
        }
    }
}

impl Clone for AssetQuote {
    fn clone(&self) -> (copy: AssetQuote)
        ensures
            copy == *self,
    {
        AssetQuote {
            name: self.name.clone(),
            symbol: self.symbol.clone(),
            percent_change_24h: self.percent_change_24h,
            percent_change_7d: self.percent_change_7d,
        }
    }
}

/// Why a provider page could not be turned into a snapshot.
#[derive(Debug, PartialEq, Eq)]
pub enum SnapshotError {
    /// The listing at this position has no quote in the reference currency.
    MissingReferenceQuote { position: usize },
}

/// The views of a list of quotes, element by element.
pub open spec fn quote_views(quotes: Seq<AssetQuote>) -> Seq<AssetQuoteView> {
    quotes.map_values(|q: AssetQuote| q@)
}

/// The code of the currency whose quote is read.
pub open spec fn reference_currency() -> Seq<char> {
    "USD"@
}

/// Whether the quote at position `at` is the first one of `quotes` in the
/// reference currency.
pub open spec fn is_reference_at(quotes: Seq<CurrencyQuote>, at: int) -> bool {
    &&& 0 <= at < quotes.len()
    &&& quotes[at].currency@ == reference_currency()
    &&& forall|k: int| 0 <= k < at ==> (#[trigger] quotes[k]).currency@ != reference_currency()
}

/// Whether some quote of `quotes` is in the reference currency.
pub open spec fn has_reference(quotes: Seq<CurrencyQuote>) -> bool {
    exists|at: int| is_reference_at(quotes, at)
}

/// The position of the first quote of `quotes` in the reference currency,
/// where there is one.
pub open spec fn reference_position(quotes: Seq<CurrencyQuote>) -> int {
    choose|at: int| is_reference_at(quotes, at)
}

/// What a listing becomes once its reference quote, at position `at`, is
/// picked.
pub open spec fn quote_of(listing: Listing, at: int) -> AssetQuoteView {
    AssetQuoteView {
        name: listing.name@,
        symbol: listing.symbol@,
        change_24h: listing.quotes@[at].percent_change_24h.units as int,
        change_7d: listing.quotes@[at].percent_change_7d.units as int,
    }
}

/// The snapshot that a page of listings makes, where every listing has a
/// quote in the reference currency.
pub open spec fn snapshot_of(listings: Seq<Listing>) -> Seq<AssetQuoteView> {
    Seq::new(
        listings.len(),
        |i: int| quote_of(listings[i], reference_position(listings[i].quotes@)),
    )
}

/// Whether every listing before `end` has a quote in the reference currency.
pub open spec fn all_quoted(listings: Seq<Listing>, end: int) -> bool {
    forall|i: int| 0 <= i < end ==> has_reference((#[trigger] listings[i]).quotes@)
}

impl Listing {
    /// Finds the first quote in the reference currency.
    pub fn reference_quote(&self) -> (found: Option<usize>)
        ensures
            match found {
                Some(at) => is_reference_at(self.quotes@, at as int) && reference_position(
                    self.quotes@,
                ) == at,
                None => !has_reference(self.quotes@),
            },
    {
        let wanted = String::from_str("USD");
        let mut i: usize = 0;
        while i < self.quotes.len()
            invariant
                i <= self.quotes.len(),
                wanted@ == reference_currency(),
                forall|k: int|
                    0 <= k < i ==> (#[trigger] self.quotes@[k]).currency@ != reference_currency(),
            decreases self.quotes.len() - i,
        {
            if self.quotes[i].currency == wanted {
                assert(is_reference_at(self.quotes@, i as int));
                return Some(i);
            }
            i = i + 1;
        }
        None
    }
}

/// Turns a provider page into a snapshot, in the provider's order.
///
/// Fails on the first listing that has no quote in the reference currency.
pub fn snapshot(listings: &Vec<Listing>) -> (outcome: Result<Vec<AssetQuote>, SnapshotError>)
    ensures
        match outcome {
            Ok(quotes) => {
                &&& all_quoted(listings@, listings.len() as int)
                &&& quote_views(quotes@) == snapshot_of(listings@)
            },
            Err(SnapshotError::MissingReferenceQuote { position }) => {
                &&& position < listings.len()
                &&& all_quoted(listings@, position as int)
                &&& !has_reference(listings[position as int].quotes@)
            },
        },
{
    let mut quotes: Vec<AssetQuote> = Vec::new();
    let mut i: usize = 0;
    while i < listings.len()
        invariant
            i <= listings.len(),
            quotes.len() == i,
            all_quoted(listings@, i as int),
            forall|k: int|
                0 <= k < i ==> (#[trigger] quotes[k])@ == quote_of(
                    listings[k],
                    reference_position(listings[k].quotes@),
                ),
        decreases listings.len() - i,
    {
        let listing = &listings[i];
        match listing.reference_quote() {
            Some(at) => {
                let quote = AssetQuote {
                    name: listing.name.clone(),
                    symbol: listing.symbol.clone(),
                    percent_change_24h: listing.quotes[at].percent_change_24h,
                    percent_change_7d: listing.quotes[at].percent_change_7d,
                };
                quotes.push(quote);
            },
            None => {
                return Err(SnapshotError::MissingReferenceQuote { position: i });
            },
        }
        i = i + 1;
    }
    assert(quote_views(quotes@) =~= snapshot_of(listings@));
    Ok(quotes)
}

} // verus!
