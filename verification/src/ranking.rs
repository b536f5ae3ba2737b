//! Ranking a snapshot and choosing the assets of the day.
//!
//! Assets are ranked by their 24-hour change: gainers from the largest
//! change down, losers from the smallest change up. Assets with the same
//! change keep the order in which the provider listed them, in both
//! rankings. The day's selection is the first [`PICKS`] gainers followed by
//! the first [`PICKS`] losers; an asset may be picked twice.

use vstd::prelude::*;
use crate::quote::{quote_views, AssetQuote, AssetQuoteView};

verus! {

/// How many assets are taken from the head of each ranking.
pub const PICKS: usize = 3;

/// The two rankings.
#[derive(Clone, Copy, Debug, PartialEq, Eq, Structural)]
pub enum Movement {
    /// Largest 24-hour change first.
    Gain,
    /// Smallest 24-hour change first.
    Loss,
}

/// The number by which a ranking sorts, larger first.
pub open spec fn sort_key(quote: AssetQuoteView, movement: Movement) -> int {
    match movement {
        Movement::Gain => quote.change_24h,
        Movement::Loss => -quote.change_24h,
    }
}

/// The sort keys of a snapshot.
pub open spec fn sort_keys(quotes: Seq<AssetQuoteView>, movement: Movement) -> Seq<int> {
    quotes.map_values(|q: AssetQuoteView| sort_key(q, movement))
}

/// Whether position `a` of the snapshot comes before position `b` in a
/// ranking: by the larger key, and for equal keys by the earlier position.
pub open spec fn precedes(keys: Seq<int>, a: int, b: int) -> bool {
    keys[a] > keys[b] || (keys[a] == keys[b] && a < b)
}

/// Whether `order` lists every position of `keys` once, each before all the
/// positions that it precedes.
pub open spec fn is_ranking(keys: Seq<int>, order: Seq<int>) -> bool {
    &&& order.len() == keys.len()
    &&& forall|i: int| 0 <= i < order.len() ==> 0 <= #[trigger] order[i] < keys.len()
    &&& forall|i: int, j: int|
        0 <= i < j < order.len() ==> precedes(keys, #[trigger] order[i], #[trigger] order[j])
    &&& forall|k: int| 0 <= k < keys.len() ==> #[trigger] order.contains(k)
}

/// The ranking of `keys`. There is exactly one: see [`lemma_ranking_exists`]
/// and [`lemma_ranking_unique`].
pub open spec fn ranking(keys: Seq<int>) -> Seq<int> {
    choose|order: Seq<int>| is_ranking(keys, order)
}

/// The positions of a snapshot in gainers order.
pub open spec fn gainers_order(quotes: Seq<AssetQuoteView>) -> Seq<int> {
    ranking(sort_keys(quotes, Movement::Gain))
}

/// The positions of a snapshot in losers order.
pub open spec fn losers_order(quotes: Seq<AssetQuoteView>) -> Seq<int> {
    ranking(sort_keys(quotes, Movement::Loss))
}

/// How many assets are taken from a ranking of `total` assets.
pub open spec fn picks_of(total: int) -> int {
    if total < PICKS as int {
        total
    } else {
        PICKS as int
    }
}

/// The quotes at the head of a ranking.
pub open spec fn head_of(quotes: Seq<AssetQuoteView>, order: Seq<int>) -> Seq<AssetQuoteView> {
    Seq::new(picks_of(quotes.len() as int) as nat, |i: int| quotes[order[i]])
}

/// The day's selection: the head of the gainers, then the head of the
/// losers.
pub open spec fn selection(quotes: Seq<AssetQuoteView>) -> Seq<AssetQuoteView> {
    head_of(quotes, gainers_order(quotes)) + head_of(quotes, losers_order(quotes))
}

/// Positions as mathematical integers.
pub open spec fn positions(order: Seq<usize>) -> Seq<int> {
    order.map_values(|p: usize| p as int)
}

/// Two rankings of the same keys agree at every place.
proof fn lemma_rankings_agree_at(keys: Seq<int>, first: Seq<int>, second: Seq<int>, at: int)
    requires
        is_ranking(keys, first),
        is_ranking(keys, second),
        0 <= at < keys.len(),
    ensures
        first[at] == second[at],
    decreases at,
{
    let x = first[at];
    let y = second[at];
    assert(second.contains(x));
    let in_second = choose|j: int| 0 <= j < second.len() && second[j] == x;
    assert(first.contains(y));
    let in_first = choose|j: int| 0 <= j < first.len() && first[j] == y;
    if in_second < at {
        lemma_rankings_agree_at(keys, first, second, in_second);
        assert(precedes(keys, first[in_second], first[at]));
    }
    if in_first < at {
        lemma_rankings_agree_at(keys, first, second, in_first);
        assert(precedes(keys, second[in_first], second[at]));
    }
    if in_second > at {
        assert(precedes(keys, second[at], second[in_second]));
        if in_first > at {
            assert(precedes(keys, first[at], first[in_first]));
        }
    }
}

/// The ranking is determined by the keys: two orders that both rank them
/// are the same order.
pub proof fn lemma_ranking_unique(keys: Seq<int>, first: Seq<int>, second: Seq<int>)
    requires
        is_ranking(keys, first),
        is_ranking(keys, second),
    ensures
        first == second,
{
    assert forall|i: int| 0 <= i < first.len() implies first[i] == second[i] by {
        lemma_rankings_agree_at(keys, first, second, i);
    }
    assert(first =~= second);
}

/// The head of a ranking has the largest key of all.
pub proof fn lemma_head_is_largest(keys: Seq<int>, order: Seq<int>, k: int)
    requires
        is_ranking(keys, order),
        0 <= k < keys.len(),
    ensures
        keys[order[0]] >= keys[k],
{
    assert(order.contains(k));
    let at = choose|j: int| 0 <= j < order.len() && order[j] == k;
    if at > 0 {
        assert(precedes(keys, order[0], order[at]));
    }
}

/// The first gainer has the largest 24-hour change of the snapshot, and the
/// first loser the smallest.
pub proof fn lemma_heads_are_extremes(quotes: Seq<AssetQuoteView>, k: int)
    requires
        0 <= k < quotes.len(),
    ensures
        0 <= gainers_order(quotes)[0] < quotes.len(),
        0 <= losers_order(quotes)[0] < quotes.len(),
        quotes[gainers_order(quotes)[0]].change_24h >= quotes[k].change_24h,
        quotes[losers_order(quotes)[0]].change_24h <= quotes[k].change_24h,
{
    let up = sort_keys(quotes, Movement::Gain);
    let down = sort_keys(quotes, Movement::Loss);
    lemma_ranking_exists(up);
    lemma_ranking_exists(down);
    lemma_head_is_largest(up, ranking(up), k);
    lemma_head_is_largest(down, ranking(down), k);
    assert(0 <= ranking(up)[0] < quotes.len());
    assert(0 <= ranking(down)[0] < quotes.len());
}

/// The selection is the first gainers followed by the first losers, as many
/// of each as [`picks_of`] says: from six assets on, three and three.
pub proof fn lemma_selection_shape(quotes: Seq<AssetQuoteView>)
    ensures
        selection(quotes).len() == 2 * picks_of(quotes.len() as int),
        quotes.len() >= 2 * PICKS ==> selection(quotes).len() == 2 * PICKS,
        forall|i: int|
            0 <= i < picks_of(quotes.len() as int) ==> #[trigger] selection(quotes)[i]
                == quotes[gainers_order(quotes)[i]],
        forall|i: int|
            0 <= i < picks_of(quotes.len() as int) ==> #[trigger] selection(quotes)[picks_of(
                quotes.len() as int,
            ) + i] == quotes[losers_order(quotes)[i]],
{
}

/// Putting the last position into a ranking of the keys before it, behind
/// every position whose key is not smaller and in front of every position
/// whose key is smaller, gives a ranking of all the keys.
proof fn lemma_insert_last(keys: Seq<int>, before: Seq<int>, place: int)
    requires
        keys.len() > 0,
        is_ranking(keys.drop_last(), before),
        0 <= place <= before.len(),
        forall|j: int| 0 <= j < place ==> keys[#[trigger] before[j]] >= keys.last(),
        place < before.len() ==> keys[before[place]] < keys.last(),
    ensures
        is_ranking(keys, before.insert(place, keys.len() - 1)),
{
    let n = keys.len() - 1;
    let shorter = keys.drop_last();
    let after = before.insert(place, n);
    assert forall|i: int| 0 <= i < after.len() implies 0 <= #[trigger] after[i] < keys.len() by {
        if i < place {
            assert(after[i] == before[i]);
        } else if i > place {
            assert(after[i] == before[i - 1]);
        }
    }
    assert forall|j: int| place <= j < n implies keys[#[trigger] before[j]] < keys[n] by {
        if j > place {
            assert(precedes(shorter, before[place], before[j]));
        }
    }
    assert forall|a: int, b: int| 0 <= a < b < after.len() implies precedes(
        keys,
        #[trigger] after[a],
        #[trigger] after[b],
    ) by {
        if b < place {
            assert(after[a] == before[a] && after[b] == before[b]);
            assert(precedes(shorter, before[a], before[b]));
        } else if b == place {
            assert(after[a] == before[a]);
        } else if a < place {
            assert(after[a] == before[a] && after[b] == before[b - 1]);
            assert(precedes(shorter, before[a], before[b - 1]));
        } else if a == place {
            assert(after[b] == before[b - 1]);
        } else {
            assert(after[a] == before[a - 1] && after[b] == before[b - 1]);
            assert(precedes(shorter, before[a - 1], before[b - 1]));
        }
    }
    assert forall|k: int| 0 <= k < keys.len() implies #[trigger] after.contains(k) by {
        if k == n {
            assert(after[place] == k);
        } else {
            assert(before.contains(k));
            let at = choose|j: int| 0 <= j < before.len() && before[j] == k;
            if at < place {
                assert(after[at] == k);
            } else {
                assert(after[at + 1] == k);
            }
        }
    }
}

/// Ranks the positions of `quotes` by movement.
fn rank(quotes: &Vec<AssetQuote>, movement: Movement) -> (order: Vec<usize>)
    ensures
        is_ranking(sort_keys(quote_views(quotes@), movement), positions(order@)),
{
    let ghost keys = sort_keys(quote_views(quotes@), movement);
    let mut order: Vec<usize> = Vec::new();
    let mut i: usize = 0;
    assert(is_ranking(keys.take(0), positions(order@)));
    while i < quotes.len()
        invariant
            i <= quotes.len(),
            keys == sort_keys(quote_views(quotes@), movement),
            order.len() == i,
            is_ranking(keys.take(i as int), positions(order@)),
        decreases quotes.len() - i,
    {
        let fresh: i64 = quotes[i].percent_change_24h.units;
        let mut p: usize = 0;
        assert forall|j: int| 0 <= j < i implies #[trigger] order@[j] < i by {
            assert(positions(order@)[j] == order@[j]);
        }
        while p < i && !comes_first(fresh, quotes[order[p]].percent_change_24h.units, movement)
            invariant
                p <= i < quotes.len(),
                order.len() == i,
                keys == sort_keys(quote_views(quotes@), movement),
                fresh == quotes[i as int].percent_change_24h.units,
                forall|j: int| 0 <= j < i ==> #[trigger] order@[j] < i,
                forall|j: int| 0 <= j < p ==> keys[#[trigger] positions(order@)[j]] >= keys[i as int],
            decreases i - p,
        {
            p = p + 1;
        }
        let ghost before = positions(order@);
        let ghost longer = keys.take(i as int + 1);
        proof {
            assert(longer.drop_last() =~= keys.take(i as int));
            lemma_insert_last(longer, before, p as int);
        }
        order.insert(p, i);
        assert(positions(order@) =~= before.insert(p as int, i as int));
        i = i + 1;
    }
    assert(keys.take(i as int) =~= keys);
    order
}

/// Whether an asset that changed by `fresh` goes before one that changed by
/// `placed` and was listed earlier.
fn comes_first(fresh: i64, placed: i64, movement: Movement) -> (yes: bool)
    ensures
        yes == match movement {
            Movement::Gain => placed < fresh,
            Movement::Loss => fresh < placed,
        },
{
    match movement {
        Movement::Gain => placed < fresh,
        Movement::Loss => fresh < placed,
    }
}

/// Some order ranks the keys of every snapshot.
pub proof fn lemma_ranking_exists(keys: Seq<int>)
    ensures
        is_ranking(keys, ranking(keys)),
    decreases keys.len(),
{
    if keys.len() == 0 {
        assert(is_ranking(keys, Seq::<int>::empty()));
    } else {
        let shorter = keys.drop_last();
        lemma_ranking_exists(shorter);
        lemma_first_smaller(keys, ranking(shorter), 0);
        lemma_insert_last(keys, ranking(shorter), first_smaller(keys, ranking(shorter), 0));
    }
}

/// The first place at or after `from` whose key is smaller than the last
/// key, or the length of `order` where there is none.
spec fn first_smaller(keys: Seq<int>, order: Seq<int>, from: int) -> int
    decreases order.len() - from,
{
    if 0 <= from < order.len() && keys[order[from]] >= keys.last() {
        first_smaller(keys, order, from + 1)
    } else {
        from
    }
}

/// What [`first_smaller`] finds: every place before it has a key that is
/// not smaller, and the place itself, if any, has a smaller one.
proof fn lemma_first_smaller(keys: Seq<int>, order: Seq<int>, from: int)
    requires
        0 <= from <= order.len(),
    ensures
        from <= first_smaller(keys, order, from) <= order.len(),
        forall|j: int|
            from <= j < first_smaller(keys, order, from) ==> keys[#[trigger] order[j]]
                >= keys.last(),
        first_smaller(keys, order, from) < order.len() ==> keys[order[first_smaller(
            keys,
            order,
            from,
        )]] < keys.last(),
    decreases order.len() - from,
{
    if from < order.len() && keys[order[from]] >= keys.last() {
        lemma_first_smaller(keys, order, from + 1);
    }
}

/// The positions of `quotes` in gainers order: largest 24-hour change
/// first, provider order among equals.
pub fn gainers(quotes: &Vec<AssetQuote>) -> (order: Vec<usize>)
    ensures
        positions(order@) == gainers_order(quote_views(quotes@)),
        is_ranking(sort_keys(quote_views(quotes@), Movement::Gain), positions(order@)),
{
    let order = rank(quotes, Movement::Gain);
    proof {
        let keys = sort_keys(quote_views(quotes@), Movement::Gain);
        lemma_ranking_unique(keys, positions(order@), ranking(keys));
    }
    order
}

/// The positions of `quotes` in losers order: smallest 24-hour change
/// first, provider order among equals.
pub fn losers(quotes: &Vec<AssetQuote>) -> (order: Vec<usize>)
    ensures
        positions(order@) == losers_order(quote_views(quotes@)),
        is_ranking(sort_keys(quote_views(quotes@), Movement::Loss), positions(order@)),
{
    let order = rank(quotes, Movement::Loss);
    proof {
        let keys = sort_keys(quote_views(quotes@), Movement::Loss);
        lemma_ranking_unique(keys, positions(order@), ranking(keys));
    }
    order
}

/// Appends to `picked` the quotes at the head of `order`.
fn take_head(quotes: &Vec<AssetQuote>, order: &Vec<usize>, picked: &mut Vec<AssetQuote>)
    requires
        order.len() == quotes.len(),
        forall|i: int| 0 <= i < order.len() ==> #[trigger] positions(order@)[i] < quotes.len(),
    ensures
        quote_views(final(picked)@) == quote_views(old(picked)@) + head_of(
            quote_views(quotes@),
            positions(order@),
        ),
{
    let count: usize = if quotes.len() < PICKS {
        quotes.len()
    } else {
        PICKS
    };
    let ghost head = head_of(quote_views(quotes@), positions(order@));
    let mut i: usize = 0;
    assert(quote_views(picked@) =~= quote_views(old(picked)@) + head.take(0));
    while i < count
        invariant
            i <= count <= quotes.len(),
            count == picks_of(quotes.len() as int),
            order.len() == quotes.len(),
            forall|j: int| 0 <= j < order.len() ==> #[trigger] positions(order@)[j] < quotes.len(),
            head == head_of(quote_views(quotes@), positions(order@)),
            quote_views(picked@) == quote_views(old(picked)@) + head.take(i as int),
        decreases count - i,
    {
        let ghost before = quote_views(picked@);
        assert(positions(order@)[i as int] == order[i as int]);
        let quote = quotes[order[i]].clone();
        picked.push(quote);
        assert(quote_views(picked@) =~= before.push(quote@));
        assert(head.take(i as int + 1) =~= head.take(i as int).push(quote@));
        assert(quote_views(picked@) =~= quote_views(old(picked)@) + head.take(i as int + 1));
        i = i + 1;
    }
    assert(head.take(i as int) =~= head);
}

/// Chooses the day's assets: the first three gainers, then the first three
/// losers, fewer of each where the snapshot is shorter. Nothing is removed
/// for appearing twice.
pub fn select(quotes: &Vec<AssetQuote>) -> (picked: Vec<AssetQuote>)
    ensures
        quote_views(picked@) == selection(quote_views(quotes@)),
        picked.len() == 2 * picks_of(quotes.len() as int),
{
    let rising = gainers(quotes);
    let falling = losers(quotes);
    let mut picked: Vec<AssetQuote> = Vec::new();
    take_head(quotes, &rising, &mut picked);
    take_head(quotes, &falling, &mut picked);
    assert(quote_views(picked@) =~= selection(quote_views(quotes@)));
    assert(quote_views(picked@).len() == picked@.len());
    picked
}

} // verus!
