//! The daily cache: date keys, where a day's record lives on disk, and the
//! store that keeps digests in memory.
//!
//! A date key is a calendar day written `YYYY-MM-DD`. The record of a day is
//! the file `data/<key>.json`. The in-memory store holds at most one digest
//! per day; storing a day again replaces what was there.

use vstd::prelude::*;
use vstd::string::*;
use crate::digest::{digest_view, DigestEntry, DigestEntryView};

verus! {

/// Whether `c` is one of the digits `0` to `9`.
pub open spec fn is_digit(c: char) -> bool {
    '0' <= c && c <= '9'
}

/// Whether `text` has the shape `YYYY-MM-DD`: ten characters, digits but for
/// a hyphen after the year and one after the month.
pub open spec fn date_shaped(text: Seq<char>) -> bool {
    &&& text.len() == 10
    &&& forall|i: int| 0 <= i < 10 ==> if i == 4 || i == 7 {
        #[trigger] text[i] == '-'
    } else {
        is_digit(#[trigger] text[i])
    }
}

/// The path of the record of the day `day`.
pub open spec fn record_path(day: Seq<char>) -> Seq<char> {
    "data/"@ + day + ".json"@
}

/// A calendar day, written `YYYY-MM-DD`.
#[derive(Debug, PartialEq, Eq)]
pub struct DateKey {
    text: String,
}

impl View for DateKey {
    type V = Seq<char>;

    closed spec fn view(&self) -> Seq<char> {
        self.text@
    }
}

impl DateKey {
    #[verifier::type_invariant]
    spec fn holds(self) -> bool {
        date_shaped(self.text@)
    }

    /// Takes `text` as a date key if it has the shape of one.
    pub fn parse(text: &str) -> (key: Option<DateKey>)
        ensures
            key is Some <==> date_shaped(text@),
            key matches Some(k) ==> k@ == text@,
    {
        if text.unicode_len() != 10 {
            return None;
        }
        let mut i: usize = 0;
        while i < 10
            invariant
                i <= 10,
                text@.len() == 10,
                forall|k: int| 0 <= k < i ==> if k == 4 || k == 7 {
                    #[trigger] text@[k] == '-'
                } else {
                    is_digit(#[trigger] text@[k])
                },
            decreases 10 - i,
        {
            let c = text.get_char(i);
            if i == 4 || i == 7 {
                if c != '-' {
                    return None;
                }
            } else {
                if !('0' <= c && c <= '9') {
                    assert(!is_digit(text@[i as int]));
                    return None;
                }
            }
            i = i + 1;
        }
        Some(DateKey { text: String::from_str(text) })
    }

    /// The key as text.
    pub fn as_str(&self) -> (text: &str)
        ensures
            text@ == self@,
            date_shaped(self@),
    {
        proof {
            use_type_invariant(self);
        }
        self.text.as_str()
    }

    /// Whether two keys name the same day.
    pub fn same_day(&self, other: &DateKey) -> (same: bool)
        ensures
            same == (self@ == other@),
    {
        self.text == other.text
    }

    /// A copy of the key.
    pub fn duplicate(&self) -> (copy: DateKey)
        ensures
            copy@ == self@,
    {
        proof {
            use_type_invariant(self);
        }
        DateKey { text: self.text.clone() }
    }
}

/// What `chrono` writes for the UTC day of the instant `seconds` seconds
/// after the start of 1970, with the format `%Y-%m-%d`; `None` for an
/// instant outside the range of its calendar.
pub uninterp spec fn utc_day_text(seconds: i64) -> Option<Seq<char>>;

/// Reads the system clock with `std::time::SystemTime::now` and gives the
/// whole seconds since the start of 1970; `None` where the clock stands
/// before that. Nothing is claimed of the number, which depends on the time
/// of the call.
#[verifier::external_body]
fn clock_seconds() -> (seconds: Option<i64>) {
    let since = std::time::SystemTime::now().duration_since(std::time::UNIX_EPOCH).ok()?;
    i64::try_from(since.as_secs()).ok()
}

/// Writes the UTC day of an instant: `chrono::DateTime::from_timestamp`,
/// then `format("%Y-%m-%d")` written into a string. The contract gives the
/// text its name and claims only that it depends on the instant alone.
#[verifier::external_body]
fn format_day(seconds: i64) -> (text: Option<String>)
    ensures
        match text {
            Some(t) => utc_day_text(seconds) == Some(t@),
            None => utc_day_text(seconds) is None,
        },
{
    let at = chrono::DateTime::from_timestamp(seconds, 0)?;
    let mut text = String::new();
    at.format("%Y-%m-%d").write_to(&mut text).ok()?;
    Some(text)
}

/// The key of the UTC day of the instant `seconds` seconds after the start
/// of 1970, or `None` where that day is not written `YYYY-MM-DD`.
pub fn day_at(seconds: i64) -> (key: Option<DateKey>)
    ensures
        key is Some <==> (utc_day_text(seconds) matches Some(text) && date_shaped(text)),
        key matches Some(k) ==> utc_day_text(seconds) == Some(k@),
{
    match format_day(seconds) {
        Some(text) => DateKey::parse(text.as_str()),
        None => None,
    }
}

/// The key of the current day in UTC: the day of the instant that the clock
/// shows. `None` where the clock cannot be read as an instant since 1970 or
/// shows a day that is not written `YYYY-MM-DD`.
pub fn today() -> (key: Option<DateKey>)
    ensures
        key matches Some(k) ==> date_shaped(k@) && exists|seconds: i64|
            #[trigger] utc_day_text(seconds) == Some(k@),
{
    match clock_seconds() {
        Some(seconds) => {
            let key = day_at(seconds);
            assert(key matches Some(k) ==> utc_day_text(seconds) == Some(k@));
            key
        },
        None => None,
    }
}

/// Where the record of a day is kept.
pub fn cache_path(day: &DateKey) -> (path: String)
    ensures
        path@ == record_path(day@),
{
    let mut path = String::from_str("data/");
    path.append(day.as_str());
    path.append(".json");
    path
}

/// One stored day.
struct Record {
    day: DateKey,
    digest: Vec<DigestEntry>,
}

/// Digests kept in memory, one per day.
pub struct DailyCache {
    records: Vec<Record>,
}

/// The days of a list of records.
spec fn days_of(records: Seq<Record>) -> Seq<Seq<char>> {
    records.map_values(|r: Record| r.day@)
}

/// Whether `at` is the place of `day` among the records.
spec fn stored_at(records: Seq<Record>, day: Seq<char>, at: int) -> bool {
    0 <= at < records.len() && records[at].day@ == day
}

impl View for DailyCache {
    type V = Map<Seq<char>, Seq<DigestEntryView>>;

    closed spec fn view(&self) -> Map<Seq<char>, Seq<DigestEntryView>> {
        Map::new(
            |day: Seq<char>| exists|at: int| stored_at(self.records@, day, at),
            |day: Seq<char>|
                digest_view(
                    self.records@[choose|at: int| stored_at(self.records@, day, at)].digest@,
                ),
        )
    }
}

impl DailyCache {
    #[verifier::type_invariant]
    spec fn holds(self) -> bool {
        forall|i: int, j: int|
            0 <= i < j < self.records@.len() ==> (#[trigger] self.records@[i]).day@
                != (#[trigger] self.records@[j]).day@
    }

    /// A store with no day in it.
    pub fn new() -> (cache: DailyCache)
        ensures
            cache@ == Map::<Seq<char>, Seq<DigestEntryView>>::empty(),
    {
        let cache = DailyCache { records: Vec::new() };
        assert(cache@ =~= Map::<Seq<char>, Seq<DigestEntryView>>::empty());
        cache
    }

    /// The place of `day` among the records.
    fn find(&self, day: &DateKey) -> (found: Option<usize>)
        ensures
            match found {
                Some(at) => stored_at(self.records@, day@, at as int),
                None => forall|at: int| !stored_at(self.records@, day@, at),
            },
    {
        let mut i: usize = 0;
        while i < self.records.len()
            invariant
                i <= self.records.len(),
                forall|at: int| 0 <= at < i ==> !stored_at(self.records@, day@, at),
            decreases self.records.len() - i,
        {
            if self.records[i].day.same_day(day) {
                return Some(i);
            }
            i = i + 1;
        }
        None
    }

    /// The digest stored for `day`, if there is one.
    pub fn get(&self, day: &DateKey) -> (found: Option<&Vec<DigestEntry>>)
        ensures
            match found {
                Some(digest) => self@.dom().contains(day@) && self@[day@] == digest_view(digest@),
                None => !self@.dom().contains(day@),
            },
    {
        proof {
            use_type_invariant(self);
        }
        match self.find(day) {
            Some(at) => {
                proof {
                    let chosen = choose|k: int| stored_at(self.records@, day@, k);
                    assert(stored_at(self.records@, day@, at as int));
                    assert(chosen == at);
                }
                Some(&self.records[at].digest)
            },
            None => None,
        }
    }

    /// Stores `digest` as the digest of `day`, in place of any other, and
    /// hands the store back.
    pub fn put(self, day: &DateKey, digest: Vec<DigestEntry>) -> (next: DailyCache)
        ensures
            next@ == self@.insert(day@, digest_view(digest@)),
    {
        proof {
            use_type_invariant(&self);
        }
        let found = self.find(day);
        let ghost before = self.records@;
        let record = Record { day: day.duplicate(), digest };
        let mut records = self.records;
        match found {
            Some(at) => {
                records.set(at, record);
            },
            None => {
                records.push(record);
            },
        }
        let ghost after = records@;
        assert forall|i: int, j: int| 0 <= i < j < after.len() implies (#[trigger] after[i]).day@
            != (#[trigger] after[j]).day@ by {
            match found {
                Some(at) => {
                    assert(stored_at(before, day@, at as int));
                    assert(before[i].day@ != before[j].day@);
                },
                None => {
                    assert(!stored_at(before, day@, i));
                    if j < before.len() {
                        assert(before[i].day@ != before[j].day@);
                    }
                },
            }
        }
        let next = DailyCache { records };
        proof {
            let wanted = self@.insert(day@, digest_view(digest@));
            assert forall|other: Seq<char>| #[trigger] next@.dom().contains(other)
                == wanted.dom().contains(other) by {
                if other == day@ {
                    if exists|k: int| stored_at(before, day@, k) {
                        let k = choose|k: int| stored_at(before, day@, k);
                        assert(stored_at(after, day@, k));
                    } else {
                        assert(stored_at(after, day@, after.len() - 1));
                    }
                } else {
                    if exists|k: int| stored_at(before, other, k) {
                        let k = choose|k: int| stored_at(before, other, k);
                        assert(stored_at(after, other, k));
                    }
                    if exists|k: int| stored_at(after, other, k) {
                        let k = choose|k: int| stored_at(after, other, k);
                        assert(stored_at(before, other, k));
                    }
                }
            }
            assert forall|other: Seq<char>| #[trigger]
                next@.dom().contains(other) implies next@[other] == wanted[other] by {
                let k = choose|k: int| stored_at(after, other, k);
                assert(stored_at(after, other, k));
                if other != day@ {
                    assert(stored_at(before, other, k));
                    let b = choose|b: int| stored_at(before, other, b);
                    assert(b == k);
                }
            }
            assert(next@ =~= wanted);
        }
        next
    }

    /// How many days are stored.
    pub fn len(&self) -> (count: usize)
        ensures
            count == self@.dom().len(),
            self@.dom().finite(),
    {
        proof {
            use_type_invariant(self);
            lemma_days_counted(self.records@);
            assert(self@.dom() =~= days_of(self.records@).to_set());
        }
        self.records.len()
    }
}

/// Records of distinct days make as many days as there are records.
proof fn lemma_days_counted(records: Seq<Record>)
    requires
        forall|i: int, j: int|
            0 <= i < j < records.len() ==> (#[trigger] records[i]).day@ != (#[trigger] records[j]).day@,
    ensures
        days_of(records).to_set().len() == records.len(),
        days_of(records).to_set().finite(),
        forall|day: Seq<char>|
            days_of(records).to_set().contains(day) <==> exists|at: int|
                stored_at(records, day, at),
{
    let days = days_of(records);
    assert(days.no_duplicates());
    days.unique_seq_to_set();
    assert forall|day: Seq<char>| days.to_set().contains(day) <==> exists|at: int|
        stored_at(records, day, at) by {
        if days.to_set().contains(day) {
            let at = choose|at: int| 0 <= at < days.len() && days[at] == day;
            assert(stored_at(records, day, at));
        }
        if exists|at: int| stored_at(records, day, at) {
            let at = choose|at: int| stored_at(records, day, at);
            assert(days[at] == day);
        }
    }
}

/// What was stored last for a day is what the store holds for it, and the
/// other days are as they were.
pub proof fn lemma_round_trip(
    store: Map<Seq<char>, Seq<DigestEntryView>>,
    day: Seq<char>,
    digest: Seq<DigestEntryView>,
    other: Seq<char>,
)
    requires
        other != day,
    ensures
        store.insert(day, digest).dom().contains(day),
        store.insert(day, digest)[day] == digest,
        store.insert(day, digest).dom().contains(other) == store.dom().contains(other),
        store.dom().contains(other) ==> store.insert(day, digest)[other] == store[other],
{
}

/// The store after a series of writes to an empty store.
pub open spec fn written(writes: Seq<(Seq<char>, Seq<DigestEntryView>)>) -> Map<
    Seq<char>,
    Seq<DigestEntryView>,
>
    decreases writes.len(),
{
    if writes.len() == 0 {
        Map::empty()
    } else {
        written(writes.drop_last()).insert(writes.last().0, writes.last().1)
    }
}

/// A day that was never written is not in the store.
pub proof fn lemma_never_written(writes: Seq<(Seq<char>, Seq<DigestEntryView>)>, day: Seq<char>)
    requires
        forall|i: int| 0 <= i < writes.len() ==> (#[trigger] writes[i]).0 != day,
    ensures
        !written(writes).dom().contains(day),
    decreases writes.len(),
{
    if writes.len() > 0 {
        lemma_never_written(writes.drop_last(), day);
    }
}

} // verus!
