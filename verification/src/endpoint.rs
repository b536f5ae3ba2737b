//! The serving endpoint: what one request for the day's digest leads to.
//!
//! The day's record is read first. If it is there, it is the answer, and no
//! provider is asked anything. If it is not, the market snapshot is fetched
//! once, the digest is built asset by asset, the record is written once, and
//! the digest is the answer. A snapshot that cannot be had, or a record that
//! cannot be written, ends the request with a failure in words.
//!
//! Digests kept in memory stand in front of the records on disk: a request
//! for a day that is held there is answered from there without any action,
//! and a digest is taken in when, and only when, its record was written.
//!
//! Requests are served independently of one another. Two requests that both
//! find no record each build the digest, and the record written last is the
//! one that stays.
//!
//! Like the builder, the endpoint does no outside work: it names the next
//! action and takes in what came of it. An event that does not answer what
//! is awaited changes nothing.

use vstd::prelude::*;
use vstd::string::*;
use crate::builder::{
    lemma_wf_kept, BuildAction, BuildActionView, BuildEvent, BuildEventView, BuildState,
    DigestBuilder,
};
use crate::cache::{cache_path, record_path, DailyCache, DateKey};
use crate::digest::{copy_digest, digest_view, DigestEntry, DigestEntryView};
use crate::market::{read_snapshot, snapshot_in, SnapshotReply};
use crate::quote::AssetQuoteView;
use crate::ranking::{lemma_selection_shape, picks_of, selection};

verus! {

/// The route that serves the digest.
pub const ROUTE: &'static str = "/crypto-summary";

/// The status of an answer that carries the digest.
pub const STATUS_OK: u16 = 200;

/// The status of an answer that carries a failure.
pub const STATUS_SERVER_ERROR: u16 = 500;

/// The answer to a request.
#[derive(Debug, PartialEq, Eq)]
pub enum Response {
    /// The day's digest, to be sent as a JSON array.
    Digest(Vec<DigestEntry>),
    /// A failure in words, to be sent as plain text.
    Failure(String),
}

/// The mathematical content of a [`Response`].
pub enum ResponseView {
    Digest(Seq<DigestEntryView>),
    Failure(Seq<char>),
}

impl View for Response {
    type V = ResponseView;

    open spec fn view(&self) -> ResponseView {
        match self {
            Response::Digest(entries) => ResponseView::Digest(digest_view(entries@)),
            Response::Failure(text) => ResponseView::Failure(text@),
        }
    }
}

impl Response {
    /// The HTTP status of the answer: 200 with a digest, 500 with a failure.
    pub fn status(&self) -> (code: u16)
        ensures
            code == match self {
                Response::Digest(_) => STATUS_OK,
                Response::Failure(_) => STATUS_SERVER_ERROR,
            },
    {
        match self {
            Response::Digest(_) => STATUS_OK,
            Response::Failure(_) => STATUS_SERVER_ERROR,
        }
    }

    /// A copy of the answer.
    pub fn duplicate(&self) -> (copy: Response)
        ensures
            copy@ == self@,
    {
        match self {
            Response::Digest(entries) => Response::Digest(copy_digest(entries)),
            Response::Failure(text) => Response::Failure(text.clone()),
        }
    }
}

/// What the endpoint asks its driver to do next.
#[derive(Debug, PartialEq, Eq)]
pub enum ServeAction {
    /// Read the record at `path`.
    ReadCache { path: String },
    /// Fetch the latest listings.
    FetchSnapshot,
    /// Do what the build asks for.
    Build(BuildAction),
    /// Write `digest` as the record at `path`, in place of any other.
    WriteCache { path: String, digest: Vec<DigestEntry> },
    /// Send the answer.
    Respond(Response),
}

/// What the driver reports back.
#[derive(Debug)]
pub enum ServeEvent {
    /// The record read, or `None` where there is none that can be read.
    CacheRead(Option<Vec<DigestEntry>>),
    /// What came of fetching the listings.
    Snapshot(SnapshotReply),
    /// What came of an action of the build.
    Build(BuildEvent),
    /// The record was written, or could not be, for the reason given.
    Stored(Result<(), String>),
}

/// The mathematical content of a [`ServeAction`].
pub enum ServeActionView {
    ReadCache { path: Seq<char> },
    FetchSnapshot,
    Build(BuildActionView),
    WriteCache { path: Seq<char>, digest: Seq<DigestEntryView> },
    Respond(ResponseView),
}

/// The mathematical content of a [`ServeEvent`]: of the listings only the
/// snapshot that they yield, of a failed write only its reason.
pub enum ServeEventView {
    CacheRead(Option<Seq<DigestEntryView>>),
    Snapshot(Option<Seq<AssetQuoteView>>),
    Build(BuildEventView),
    Stored(Option<Seq<char>>),
}

impl View for ServeAction {
    type V = ServeActionView;

    open spec fn view(&self) -> ServeActionView {
        match self {
            ServeAction::ReadCache { path } => ServeActionView::ReadCache { path: path@ },
            ServeAction::FetchSnapshot => ServeActionView::FetchSnapshot,
            ServeAction::Build(action) => ServeActionView::Build(action@),
            ServeAction::WriteCache { path, digest } => ServeActionView::WriteCache {
                path: path@,
                digest: digest_view(digest@),
            },
            ServeAction::Respond(response) => ServeActionView::Respond(response@),
        }
    }
}

impl View for ServeEvent {
    type V = ServeEventView;

    open spec fn view(&self) -> ServeEventView {
        match self {
            ServeEvent::CacheRead(Some(entries)) => ServeEventView::CacheRead(
                Some(digest_view(entries@)),
            ),
            ServeEvent::CacheRead(None) => ServeEventView::CacheRead(None),
            ServeEvent::Snapshot(reply) => ServeEventView::Snapshot(snapshot_in(*reply)),
            ServeEvent::Build(event) => ServeEventView::Build(event@),
            ServeEvent::Stored(Ok(_)) => ServeEventView::Stored(None),
            ServeEvent::Stored(Err(reason)) => ServeEventView::Stored(Some(reason@)),
        }
    }
}

/// How far a request has come.
pub enum ServeStage {
    /// The day's record is being read.
    Reading,
    /// The listings are being fetched.
    Fetching,
    /// The digest is being built.
    Building(BuildState),
    /// The record is being written.
    Writing(Seq<DigestEntryView>),
    /// The answer is known.
    Answered(ResponseView),
}

/// The state of a request as mathematical values.
pub struct ServeState {
    pub day: Seq<char>,
    pub stage: ServeStage,
}

/// The failure reported where no snapshot could be had.
pub open spec fn no_snapshot_text() -> Seq<char> {
    "Failed to generate summaries"@
}

/// The failure reported where the record could not be written.
pub open spec fn not_stored_text(reason: Seq<char>) -> Seq<char> {
    "Failed to fetch and store summaries: "@ + reason
}

/// The stage that a build in state `build` puts the request in.
pub open spec fn stage_of_build(build: BuildState) -> ServeStage {
    if build.stage is Finished {
        ServeStage::Writing(build.entries)
    } else {
        ServeStage::Building(build)
    }
}

impl ServeState {
    /// The state in which a request for the day `day` starts.
    pub open spec fn initial(day: Seq<char>) -> ServeState {
        ServeState { day, stage: ServeStage::Reading }
    }

    /// The state in which a request for the day `day` starts with the
    /// digests `held` in memory: answered where the day is held, at the read
    /// of the record where it is not.
    pub open spec fn started(
        day: Seq<char>,
        held: Map<Seq<char>, Seq<DigestEntryView>>,
    ) -> ServeState {
        if held.dom().contains(day) {
            ServeState { day, stage: ServeStage::Answered(ResponseView::Digest(held[day])) }
        } else {
            ServeState::initial(day)
        }
    }

    /// What holds of every state that a request can be in.
    pub open spec fn wf(self) -> bool {
        self.stage matches ServeStage::Building(build) ==> build.wf() && !(build.stage is Finished)
    }

    /// What the driver is to do in this state.
    pub open spec fn pending(self) -> ServeActionView {
        match self.stage {
            ServeStage::Reading => ServeActionView::ReadCache { path: record_path(self.day) },
            ServeStage::Fetching => ServeActionView::FetchSnapshot,
            ServeStage::Building(build) => ServeActionView::Build(build.pending()),
            ServeStage::Writing(digest) => ServeActionView::WriteCache {
                path: record_path(self.day),
                digest,
            },
            ServeStage::Answered(response) => ServeActionView::Respond(response),
        }
    }

    /// Whether `event` answers what this state is waiting for.
    pub open spec fn awaits(self, event: ServeEventView) -> bool {
        match (self.stage, event) {
            (ServeStage::Reading, ServeEventView::CacheRead(_)) => true,
            (ServeStage::Fetching, ServeEventView::Snapshot(_)) => true,
            (ServeStage::Building(build), ServeEventView::Build(e)) => build.awaits(e),
            (ServeStage::Writing(_), ServeEventView::Stored(_)) => true,
            _ => false,
        }
    }

    /// The state after `event`.
    pub open spec fn advance(self, event: ServeEventView) -> ServeState {
        match (self.stage, event) {
            (ServeStage::Reading, ServeEventView::CacheRead(Some(digest))) => ServeState {
                stage: ServeStage::Answered(ResponseView::Digest(digest)),
                ..self
            },
            (ServeStage::Reading, ServeEventView::CacheRead(None)) => ServeState {
                stage: ServeStage::Fetching,
                ..self
            },
            (ServeStage::Fetching, ServeEventView::Snapshot(Some(quotes))) => ServeState {
                stage: stage_of_build(BuildState::initial(selection(quotes))),
                ..self
            },
            (ServeStage::Fetching, ServeEventView::Snapshot(None)) => ServeState {
                stage: ServeStage::Answered(ResponseView::Failure(no_snapshot_text())),
                ..self
            },
            (ServeStage::Building(build), ServeEventView::Build(e)) => ServeState {
                stage: stage_of_build(build.advance(e)),
                ..self
            },
            (ServeStage::Writing(digest), ServeEventView::Stored(None)) => ServeState {
                stage: ServeStage::Answered(ResponseView::Digest(digest)),
                ..self
            },
            (ServeStage::Writing(_), ServeEventView::Stored(Some(reason))) => ServeState {
                stage: ServeStage::Answered(ResponseView::Failure(not_stored_text(reason))),
                ..self
            },
            _ => self,
        }
    }

    /// The state after a run of events, taken in order.
    pub open spec fn run(self, events: Seq<ServeEventView>) -> ServeState
        decreases events.len(),
    {
        if events.len() == 0 {
            self
        } else {
            self.advance(events[0]).run(events.skip(1))
        }
    }

    /// Whether each event of the run answers the action pending when it
    /// arrives.
    pub open spec fn driven_by(self, events: Seq<ServeEventView>) -> bool
        decreases events.len(),
    {
        events.len() == 0 || (self.awaits(events[0]) && self.advance(events[0]).driven_by(
            events.skip(1),
        ))
    }

    /// How many news lookups are still to be asked for, once the build has
    /// begun.
    pub open spec fn lookups_left(self) -> int {
        match self.stage {
            ServeStage::Building(build) => build.lookups_left(),
            _ => 0,
        }
    }

    /// How many summaries are still to be asked for, once the build has
    /// begun.
    pub open spec fn summaries_left(self) -> int {
        match self.stage {
            ServeStage::Building(build) => build.summaries_left(),
            _ => 0,
        }
    }

    /// How many writes of the record are still to be asked for, once the
    /// build has begun.
    pub open spec fn writes_left(self) -> int {
        match self.stage {
            ServeStage::Building(_) | ServeStage::Writing(_) => 1,
            _ => 0,
        }
    }
}

/// The digests held in memory after a write of the record of `day`: with
/// `digest` for that day where the write succeeded, as before where it did
/// not.
pub open spec fn held_after(
    held: Map<Seq<char>, Seq<DigestEntryView>>,
    day: Seq<char>,
    digest: Seq<DigestEntryView>,
    written: bool,
) -> Map<Seq<char>, Seq<DigestEntryView>> {
    if written {
        held.insert(day, digest)
    } else {
        held
    }
}

/// What a run asked of the outside: how many reads of the record, fetches of
/// the listings, news lookups, completions and writes of the record its
/// events report on.
pub struct Tally {
    pub reads: int,
    pub fetches: int,
    pub lookups: int,
    pub summaries: int,
    pub writes: int,
}

/// The tally of a run.
pub open spec fn tally(events: Seq<ServeEventView>) -> Tally
    decreases events.len(),
{
    if events.len() == 0 {
        Tally { reads: 0, fetches: 0, lookups: 0, summaries: 0, writes: 0 }
    } else {
        let rest = tally(events.skip(1));
        match events[0] {
            ServeEventView::CacheRead(_) => Tally { reads: rest.reads + 1, ..rest },
            ServeEventView::Snapshot(_) => Tally { fetches: rest.fetches + 1, ..rest },
            ServeEventView::Build(BuildEventView::News(_)) => Tally {
                lookups: rest.lookups + 1,
                ..rest
            },
            ServeEventView::Build(BuildEventView::Summary(_)) => Tally {
                summaries: rest.summaries + 1,
                ..rest
            },
            ServeEventView::Build(BuildEventView::Paused) => rest,
            ServeEventView::Stored(_) => Tally { writes: rest.writes + 1, ..rest },
        }
    }
}

/// Every request starts in a well-formed state, and no event leads out of
/// the well-formed states.
pub proof fn lemma_serve_wf_kept(state: ServeState, event: ServeEventView)
    ensures
        ServeState::initial(state.day).wf(),
        state.wf() ==> state.advance(event).wf(),
{
    if state.wf() {
        match (state.stage, event) {
            (ServeStage::Fetching, ServeEventView::Snapshot(Some(quotes))) => {
                lemma_wf_kept(BuildState::initial(selection(quotes)), BuildEventView::Paused);
            },
            (ServeStage::Building(build), ServeEventView::Build(e)) => {
                lemma_wf_kept(build, e);
            },
            _ => {},
        }
    }
}

/// Once the answer is known, nothing changes it.
pub proof fn lemma_answer_is_final(state: ServeState, events: Seq<ServeEventView>)
    requires
        state.stage is Answered,
    ensures
        state.run(events) == state,
    decreases events.len(),
{
    if events.len() > 0 {
        lemma_answer_is_final(state.advance(events[0]), events.skip(1));
    }
}

/// With the day's record in the cache, the request is answered with that
/// record at once: the only action before the answer is the read, and no
/// provider is asked anything, whatever is reported afterwards.
pub proof fn lemma_cache_hit(
    day: Seq<char>,
    record: Seq<DigestEntryView>,
    later: Seq<ServeEventView>,
)
    ensures
        ServeState::initial(day).pending() == (ServeActionView::ReadCache {
            path: record_path(day),
        }),
        ServeState::initial(day).advance(ServeEventView::CacheRead(Some(record))).pending()
            == ServeActionView::Respond(ResponseView::Digest(record)),
        ServeState::initial(day).advance(ServeEventView::CacheRead(Some(record))).run(
            later,
        ).pending() == ServeActionView::Respond(ResponseView::Digest(record)),
{
    lemma_answer_is_final(
        ServeState::initial(day).advance(ServeEventView::CacheRead(Some(record))),
        later,
    );
}

/// A day held in memory is answered from there: the request starts with
/// its answer, asks for no action before it, and nothing that is reported
/// afterwards changes it.
pub proof fn lemma_memory_hit(
    day: Seq<char>,
    held: Map<Seq<char>, Seq<DigestEntryView>>,
    later: Seq<ServeEventView>,
)
    requires
        held.dom().contains(day),
    ensures
        ServeState::started(day, held).pending() == ServeActionView::Respond(
            ResponseView::Digest(held[day]),
        ),
        ServeState::started(day, held).run(later) == ServeState::started(day, held),
{
    lemma_answer_is_final(ServeState::started(day, held), later);
}

/// A digest taken in after its record was written is what the next request
/// for that day starts with as its answer.
pub proof fn lemma_written_is_held(
    held: Map<Seq<char>, Seq<DigestEntryView>>,
    day: Seq<char>,
    digest: Seq<DigestEntryView>,
)
    ensures
        ServeState::started(day, held_after(held, day, digest, true)).stage
            == ServeStage::Answered(ResponseView::Digest(digest)),
        ServeState::started(day, held_after(held, day, digest, false)) == ServeState::started(
            day,
            held,
        ),
{
}

/// From the build on, a run that ends with the answer asks for no read and
/// no fetch, for as many lookups and completions as the build had left, and
/// for exactly one write of the record.
pub proof fn lemma_tally_from_build(state: ServeState, events: Seq<ServeEventView>)
    requires
        state.wf(),
        state.stage is Building || state.stage is Writing || state.stage is Answered,
        state.driven_by(events),
        state.run(events).stage is Answered,
    ensures
        tally(events).reads == 0,
        tally(events).fetches == 0,
        tally(events).lookups == state.lookups_left(),
        tally(events).summaries == state.summaries_left(),
        tally(events).writes == state.writes_left(),
    decreases events.len(),
{
    if events.len() > 0 {
        lemma_serve_wf_kept(state, events[0]);
        lemma_tally_from_build(state.advance(events[0]), events.skip(1));
    }
}

/// What a whole request asks of the outside, from its start to its answer.
///
/// The record is read once. On a hit nothing else is asked. On a miss the
/// listings are fetched once; without a snapshot nothing more is asked; with
/// one, there is one lookup and one completion per selected asset, six of
/// each for a snapshot of six assets or more, and one write of the record.
pub proof fn lemma_request_tally(day: Seq<char>, events: Seq<ServeEventView>)
    requires
        ServeState::initial(day).driven_by(events),
        ServeState::initial(day).run(events).stage is Answered,
    ensures
        events.len() > 0,
        tally(events).reads == 1,
        events[0] matches ServeEventView::CacheRead(Some(_)) ==> {
            &&& tally(events).fetches == 0
            &&& tally(events).lookups == 0
            &&& tally(events).summaries == 0
            &&& tally(events).writes == 0
        },
        events[0] matches ServeEventView::CacheRead(None) ==> {
            &&& events.len() > 1
            &&& tally(events).fetches == 1
            &&& events[1] matches ServeEventView::Snapshot(None) ==> {
                &&& tally(events).lookups == 0
                &&& tally(events).summaries == 0
                &&& tally(events).writes == 0
            }
            &&& events[1] matches ServeEventView::Snapshot(Some(quotes)) ==> {
                &&& tally(events).lookups == 2 * picks_of(quotes.len() as int)
                &&& tally(events).summaries == 2 * picks_of(quotes.len() as int)
                &&& tally(events).writes == 1
                &&& quotes.len() >= 6 ==> tally(events).lookups == 6 && tally(events).summaries
                    == 6
            }
        },
{
    let start = ServeState::initial(day);
    assert(events.len() > 0) by {
        if events.len() == 0 {
            assert(start.run(events) == start);
        }
    }
    let first = events[0];
    let second_state = start.advance(first);
    let rest = events.skip(1);
    assert(start.awaits(first));
    assert(second_state.driven_by(rest));
    assert(start.run(events) == second_state.run(rest));
    lemma_serve_wf_kept(start, first);
    match first {
        ServeEventView::CacheRead(Some(_)) => {
            lemma_tally_from_build(second_state, rest);
        },
        ServeEventView::CacheRead(None) => {
            assert(rest.len() > 0) by {
                if rest.len() == 0 {
                    assert(second_state.run(rest) == second_state);
                }
            }
            let second = rest[0];
            let third_state = second_state.advance(second);
            let tail = rest.skip(1);
            assert(events[1] == second);
            assert(second_state.awaits(second));
            assert(third_state.driven_by(tail));
            assert(second_state.run(rest) == third_state.run(tail));
            lemma_serve_wf_kept(second_state, second);
            lemma_tally_from_build(third_state, tail);
            assert(tally(rest).fetches == tally(tail).fetches + 1);
            match second {
                ServeEventView::Snapshot(Some(quotes)) => {
                    lemma_selection_shape(quotes);
                },
                _ => {},
            }
        },
        _ => {},
    }
}

/// How far a request has come, with what it holds.
enum Progress {
    Reading,
    Fetching,
    Building(DigestBuilder),
    Writing(Vec<DigestEntry>),
    Answered(Response),
}

/// A request being served.
pub struct Serving {
    day: DateKey,
    progress: Progress,
}

impl View for Serving {
    type V = ServeState;

    closed spec fn view(&self) -> ServeState {
        ServeState {
            day: self.day@,
            stage: match self.progress {
                Progress::Reading => ServeStage::Reading,
                Progress::Fetching => ServeStage::Fetching,
                Progress::Building(builder) => ServeStage::Building(builder@),
                Progress::Writing(digest) => ServeStage::Writing(digest_view(digest@)),
                Progress::Answered(response) => ServeStage::Answered(response@),
            },
        }
    }
}

/// The progress that a build puts the request in.
fn progress_of(builder: DigestBuilder) -> (progress: Progress)
    ensures
        match progress {
            Progress::Building(b) => stage_of_build(builder@) == ServeStage::Building(b@)
                && !(b@.stage is Finished),
            Progress::Writing(digest) => stage_of_build(builder@) == ServeStage::Writing(
                digest_view(digest@),
            ),
            _ => false,
        },
{
    if builder.is_finished() {
        Progress::Writing(builder.into_digest())
    } else {
        Progress::Building(builder)
    }
}

impl Serving {
    #[verifier::type_invariant]
    spec fn holds(self) -> bool {
        self.progress matches Progress::Building(builder) ==> !(builder@.stage is Finished)
    }

    /// Starts serving a request for the digest of `day`.
    pub fn begin(day: DateKey) -> (serving: Serving)
        ensures
            serving@ == ServeState::initial(day@),
    {
        Serving { day, progress: Progress::Reading }
    }

    /// Starts serving a request for the digest of `day` with the digests
    /// `held` in memory.
    pub fn begin_with(day: DateKey, held: &DailyCache) -> (serving: Serving)
        ensures
            serving@ == ServeState::started(day@, held@),
    {
        let progress = match held.get(&day) {
            Some(digest) => Progress::Answered(Response::Digest(copy_digest(digest))),
            None => Progress::Reading,
        };
        Serving { day, progress }
    }

    /// The day whose digest is asked for.
    pub fn day(&self) -> (day: &DateKey)
        ensures
            day@ == self@.day,
    {
        &self.day
    }

    /// Whether the answer is known.
    pub fn is_answered(&self) -> (done: bool)
        ensures
            done == (self@.stage is Answered),
    {
        match &self.progress {
            Progress::Answered(_) => true,
            _ => false,
        }
    }

    /// The answer, once it is known.
    pub fn response(&self) -> (response: Option<&Response>)
        ensures
            match response {
                Some(r) => self@.stage == ServeStage::Answered(r@),
                None => !(self@.stage is Answered),
            },
    {
        match &self.progress {
            Progress::Answered(response) => Some(response),
            _ => None,
        }
    }

    /// What the driver is to do next.
    pub fn action(&self) -> (action: ServeAction)
        ensures
            action@ == self@.pending(),
    {
        match &self.progress {
            Progress::Reading => ServeAction::ReadCache { path: cache_path(&self.day) },
            Progress::Fetching => ServeAction::FetchSnapshot,
            Progress::Building(builder) => ServeAction::Build(builder.action()),
            Progress::Writing(digest) => ServeAction::WriteCache {
                path: cache_path(&self.day),
                digest: copy_digest(digest),
            },
            Progress::Answered(response) => ServeAction::Respond(response.duplicate()),
        }
    }

    /// Takes in an event and moves on.
    pub fn step(self, event: ServeEvent) -> (next: Serving)
        ensures
            next@ == self@.advance(event@),
    {
        proof {
            use_type_invariant(&self);
        }
        let Serving { day, progress } = self;
        match (progress, event) {
            (Progress::Reading, ServeEvent::CacheRead(Some(digest))) => Serving {
                day,
                progress: Progress::Answered(Response::Digest(digest)),
            },
            (Progress::Reading, ServeEvent::CacheRead(None)) => Serving {
                day,
                progress: Progress::Fetching,
            },
            (Progress::Fetching, ServeEvent::Snapshot(reply)) => match read_snapshot(&reply) {
                Ok(quotes) => Serving {
                    day,
                    progress: progress_of(DigestBuilder::for_snapshot(&quotes)),
                },
                Err(_) => Serving {
                    day,
                    progress: Progress::Answered(
                        Response::Failure(String::from_str("Failed to generate summaries")),
                    ),
                },
            },
            (Progress::Building(builder), ServeEvent::Build(e)) => Serving {
                day,
                progress: progress_of(builder.step(e)),
            },
            (Progress::Writing(digest), ServeEvent::Stored(Ok(_))) => Serving {
                day,
                progress: Progress::Answered(Response::Digest(digest)),
            },
            (Progress::Writing(_), ServeEvent::Stored(Err(reason))) => Serving {
                day,
                progress: Progress::Answered(
                    Response::Failure(
                        String::from_str("Failed to fetch and store summaries: ").concat(
                            reason.as_str(),
                        ),
                    ),
                ),
            },
            (progress, _) => Serving { day, progress },
        }
    }
}

/// Takes a digest into memory after the write of its record: the digest
/// is held for `day` where the write succeeded, and nothing changes where
/// it did not.
pub fn keep_written(
    held: DailyCache,
    day: &DateKey,
    digest: Vec<DigestEntry>,
    written: bool,
) -> (next: DailyCache)
    ensures
        next@ == held_after(held@, day@, digest_view(digest@), written),
{
    if written {
        held.put(day, digest)
    } else {
        held
    }
}

} // verus!
