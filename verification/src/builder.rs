//! The digest builder: the decisions of one build, one asset at a time.
//!
//! The builder does no outside work. It names the next thing to do (look up
//! news, ask for a summary, wait), takes in what came of it, and moves on.
//! For each selected asset, in selection order: the news are looked up, and a
//! failed lookup is replaced by the single reference `No news found`; the
//! summary is asked for, and a failed completion is replaced by the text
//! `No summary available.`; the entry is appended; the build waits
//! [`PAUSE_SECONDS`] seconds. An event that does not answer what the builder
//! is waiting for changes nothing.

use vstd::prelude::*;
use vstd::string::*;
use crate::digest::{digest_view, DigestEntry, DigestEntryView};
use crate::news::{news_query, no_news_line, query_text};
use crate::quote::{quote_views, AssetQuote, AssetQuoteView};
use crate::ranking::{select, selection};
use crate::summary::{no_summary_text, prompt_text, summary_prompt};
use crate::text::lines_view;

verus! {

/// How long the build waits after each asset, in seconds.
pub const PAUSE_SECONDS: u64 = 10;

/// What the builder is waiting for.
#[derive(Clone, Copy, Debug, PartialEq, Eq, Structural)]
pub enum Stage {
    /// The news of the current asset.
    Lookup,
    /// The summary of the current asset.
    Summarize,
    /// The end of the wait after the current asset.
    Pause,
    /// Nothing: every selected asset has its entry.
    Finished,
}

/// What the builder asks its driver to do next.
#[derive(Debug, PartialEq, Eq)]
pub enum BuildAction {
    /// Search the news for `query`.
    LookupNews { query: String },
    /// Ask for a completion of `prompt`.
    Summarize { prompt: String },
    /// Wait for `seconds` seconds.
    Pause { seconds: u64 },
    /// Stop: the digest is complete.
    Finish,
}

/// What the driver reports back.
#[derive(Debug, PartialEq, Eq)]
pub enum BuildEvent {
    /// The references found, or `None` where the lookup failed.
    News(Option<Vec<String>>),
    /// The summary written, or `None` where the completion failed.
    Summary(Option<String>),
    /// The wait is over.
    Paused,
}

/// The mathematical content of a [`BuildAction`].
pub enum BuildActionView {
    LookupNews { query: Seq<char> },
    Summarize { prompt: Seq<char> },
    Pause { seconds: int },
    Finish,
}

/// The mathematical content of a [`BuildEvent`].
pub enum BuildEventView {
    News(Option<Seq<Seq<char>>>),
    Summary(Option<Seq<char>>),
    Paused,
}

impl View for BuildAction {
    type V = BuildActionView;

    open spec fn view(&self) -> BuildActionView {
        match self {
            BuildAction::LookupNews { query } => BuildActionView::LookupNews { query: query@ },
            BuildAction::Summarize { prompt } => BuildActionView::Summarize { prompt: prompt@ },
            BuildAction::Pause { seconds } => BuildActionView::Pause { seconds: *seconds as int },
            BuildAction::Finish => BuildActionView::Finish,
        }
    }
}

impl View for BuildEvent {
    type V = BuildEventView;

    open spec fn view(&self) -> BuildEventView {
        match self {
            BuildEvent::News(Some(lines)) => BuildEventView::News(Some(lines_view(lines@))),
            BuildEvent::News(None) => BuildEventView::News(None),
            BuildEvent::Summary(Some(text)) => BuildEventView::Summary(Some(text@)),
            BuildEvent::Summary(None) => BuildEventView::Summary(None),
            BuildEvent::Paused => BuildEventView::Paused,
        }
    }
}

/// The state of a build as mathematical values.
pub struct BuildState {
    /// The assets to report on, in order.
    pub selection: Seq<AssetQuoteView>,
    /// The place in `selection` of the asset being worked on.
    pub position: int,
    /// What is awaited.
    pub stage: Stage,
    /// The references of the current asset, once they are in.
    pub references: Seq<Seq<char>>,
    /// The entries made so far.
    pub entries: Seq<DigestEntryView>,
}

/// The references that a lookup outcome stands for.
pub open spec fn references_or_fallback(outcome: Option<Seq<Seq<char>>>) -> Seq<Seq<char>> {
    match outcome {
        Some(lines) => lines,
        None => seq![no_news_line()],
    }
}

/// The summary that a completion outcome stands for.
pub open spec fn summary_or_fallback(outcome: Option<Seq<char>>) -> Seq<char> {
    match outcome {
        Some(text) => text,
        None => no_summary_text(),
    }
}

/// The entry of an asset with its summary and references.
pub open spec fn entry_for(
    quote: AssetQuoteView,
    summary: Seq<char>,
    references: Seq<Seq<char>>,
) -> DigestEntryView {
    DigestEntryView { token: quote.name, symbol: quote.symbol, summary, references }
}

impl BuildState {
    /// The state in which a build of `selection` starts.
    pub open spec fn initial(selection: Seq<AssetQuoteView>) -> BuildState {
        BuildState {
            selection,
            position: 0,
            stage: if selection.len() == 0 {
                Stage::Finished
            } else {
                Stage::Lookup
            },
            references: Seq::empty(),
            entries: Seq::empty(),
        }
    }

    /// What holds of every state that a build can be in.
    pub open spec fn wf(self) -> bool {
        &&& 0 <= self.position <= self.selection.len()
        &&& (self.stage is Finished <==> self.position == self.selection.len())
        &&& self.entries.len() == self.position + if self.stage is Pause {
            1int
        } else {
            0int
        }
        &&& (self.stage is Summarize || self.references.len() == 0)
    }

    /// The asset being worked on.
    pub open spec fn current(self) -> AssetQuoteView {
        self.selection[self.position]
    }

    /// What the driver is to do in this state.
    pub open spec fn pending(self) -> BuildActionView {
        match self.stage {
            Stage::Lookup => BuildActionView::LookupNews { query: query_text(self.current().name) },
            Stage::Summarize => BuildActionView::Summarize {
                prompt: prompt_text(self.current(), self.references),
            },
            Stage::Pause => BuildActionView::Pause { seconds: PAUSE_SECONDS as int },
            Stage::Finished => BuildActionView::Finish,
        }
    }

    /// Whether `event` answers what this state is waiting for.
    pub open spec fn awaits(self, event: BuildEventView) -> bool {
        match (self.stage, event) {
            (Stage::Lookup, BuildEventView::News(_)) => true,
            (Stage::Summarize, BuildEventView::Summary(_)) => true,
            (Stage::Pause, BuildEventView::Paused) => true,
            _ => false,
        }
    }

    /// The state after `event`.
    pub open spec fn advance(self, event: BuildEventView) -> BuildState {
        match (self.stage, event) {
            (Stage::Lookup, BuildEventView::News(outcome)) => BuildState {
                stage: Stage::Summarize,
                references: references_or_fallback(outcome),
                ..self
            },
            (Stage::Summarize, BuildEventView::Summary(outcome)) => BuildState {
                stage: Stage::Pause,
                references: Seq::empty(),
                entries: self.entries.push(
                    entry_for(self.current(), summary_or_fallback(outcome), self.references),
                ),
                ..self
            },
            (Stage::Pause, BuildEventView::Paused) => BuildState {
                position: self.position + 1,
                stage: if self.position + 1 < self.selection.len() {
                    Stage::Lookup
                } else {
                    Stage::Finished
                },
                ..self
            },
            _ => self,
        }
    }

    /// The state after a run of events, taken in order.
    pub open spec fn run(self, events: Seq<BuildEventView>) -> BuildState
        decreases events.len(),
    {
        if events.len() == 0 {
            self
        } else {
            self.advance(events[0]).run(events.skip(1))
        }
    }

    /// Whether each event of the run answers the action pending when it
    /// arrives: the run of a driver that does what it is asked.
    pub open spec fn driven_by(self, events: Seq<BuildEventView>) -> bool
        decreases events.len(),
    {
        events.len() == 0 || (self.awaits(events[0]) && self.advance(events[0]).driven_by(
            events.skip(1),
        ))
    }

    /// How many news lookups are still to be asked for.
    pub open spec fn lookups_left(self) -> int {
        self.selection.len() - self.position - if self.stage is Summarize || self.stage is Pause {
            1int
        } else {
            0int
        }
    }

    /// How many summaries are still to be asked for.
    pub open spec fn summaries_left(self) -> int {
        self.selection.len() - self.position - if self.stage is Pause {
            1int
        } else {
            0int
        }
    }
}

/// How many events of a run report on a news lookup.
pub open spec fn lookups_in(events: Seq<BuildEventView>) -> int
    decreases events.len(),
{
    if events.len() == 0 {
        0
    } else {
        lookups_in(events.skip(1)) + if events[0] is News {
            1int
        } else {
            0int
        }
    }
}

/// How many events of a run report on a completion.
pub open spec fn summaries_in(events: Seq<BuildEventView>) -> int
    decreases events.len(),
{
    if events.len() == 0 {
        0
    } else {
        summaries_in(events.skip(1)) + if events[0] is Summary {
            1int
        } else {
            0int
        }
    }
}

/// Every build starts in a well-formed state, and no event leads out of the
/// well-formed states.
pub proof fn lemma_wf_kept(state: BuildState, event: BuildEventView)
    ensures
        BuildState::initial(state.selection).wf(),
        state.wf() ==> state.advance(event).wf(),
{
}

/// A failed news lookup leaves the single reference `No news found` on the
/// asset's entry, whatever the completion answers, and the build goes on to
/// the wait and then to the next asset.
pub proof fn lemma_failed_lookup(state: BuildState, summary: Option<Seq<char>>)
    requires
        state.wf(),
        state.stage is Lookup,
    ensures
        ({
            let after = state.advance(BuildEventView::News(None)).advance(
                BuildEventView::Summary(summary),
            );
            &&& after.entries.len() == state.entries.len() + 1
            &&& after.entries.last().references == seq![no_news_line()]
            &&& after.entries.last().token == state.current().name
            &&& after.stage is Pause
            &&& after.advance(BuildEventView::Paused).position == state.position + 1
        }),
{
}

/// A failed completion leaves the text `No summary available.` on the
/// asset's entry, with the references that were found.
pub proof fn lemma_failed_summary(state: BuildState)
    requires
        state.wf(),
        state.stage is Summarize,
    ensures
        ({
            let after = state.advance(BuildEventView::Summary(None));
            &&& after.entries.len() == state.entries.len() + 1
            &&& after.entries.last().summary == no_summary_text()
            &&& after.entries.last().references == state.references
            &&& after.entries.last().token == state.current().name
        }),
{
}

/// In a run whose events answer the pending actions and which ends with the
/// build finished, as many lookups and as many completions were asked for
/// as were left at the start, and the entries made are those of the assets
/// that were left.
pub proof fn lemma_run_counts(state: BuildState, events: Seq<BuildEventView>)
    requires
        state.wf(),
        state.driven_by(events),
        state.run(events).stage is Finished,
    ensures
        lookups_in(events) == state.lookups_left(),
        summaries_in(events) == state.summaries_left(),
        state.run(events).entries.len() == state.selection.len(),
        state.run(events).selection == state.selection,
    decreases events.len(),
{
    if events.len() > 0 {
        lemma_wf_kept(state, events[0]);
        lemma_run_counts(state.advance(events[0]), events.skip(1));
    }
}

/// A whole build, from the start to the finish, asks for exactly one lookup
/// and one completion per selected asset and makes one entry for each.
pub proof fn lemma_build_counts(selection: Seq<AssetQuoteView>, events: Seq<BuildEventView>)
    requires
        BuildState::initial(selection).driven_by(events),
        BuildState::initial(selection).run(events).stage is Finished,
    ensures
        lookups_in(events) == selection.len(),
        summaries_in(events) == selection.len(),
        BuildState::initial(selection).run(events).entries.len() == selection.len(),
{
    lemma_run_counts(BuildState::initial(selection), events);
}

/// A build in progress.
pub struct DigestBuilder {
    selection: Vec<AssetQuote>,
    position: usize,
    stage: Stage,
    references: Vec<String>,
    entries: Vec<DigestEntry>,
}

impl View for DigestBuilder {
    type V = BuildState;

    closed spec fn view(&self) -> BuildState {
        BuildState {
            selection: quote_views(self.selection@),
            position: self.position as int,
            stage: self.stage,
            references: lines_view(self.references@),
            entries: digest_view(self.entries@),
        }
    }
}

impl DigestBuilder {
    #[verifier::type_invariant]
    spec fn holds(self) -> bool {
        self@.wf()
    }

    /// Starts a build of the given selection.
    pub fn new(selection: Vec<AssetQuote>) -> (builder: DigestBuilder)
        ensures
            builder@ == BuildState::initial(quote_views(selection@)),
    {
        let stage = if selection.len() == 0 {
            Stage::Finished
        } else {
            Stage::Lookup
        };
        let builder = DigestBuilder {
            selection,
            position: 0,
            stage,
            references: Vec::new(),
            entries: Vec::new(),
        };
        assert(builder@ =~= BuildState::initial(quote_views(selection@))) by {
            assert(lines_view(builder.references@) =~= Seq::empty());
            assert(digest_view(builder.entries@) =~= Seq::empty());
        }
        builder
    }

    /// Starts a build for a snapshot: the selection is made first.
    pub fn for_snapshot(quotes: &Vec<AssetQuote>) -> (builder: DigestBuilder)
        ensures
            builder@ == BuildState::initial(selection(quote_views(quotes@))),
    {
        DigestBuilder::new(select(quotes))
    }

    /// What is awaited.
    pub fn stage(&self) -> (stage: Stage)
        ensures
            stage == self@.stage,
    {
        self.stage
    }

    /// Whether every selected asset has its entry.
    pub fn is_finished(&self) -> (done: bool)
        ensures
            done == (self@.stage is Finished),
    {
        match self.stage {
            Stage::Finished => true,
            _ => false,
        }
    }

    /// What the driver is to do next.
    pub fn action(&self) -> (action: BuildAction)
        ensures
            action@ == self@.pending(),
    {
        proof {
            use_type_invariant(self);
        }
        match self.stage {
            Stage::Lookup => BuildAction::LookupNews {
                query: news_query(self.selection[self.position].name.as_str()),
            },
            Stage::Summarize => BuildAction::Summarize {
                prompt: summary_prompt(&self.selection[self.position], &self.references),
            },
            Stage::Pause => BuildAction::Pause { seconds: PAUSE_SECONDS },
            Stage::Finished => BuildAction::Finish,
        }
    }

    /// Takes in an event and moves on.
    pub fn step(self, event: BuildEvent) -> (next: DigestBuilder)
        ensures
            next@ == self@.advance(event@),
    {
        proof {
            use_type_invariant(&self);
        }
        let DigestBuilder { selection, position, stage, references, mut entries } = self;
        match (stage, event) {
            (Stage::Lookup, BuildEvent::News(outcome)) => {
                let found = match outcome {
                    Some(lines) => lines,
                    None => {
                        let mut lines: Vec<String> = Vec::new();
                        lines.push(String::from_str("No news found"));
                        assert(lines_view(lines@) =~= seq![no_news_line()]);
                        lines
                    },
                };
                DigestBuilder {
                    selection,
                    position,
                    stage: Stage::Summarize,
                    references: found,
                    entries,
                }
            },
            (Stage::Summarize, BuildEvent::Summary(outcome)) => {
                let summary = match outcome {
                    Some(text) => text,
                    None => String::from_str("No summary available."),
                };
                let ghost before = digest_view(entries@);
                let entry = DigestEntry {
                    token: selection[position].name.clone(),
                    symbol: selection[position].symbol.clone(),
                    summary,
                    references,
                };
                entries.push(entry);
                assert(digest_view(entries@) =~= before.push(entry@));
                let next = DigestBuilder {
                    selection,
                    position,
                    stage: Stage::Pause,
                    references: Vec::new(),
                    entries,
                };
                assert(lines_view(next.references@) =~= Seq::empty());
                next
            },
            (Stage::Pause, BuildEvent::Paused) => {
                assert(position < selection.len());
                let stage = if position + 1 < selection.len() {
                    Stage::Lookup
                } else {
                    Stage::Finished
                };
                DigestBuilder { selection, position: position + 1, stage, references, entries }
            },
            (stage, _) => DigestBuilder { selection, position, stage, references, entries },
        }
    }

    /// The entries made so far.
    pub fn entries(&self) -> (entries: &Vec<DigestEntry>)
        ensures
            digest_view(entries@) == self@.entries,
    {
        &self.entries
    }

    /// Ends the build and hands out the entries made.
    pub fn into_digest(self) -> (entries: Vec<DigestEntry>)
        ensures
            digest_view(entries@) == self@.entries,
    {
        self.entries
    }
}

} // verus!
