//! The staging registry: the ordered list of copies that currently live in
//! the scratch directory.

use crate::paths::{destination, has_file_name, path_file_name, resolve_destination};
use vstd::prelude::*;

verus! {

/// One copy that staging asks the caller to perform.
#[derive(Clone, Debug, PartialEq, Eq)]
pub struct CopyJob {
    /// The file to read, as the caller named it.
    pub source: String,
    /// The file to write inside the scratch directory.
    pub destination: String,
}

/// The view of a [`CopyJob`]: both paths as plain text.
pub struct PlannedCopy {
    pub source: Seq<char>,
    pub destination: Seq<char>,
}

impl View for CopyJob {
    type V = PlannedCopy;

    open spec fn view(&self) -> PlannedCopy {
        PlannedCopy { source: self.source@, destination: self.destination@ }
    }
}

impl DeepView for CopyJob {
    type V = PlannedCopy;

    open spec fn deep_view(&self) -> PlannedCopy {
        self@
    }
}

/// What one staging call hands back.
#[derive(Debug)]
pub struct StageOutcome {
    /// The copies to perform, in the order of the sources. A failed copy
    /// changes nothing: its destination stays recorded.
    pub copies: Vec<CopyJob>,
    /// The whole registry after the call, in insertion order.
    pub listing: Vec<String>,
}

/// The rule that sends a source path to its destination inside `scratch`.
pub open spec fn destination_in(scratch: Seq<char>) -> spec_fn(Seq<char>) -> Option<Seq<char>> {
    |source: Seq<char>| destination(scratch, source)
}

/// The copy that staging `source` into `scratch` asks for, if any.
pub open spec fn planned_copy(scratch: Seq<char>, source: Seq<char>) -> Option<PlannedCopy> {
    match destination(scratch, source) {
        Some(d) => Some(PlannedCopy { source, destination: d }),
        None => None,
    }
}

/// The rule that sends a source path to the copy it asks for.
pub open spec fn planned_copy_in(scratch: Seq<char>) -> spec_fn(Seq<char>) -> Option<PlannedCopy> {
    |source: Seq<char>| planned_copy(scratch, source)
}

/// The destinations that staging `sources` into `scratch` records: one per
/// source with a file name, in the order of the sources. Sources without a
/// file name leave no trace.
pub open spec fn destinations(scratch: Seq<char>, sources: Seq<Seq<char>>) -> Seq<Seq<char>> {
    sources.filter_map(destination_in(scratch))
}

/// The copies that staging `sources` into `scratch` asks for, in the order
/// of the sources.
pub open spec fn copy_plan(scratch: Seq<char>, sources: Seq<Seq<char>>) -> Seq<PlannedCopy> {
    sources.filter_map(planned_copy_in(scratch))
}

/// How many of `sources` have a file name.
pub open spec fn resolvable_count(sources: Seq<Seq<char>>) -> nat {
    sources.filter(|source: Seq<char>| has_file_name(source)).len()
}

/// The registry after staging `sources` into `scratch`.
pub open spec fn staged(
    before: Seq<Seq<char>>,
    scratch: Seq<char>,
    sources: Seq<Seq<char>>,
) -> Seq<Seq<char>> {
    before + destinations(scratch, sources)
}

/// The registry after a clear, whatever it held before.
pub open spec fn cleared(before: Seq<Seq<char>>) -> Seq<Seq<char>> {
    Seq::empty()
}

/// What the host application reports about its own life.
#[derive(Clone, Copy, Debug, PartialEq, Eq)]
pub enum LifecycleEvent {
    /// The application was asked to exit and has not finished exiting yet.
    ExitRequested,
    /// Anything else.
    Other,
}

impl LifecycleEvent {
    /// Whether the event calls for the registry to be cleared. Only a
    /// request to exit does; a caller need not take the registry's lock for
    /// any other event.
    pub fn asks_for_cleanup(self) -> (due: bool)
        ensures
            due == (self is ExitRequested),
    {
        match self {
            LifecycleEvent::ExitRequested => true,
            LifecycleEvent::Other => false,
        }
    }
}

/// The ordered list of staged copies. Entries are appended by staging and
/// leave only all at once; equal entries are kept side by side.
#[derive(Debug)]
pub struct StagingRegistry {
    entries: Vec<String>,
}

impl View for StagingRegistry {
    type V = Seq<Seq<char>>;

    closed spec fn view(&self) -> Seq<Seq<char>> {
        self.entries.deep_view()
    }
}

impl StagingRegistry {
    /// An empty registry.
    pub fn new() -> (registry: Self)
        ensures
            registry@ == Seq::<Seq<char>>::empty(),
    {
        StagingRegistry { entries: Vec::new() }
    }

    /// Number of entries.
    pub fn len(&self) -> (n: usize)
        ensures
            n == self@.len(),
    {
        self.entries.len()
    }

    /// Whether nothing is staged.
    pub fn is_empty(&self) -> (empty: bool)
        ensures
            empty == (self@.len() == 0),
    {
        self.entries.len() == 0
    }

    /// The entries in insertion order.
    pub fn listing(&self) -> (paths: Vec<String>)
        ensures
            paths.deep_view() == self@,
    {
        let mut paths: Vec<String> = Vec::new();
        let mut i: usize = 0;
        while i < self.entries.len()
            invariant
                i <= self.entries.len(),
                paths.deep_view() =~= self@.take(i as int),
            decreases self.entries.len() - i,
        {
            paths.push(self.entries[i].clone());
            assert(self@.take(i + 1) =~= self@.take(i as int).push(self@[i as int]));
            i += 1;
        }
        paths
    }

    /// Records the outcome of resolving one source. With a destination the
    /// entry is appended and the copy to perform is returned; without one
    /// the source is skipped and nothing changes.
    pub fn record(&mut self, source: String, resolved: Option<String>) -> (job: Option<CopyJob>)
        ensures
            resolved is Some ==> final(self)@ == old(self)@.push(resolved->0@),
            resolved is Some ==> job.deep_view() == Some(
                PlannedCopy { source: source@, destination: resolved->0@ },
            ),
            resolved is None ==> final(self)@ == old(self)@,
            resolved is None ==> job is None,
    {
        match resolved {
            Some(dest) => {
                self.entries.push(dest.clone());
                Some(CopyJob { source, destination: dest })
            },
            None => None,
        }
    }

    /// Stages `sources` into `scratch`: every source with a file name gets
    /// its destination appended, in order, and a copy job in the plan; the
    /// others are skipped. Entries that were there before stay in front.
    pub fn stage(&mut self, scratch: &str, sources: &[String]) -> (out: StageOutcome)
        ensures
            final(self)@ == staged(old(self)@, scratch@, sources.deep_view()),
            final(self)@.len() == old(self)@.len() + resolvable_count(sources.deep_view()),
            out.copies.deep_view() == copy_plan(scratch@, sources.deep_view()),
            out.listing.deep_view() == final(self)@,
    {
        let ghost all = sources.deep_view();
        let mut copies: Vec<CopyJob> = Vec::new();
        let mut i: usize = 0;
        while i < sources.len()
            invariant
                i <= sources.len(),
                all == sources.deep_view(),
                self@ == staged(old(self)@, scratch@, all.take(i as int)),
                copies.deep_view() == copy_plan(scratch@, all.take(i as int)),
            decreases sources.len() - i,
        {
            let source = &sources[i];
            let resolved = resolve_destination(scratch, source.as_str());
            proof {
                all.lemma_filter_map_take_succ(destination_in(scratch@), i as int);
                all.lemma_filter_map_take_succ(planned_copy_in(scratch@), i as int);
            }
            match self.record(source.clone(), resolved) {
                Some(job) => copies.push(job),
                None => {},
            }
            i += 1;
        }
        proof {
            assert(all.take(i as int) =~= all);
            lemma_destinations_len(scratch@, all);
        }
        StageOutcome { copies, listing: self.listing() }
    }

    /// Empties the registry and hands back what it held, in insertion
    /// order, for the caller to remove from disk. The registry is empty
    /// afterwards whether or not those removals succeed.
    pub fn clear(&mut self) -> (removals: Vec<String>)
        ensures
            final(self)@ == cleared(old(self)@),
            final(self)@.len() == 0,
            removals.deep_view() == old(self)@,
    {
        let mut removals: Vec<String> = Vec::new();
        std::mem::swap(&mut self.entries, &mut removals);
        removals
    }

    /// Reacts to a lifecycle event. A request to exit does exactly what
    /// [`StagingRegistry::clear`] does; any other event leaves the registry
    /// alone and asks for no removal.
    pub fn on_event(&mut self, event: LifecycleEvent) -> (removals: Vec<String>)
        ensures
            event is ExitRequested ==> final(self)@ == cleared(old(self)@),
            event is ExitRequested ==> removals.deep_view() == old(self)@,
            event is Other ==> final(self)@ == old(self)@,
            event is Other ==> removals.deep_view() == Seq::<Seq<char>>::empty(),
    {
        if event.asks_for_cleanup() {
            self.clear()
        } else {
            Vec::new()
        }
    }
}

impl Default for StagingRegistry {
    fn default() -> (registry: Self)
        ensures
            registry@ == Seq::<Seq<char>>::empty(),
    {
        StagingRegistry::new()
    }
}

/// One call on the registry, as a history of calls sees it.
pub enum Operation {
    /// A staging call with its scratch directory and sources.
    Stage { scratch: Seq<char>, sources: Seq<Seq<char>> },
    /// A clear, asked for directly or by a request to exit.
    Clear,
}

/// The registry after one operation.
pub open spec fn applied(before: Seq<Seq<char>>, op: Operation) -> Seq<Seq<char>> {
    match op {
        Operation::Stage { scratch, sources } => staged(before, scratch, sources),
        Operation::Clear => cleared(before),
    }
}

/// The registry after a history of operations, applied one after another.
pub open spec fn replayed(before: Seq<Seq<char>>, history: Seq<Operation>) -> Seq<Seq<char>>
    decreases history.len(),
{
    if history.len() == 0 {
        before
    } else {
        applied(replayed(before, history.drop_last()), history.last())
    }
}

/// The length that a history of operations leaves, counted from lengths
/// alone: a stage adds its sources with a file name, a clear resets to zero.
pub open spec fn replayed_len(before: nat, history: Seq<Operation>) -> nat
    decreases history.len(),
{
    if history.len() == 0 {
        before
    } else {
        match history.last() {
            Operation::Stage { scratch, sources } => replayed_len(before, history.drop_last())
                + resolvable_count(sources),
            Operation::Clear => 0,
        }
    }
}

/// Staging records one destination per source with a file name.
pub proof fn lemma_destinations_len(scratch: Seq<char>, sources: Seq<Seq<char>>)
    ensures
        destinations(scratch, sources).len() == resolvable_count(sources),
        copy_plan(scratch, sources).len() == resolvable_count(sources),
    decreases sources.len(),
{
    reveal(Seq::filter);
    if sources.len() > 0 {
        lemma_destinations_len(scratch, sources.drop_last());
    }
}

/// The plan and the registry agree: the copies come in the order of the
/// recorded destinations, and each is written to the destination recorded
/// at its place, which is the destination of its own source.
pub proof fn lemma_plan_matches_destinations(scratch: Seq<char>, sources: Seq<Seq<char>>)
    ensures
        copy_plan(scratch, sources).len() == destinations(scratch, sources).len(),
        forall|i: int|
            0 <= i < copy_plan(scratch, sources).len() ==> {
                &&& (#[trigger] copy_plan(scratch, sources)[i]).destination == destinations(
                    scratch,
                    sources,
                )[i]
                &&& destination(scratch, copy_plan(scratch, sources)[i].source) == Some(
                    destinations(scratch, sources)[i],
                )
            },
    decreases sources.len(),
{
    if sources.len() > 0 {
        lemma_plan_matches_destinations(scratch, sources.drop_last());
    }
}

/// Staging grows the registry by the number of sources with a file name,
/// whatever it held before.
pub proof fn lemma_staged_len(before: Seq<Seq<char>>, scratch: Seq<char>, sources: Seq<Seq<char>>)
    ensures
        staged(before, scratch, sources).len() == before.len() + resolvable_count(sources),
{
    lemma_destinations_len(scratch, sources);
}

/// A clear leaves nothing, whatever the registry held before.
pub proof fn lemma_cleared_empty(before: Seq<Seq<char>>)
    ensures
        cleared(before).len() == 0,
{
}

/// Staging, clearing and staging the same sources again leaves exactly the
/// destinations that the first staging added: a destination depends on the
/// scratch directory and the file name, not on what was staged before.
pub proof fn lemma_restage_after_clear(
    before: Seq<Seq<char>>,
    scratch: Seq<char>,
    sources: Seq<Seq<char>>,
)
    ensures
        staged(cleared(staged(before, scratch, sources)), scratch, sources) == destinations(
            scratch,
            sources,
        ),
        staged(before, scratch, sources).skip(before.len() as int) == destinations(
            scratch,
            sources,
        ),
{
}

/// Two sources with the same file name collide, whatever their
/// directories: both get the same destination, the registry holds it
/// twice, and the plan copies the second source over the first.
pub proof fn lemma_same_file_name_collides(
    before: Seq<Seq<char>>,
    scratch: Seq<char>,
    first: Seq<char>,
    second: Seq<char>,
)
    requires
        path_file_name(first) is Some,
        path_file_name(first) == path_file_name(second),
    ensures
        destination(scratch, first) is Some,
        destination(scratch, first) == destination(scratch, second),
        staged(before, scratch, seq![first, second]) == before.push(
            destination(scratch, first)->0,
        ).push(destination(scratch, first)->0),
        copy_plan(scratch, seq![first, second]) == seq![
            PlannedCopy { source: first, destination: destination(scratch, first)->0 },
            PlannedCopy { source: second, destination: destination(scratch, first)->0 },
        ],
{
    reveal_with_fuel(Seq::filter_map, 3);
}

/// After any history of stagings and clears, applied one at a time, the
/// registry is as long as the lengths alone predict.
pub proof fn lemma_replayed_len(before: Seq<Seq<char>>, history: Seq<Operation>)
    ensures
        replayed(before, history).len() == replayed_len(before.len(), history),
    decreases history.len(),
{
    if history.len() > 0 {
        lemma_replayed_len(before, history.drop_last());
        match history.last() {
            Operation::Stage { scratch, sources } => {
                lemma_staged_len(replayed(before, history.drop_last()), scratch, sources);
            },
            Operation::Clear => {},
        }
    }
}

} // verus!
