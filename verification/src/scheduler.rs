//! The per-feed scheduling decisions: the cycle's state machine and
//! the rule for recording an entry's URL after its outcome.
//!
//! The loop itself — fetching, publishing, sleeping — runs outside the
//! library; it feeds events in and performs the work each phase asks
//! for. Here stand the transitions and the one rule that guards the
//! at-most-once gate: a URL is recorded exactly when its entry was
//! published.

use crate::dedup::DedupStore;
use crate::dedup::spec_inserted;
use crate::errors::PipelineError;
use vstd::prelude::*;

verus! {

/// A command of the surrounding command-line surface: it consumes
/// itself to run. The surface's command types implement this outside
/// the library, around their own I/O.
pub trait ExecutableCommand {
    /// Consume the instance of and run this command.
    fn run(self) -> Result<(), PipelineError>;
}

/// Where one feed's loop stands. There is no terminal phase: the loop
/// is infinite by design.
#[derive(Clone, Copy, Debug, PartialEq, Eq, Structural)]
pub enum CyclePhase {
    Idle,
    Fetching,
    Filtering,
    ProcessingEntries { remaining: usize },
    Trimming,
    Sleeping,
}

/// What just happened in the loop.
#[derive(Clone, Copy, Debug, PartialEq, Eq, Structural)]
pub enum CycleEvent {
    /// The task was entered at startup.
    Started,
    /// The feed's bytes arrived and parsed.
    FetchSucceeded,
    /// The fetch or the parse failed; the cycle is abandoned.
    FetchFailed,
    /// Filtering retained this many entries.
    Filtered { retained: usize },
    /// One retained entry was processed, whatever its outcome.
    EntryHandled,
    /// The store was trimmed.
    TrimDone,
    /// The inter-cycle sleep ended.
    WokeUp,
}

/// The cycle's transitions: fetch, filter, process each retained entry
/// in order, trim, sleep, fetch again. An event that does not belong
/// to the current phase changes nothing.
pub open spec fn spec_next_phase(phase: CyclePhase, event: CycleEvent) -> CyclePhase {
    match (phase, event) {
        (CyclePhase::Idle, CycleEvent::Started) => CyclePhase::Fetching,
        (CyclePhase::Fetching, CycleEvent::FetchSucceeded) => CyclePhase::Filtering,
        (CyclePhase::Fetching, CycleEvent::FetchFailed) => CyclePhase::Sleeping,
        (CyclePhase::Filtering, CycleEvent::Filtered { retained }) => if retained == 0 {
            CyclePhase::Trimming
        } else {
            CyclePhase::ProcessingEntries { remaining: retained }
        },
        (CyclePhase::ProcessingEntries { remaining }, CycleEvent::EntryHandled) => if remaining
            <= 1 {
            CyclePhase::Trimming
        } else {
            CyclePhase::ProcessingEntries { remaining: (remaining - 1) as usize }
        },
        (CyclePhase::Trimming, CycleEvent::TrimDone) => CyclePhase::Sleeping,
        (CyclePhase::Sleeping, CycleEvent::WokeUp) => CyclePhase::Fetching,
        _ => phase,
    }
}

/// Advances one feed's phase on an event.
pub fn next_phase(phase: &CyclePhase, event: &CycleEvent) -> (n: CyclePhase)
    ensures
        n == spec_next_phase(*phase, *event),
{
    match (phase, event) {
        (CyclePhase::Idle, CycleEvent::Started) => CyclePhase::Fetching,
        (CyclePhase::Fetching, CycleEvent::FetchSucceeded) => CyclePhase::Filtering,
        (CyclePhase::Fetching, CycleEvent::FetchFailed) => CyclePhase::Sleeping,
        (CyclePhase::Filtering, CycleEvent::Filtered { retained }) => if *retained == 0 {
            CyclePhase::Trimming
        } else {
            CyclePhase::ProcessingEntries { remaining: *retained }
        },
        (CyclePhase::ProcessingEntries { remaining }, CycleEvent::EntryHandled) => if *remaining
            <= 1 {
            CyclePhase::Trimming
        } else {
            CyclePhase::ProcessingEntries { remaining: *remaining - 1 }
        },
        (CyclePhase::Trimming, CycleEvent::TrimDone) => CyclePhase::Sleeping,
        (CyclePhase::Sleeping, CycleEvent::WokeUp) => CyclePhase::Fetching,
        _ => *phase,
    }
}

/// How one retained entry's processing ended.
#[derive(Clone, Copy, Debug, PartialEq, Eq, Structural)]
pub enum EntryOutcome {
    /// The external publish capability accepted the payload.
    Published,
    /// Metadata resolution failed; nothing was published.
    ResolveFailed,
    /// The publish call failed; nothing was published.
    PublishFailed,
}

/// Settles one entry against the at-most-once gate: the canonical URL
/// is recorded exactly when the entry was actually published — a
/// failed entry stays unrecorded so a later cycle may retry it.
pub fn conclude_entry(store: &mut DedupStore, url: &String, outcome: &EntryOutcome)
    requires
        old(store).wf(),
    ensures
        final(store).wf(),
        *outcome == EntryOutcome::Published ==> final(store)@ == spec_inserted(
            old(store)@,
            url@,
        ),
        *outcome != EntryOutcome::Published ==> final(store)@ == old(store)@,
{
    match outcome {
        EntryOutcome::Published => store.insert(url),
        EntryOutcome::ResolveFailed => (),
        EntryOutcome::PublishFailed => (),
    }
}

} // verus!
