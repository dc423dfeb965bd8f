//! The schedule: one pass at start-up, then one each period, for as long as no
//! pass ends fatally.

use crate::check::{Field, Outcome};
use crate::feed::FeedError;
use vstd::prelude::*;

verus! {

/// Hours between two scheduled passes.
pub const PERIOD_HOURS: u32 = 1;

/// Milliseconds the program sleeps between two looks at the clock.
pub const POLL_MILLIS: u64 = 100;

/// How a pass, or one step of it, ended.
#[derive(Clone, Copy, Debug, PartialEq, Eq, Structural)]
pub enum Verdict {
    /// All went well.
    Success,
    /// Something failed, and the failure ends with this pass.
    Recoverable,
    /// Something failed that no later pass can mend: the program stops.
    Fatal,
}

/// What the scheduler is doing.
#[derive(Clone, Copy, Debug, PartialEq, Eq, Structural)]
pub enum Phase {
    /// Waiting for the next pass to fall due.
    Idle,
    /// A pass is under way.
    Running,
    /// A pass ended fatally; no pass will run again.
    Halted,
}

/// What happened.
#[derive(Clone, Copy, Debug, PartialEq, Eq, Structural)]
pub enum Event {
    /// The program has started.
    Started,
    /// The timer says a period has gone by.
    Due,
    /// The pass under way has ended.
    Finished(Verdict),
}

/// What the caller is to do next.
#[derive(Clone, Copy, Debug, PartialEq, Eq, Structural)]
pub enum Action {
    /// Run one pass now, then report how it ended.
    RunCheck,
    /// Sleep for the polling interval and look at the clock again.
    Wait,
    /// Stop the program.
    Terminate,
}

/// The worse of two verdicts.
pub open spec fn worse_of(a: Verdict, b: Verdict) -> Verdict {
    if a == Verdict::Fatal || b == Verdict::Fatal {
        Verdict::Fatal
    } else if a == Verdict::Recoverable || b == Verdict::Recoverable {
        Verdict::Recoverable
    } else {
        Verdict::Success
    }
}

/// What the way a pass ended means for the program.
pub open spec fn verdict_on(outcome: Outcome) -> Verdict {
    match outcome {
        Outcome::Completed => Verdict::Success,
        Outcome::FeedUnavailable(_) => Verdict::Recoverable,
        Outcome::Fatal { .. } => Verdict::Fatal,
    }
}

/// The scheduler's transition: the phase and the action that follow `event`
/// in `phase`.
///
/// A pass starts only from `Idle`, at start-up or when one falls due, so no
/// two passes overlap. A pass that ends without a fatal verdict leads back to
/// `Idle`; a fatal one leads to `Halted`, which nothing leaves. An event that
/// does not fit the phase changes nothing.
pub open spec fn next(phase: Phase, event: Event) -> (Phase, Action) {
    match (phase, event) {
        (Phase::Idle, Event::Started) => (Phase::Running, Action::RunCheck),
        (Phase::Idle, Event::Due) => (Phase::Running, Action::RunCheck),
        (Phase::Idle, Event::Finished(_)) => (Phase::Idle, Action::Wait),
        (Phase::Running, Event::Finished(Verdict::Fatal)) => (Phase::Halted, Action::Terminate),
        (Phase::Running, Event::Finished(_)) => (Phase::Idle, Action::Wait),
        (Phase::Running, _) => (Phase::Running, Action::Wait),
        (Phase::Halted, _) => (Phase::Halted, Action::Terminate),
    }
}

/// The verdict on a pass, from the way it ended.
pub fn verdict(outcome: &Outcome) -> (verdict: Verdict)
    ensures
        verdict == verdict_on(*outcome),
{
    match outcome {
        Outcome::Completed => Verdict::Success,
        Outcome::FeedUnavailable(_) => Verdict::Recoverable,
        Outcome::Fatal { .. } => Verdict::Fatal,
    }
}

/// The worse of two verdicts: fatal before recoverable before success.
pub fn worse(a: Verdict, b: Verdict) -> (both: Verdict)
    ensures
        both == worse_of(a, b),
{
    match (a, b) {
        (Verdict::Fatal, _) => Verdict::Fatal,
        (_, Verdict::Fatal) => Verdict::Fatal,
        (Verdict::Recoverable, _) => Verdict::Recoverable,
        (_, Verdict::Recoverable) => Verdict::Recoverable,
        _ => Verdict::Success,
    }
}

/// The scheduler: it is told what happens and says what to do next.
#[derive(Debug)]
pub struct Scheduler {
    phase: Phase,
}

impl View for Scheduler {
    type V = Phase;

    closed spec fn view(&self) -> Phase {
        self.phase
    }
}

impl Scheduler {
    /// A scheduler that has not run a pass yet.
    pub fn new() -> (scheduler: Scheduler)
        ensures
            scheduler@ == Phase::Idle,
    {
        Scheduler { phase: Phase::Idle }
    }

    /// The phase the scheduler is in.
    pub fn phase(&self) -> (phase: Phase)
        ensures
            phase == self@,
    {
        self.phase
    }

    /// Takes in `event` and tells the caller what to do.
    pub fn handle(&mut self, event: Event) -> (action: Action)
        ensures
            (final(self)@, action) == next(old(self)@, event),
    {
        let (phase, action) = match (self.phase, event) {
            (Phase::Idle, Event::Started) => (Phase::Running, Action::RunCheck),
            (Phase::Idle, Event::Due) => (Phase::Running, Action::RunCheck),
            (Phase::Idle, Event::Finished(_)) => (Phase::Idle, Action::Wait),
            (Phase::Running, Event::Finished(Verdict::Fatal)) => (
                Phase::Halted,
                Action::Terminate,
            ),
            (Phase::Running, Event::Finished(_)) => (Phase::Idle, Action::Wait),
            (Phase::Running, _) => (Phase::Running, Action::Wait),
            (Phase::Halted, _) => (Phase::Halted, Action::Terminate),
        };
        self.phase = phase;
        action
    }
}

/// A pass is started only while none is under way, and starting one makes the
/// scheduler busy: passes never overlap.
pub proof fn lemma_passes_never_overlap(phase: Phase, event: Event)
    ensures
        next(phase, event).1 == Action::RunCheck ==> phase == Phase::Idle && next(phase, event).0
            == Phase::Running,
        phase == Phase::Running ==> next(phase, event).1 != Action::RunCheck,
{
}

/// The first thing a new scheduler asks for is a pass, before any waiting.
pub proof fn lemma_first_pass_is_immediate()
    ensures
        next(Phase::Idle, Event::Started) == (Phase::Running, Action::RunCheck),
{
}

/// A pass that did not end fatally leaves the scheduler idle, and the next
/// period then starts a pass as if nothing had happened.
pub proof fn lemma_failure_is_contained(verdict: Verdict)
    requires
        verdict != Verdict::Fatal,
    ensures
        next(Phase::Running, Event::Finished(verdict)) == (Phase::Idle, Action::Wait),
        next(next(Phase::Running, Event::Finished(verdict)).0, Event::Due) == (
            Phase::Running,
            Action::RunCheck,
        ),
{
}

/// A fatal verdict stops the program for good: whatever happens afterwards, no
/// pass is run again.
pub proof fn lemma_fatal_is_final(event: Event)
    ensures
        next(Phase::Running, Event::Finished(Verdict::Fatal)) == (
            Phase::Halted,
            Action::Terminate,
        ),
        next(Phase::Halted, event) == (Phase::Halted, Action::Terminate),
{
}

/// A pass that found no feed does not stop the schedule: the scheduler goes
/// back to waiting, and the next period starts a pass as usual.
pub proof fn lemma_feed_failure_keeps_schedule(error: FeedError)
    ensures
        next(Phase::Running, Event::Finished(verdict_on(Outcome::FeedUnavailable(error)))) == (
            Phase::Idle,
            Action::Wait,
        ),
        next(Phase::Idle, Event::Due) == (Phase::Running, Action::RunCheck),
{
}

/// A pass that stopped at a malformed item stops the program.
pub proof fn lemma_malformed_item_stops_program(index: usize, missing: Field)
    ensures
        next(
            Phase::Running,
            Event::Finished(verdict_on(Outcome::Fatal { index, missing })),
        ) == (Phase::Halted, Action::Terminate),
{
}

} // verus!
