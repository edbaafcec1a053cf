//! The scheduler / lifecycle controller: the state machine that drives the
//! cycle-sleep loop and reacts to a shutdown request. The loop itself — the
//! timer, the signal listener, the races between them — runs outside this
//! library; it feeds each resolved wait back in as an event and performs
//! the action handed back.

use vstd::prelude::*;

verus! {

/// Where the controller stands.
#[derive(Clone, Copy, PartialEq, Eq, Structural, Debug)]
pub enum Phase {
    /// Started, no cycle run yet.
    Idle,
    /// A cycle over all descriptors is in progress.
    RunningCycle,
    /// Waiting out the configured interval before the next cycle.
    Sleeping,
    /// A shutdown was requested; no new work is started.
    ShuttingDown,
    /// The process is about to exit with success.
    Terminated,
}

/// What the controller's current wait resolved to.
#[derive(Clone, Copy, PartialEq, Eq, Structural, Debug)]
pub enum ControlEvent {
    /// The process came up and the configuration was accepted.
    Started,
    /// Every descriptor of the current cycle has been attempted.
    CycleDone,
    /// The inter-cycle interval elapsed.
    SleepDone,
    /// A termination request (interrupt or terminate) arrived.
    ShutdownSignal,
}

/// What the surrounding loop must do next.
#[derive(Clone, Copy, PartialEq, Eq, Structural, Debug)]
pub enum ControlAction {
    /// Attempt every descriptor once, in configured order.
    BeginCycle,
    /// Wait out the configured interval.
    BeginSleep,
    /// Log the shutdown notice, then feed the next event.
    AnnounceShutdown,
    /// Exit the process with success status.
    Exit,
    /// Nothing: the event did not fit the phase.
    Hold,
}

/// The transition relation: one phase and one resolved wait give the next
/// phase and the action to perform. A shutdown request wins in every phase
/// and never lets another cycle start.
pub open spec fn spec_next(p: Phase, e: ControlEvent) -> (Phase, ControlAction) {
    match (p, e) {
        (Phase::Terminated, _) => (Phase::Terminated, ControlAction::Hold),
        (_, ControlEvent::ShutdownSignal) => (Phase::ShuttingDown, ControlAction::AnnounceShutdown),
        (Phase::ShuttingDown, _) => (Phase::Terminated, ControlAction::Exit),
        (Phase::Idle, ControlEvent::Started) => (Phase::RunningCycle, ControlAction::BeginCycle),
        (Phase::RunningCycle, ControlEvent::CycleDone) => (Phase::Sleeping, ControlAction::BeginSleep),
        (Phase::Sleeping, ControlEvent::SleepDone) => (Phase::RunningCycle, ControlAction::BeginCycle),
        _ => (p, ControlAction::Hold),
    }
}

/// One controller step. A cycle begins only from `Idle` on startup or from
/// `Sleeping` when the interval has elapsed, never once a shutdown was
/// requested; a shutdown request, in any phase, leads through
/// `ShuttingDown` to `Terminated` without further work.
pub fn next_phase(p: Phase, e: ControlEvent) -> (r: (Phase, ControlAction))
    ensures
        r == spec_next(p, e),
        e == ControlEvent::ShutdownSignal ==> r.1 != ControlAction::BeginCycle && r.1
            != ControlAction::BeginSleep,
        r.1 == ControlAction::BeginCycle ==> (p == Phase::Idle || p == Phase::Sleeping) && e
            != ControlEvent::ShutdownSignal,
{
    match (p, e) {
        (Phase::Terminated, _) => (Phase::Terminated, ControlAction::Hold),
        (_, ControlEvent::ShutdownSignal) => (Phase::ShuttingDown, ControlAction::AnnounceShutdown),
        (Phase::ShuttingDown, _) => (Phase::Terminated, ControlAction::Exit),
        (Phase::Idle, ControlEvent::Started) => (Phase::RunningCycle, ControlAction::BeginCycle),
        (Phase::RunningCycle, ControlEvent::CycleDone) => (Phase::Sleeping, ControlAction::BeginSleep),
        (Phase::Sleeping, ControlEvent::SleepDone) => (Phase::RunningCycle, ControlAction::BeginCycle),
        _ => (p, ControlAction::Hold),
    }
}

/// The phase after a whole run of events, oldest first.
pub open spec fn spec_run(p: Phase, events: Seq<ControlEvent>) -> Phase
    decreases events.len(),
{
    if events.len() == 0 {
        p
    } else {
        spec_next(spec_run(p, events.drop_last()), events.last()).0
    }
}

/// Shutdown is absorbing: once the controller stands in `ShuttingDown` or
/// `Terminated`, no run of later events leaves those phases or starts a
/// cycle or a sleep.
pub proof fn lemma_shutdown_is_absorbing(p: Phase, events: Seq<ControlEvent>)
    requires
        p == Phase::ShuttingDown || p == Phase::Terminated,
    ensures
        spec_run(p, events) == Phase::ShuttingDown || spec_run(p, events) == Phase::Terminated,
        forall|e: ControlEvent|
            spec_next(spec_run(p, events), e).1 != ControlAction::BeginCycle && spec_next(
                spec_run(p, events),
                e,
            ).1 != ControlAction::BeginSleep,
    decreases events.len(),
{
    if events.len() > 0 {
        lemma_shutdown_is_absorbing(p, events.drop_last());
    }
}

} // verus!
