//! The collectors and the loop that runs them.
//!
//! The loop is a state machine. The program around the library performs what
//! the machine asks for (a cycle of all collectors, or a wait on the
//! termination signal) and reports back what happened.

use vstd::prelude::*;
use crate::config::Configuration;

pub mod cron_triggers;
pub mod event_triggers;
pub mod fanout;
pub mod health;
pub mod metadata;
pub mod scheduled_events;
pub mod sql;

verus! {

/// Where the loop stands.
#[derive(Clone, Copy, Debug, PartialEq, Eq, Structural)]
pub enum LoopState {
    /// A cycle of all collectors is in flight.
    Running,
    /// The cycle is over; the loop waits for the signal or the next tick.
    WaitingForNextTick,
    /// The loop has ended.
    Terminated,
}

/// How a wait on the termination signal ended.
#[derive(Clone, Copy, Debug, PartialEq, Eq, Structural)]
pub enum WaitOutcome {
    /// The interval went by without a signal.
    Elapsed,
    /// The signal was given.
    Signaled,
    /// The signal's channel was closed.
    Closed,
}

impl WaitOutcome {
    /// Whether a loop that waited on the termination signal ends on this
    /// outcome. The signal and the closing of its channel end it alike; only
    /// an elapsed wait lets it go on.
    pub open spec fn ends_loop(self) -> bool {
        self != WaitOutcome::Elapsed
    }

    /// Decides whether a loop that waited on the termination signal ends.
    /// Every loop that shares the signal asks this, so that all of them
    /// treat the signal and the closed channel in the same way.
    pub fn terminates(self) -> (ends: bool)
        ensures
            ends == self.ends_loop(),
    {
        match self {
            WaitOutcome::Elapsed => false,
            WaitOutcome::Signaled => true,
            WaitOutcome::Closed => true,
        }
    }
}

/// What the surrounding program reports to the loop.
#[derive(Clone, Copy, Debug, PartialEq, Eq, Structural)]
pub enum LoopEvent {
    /// Every collector of the cycle has finished.
    CycleFinished,
    /// The wait on the termination signal has ended.
    Waited(WaitOutcome),
}

/// What the loop asks the surrounding program to do.
#[derive(Clone, Copy, Debug, PartialEq, Eq, Structural)]
pub enum LoopAction {
    /// Run all collectors concurrently and wait for all of them.
    RunCollectors,
    /// Wait on the termination signal for at most this many milliseconds.
    WaitForSignal(u64),
    /// Return.
    Exit,
}

/// The state that follows `state` on `event`. A cycle that finishes leads
/// from running to waiting. A wait that ends leads back to running where the
/// interval elapsed, and to termination where the signal was given or its
/// channel was closed. An event that does not belong to the state changes
/// nothing; in particular nothing leads out of termination, and a running
/// cycle is never cut short.
pub open spec fn transition(state: LoopState, event: LoopEvent) -> LoopState {
    match (state, event) {
        (LoopState::Running, LoopEvent::CycleFinished) => LoopState::WaitingForNextTick,
        (LoopState::WaitingForNextTick, LoopEvent::Waited(WaitOutcome::Elapsed)) =>
            LoopState::Running,
        (LoopState::WaitingForNextTick, LoopEvent::Waited(_)) => LoopState::Terminated,
        _ => state,
    }
}

/// What the loop asks for in `state`, with `interval` milliseconds between
/// two cycles.
pub open spec fn action_in(state: LoopState, interval: u64) -> LoopAction {
    match state {
        LoopState::Running => LoopAction::RunCollectors,
        LoopState::WaitingForNextTick => LoopAction::WaitForSignal(interval),
        LoopState::Terminated => LoopAction::Exit,
    }
}

/// The state after a sequence of events, from `state`.
pub open spec fn run(state: LoopState, events: Seq<LoopEvent>) -> LoopState
    decreases events.len(),
{
    if events.len() == 0 {
        state
    } else {
        transition(run(state, events.drop_last()), events.last())
    }
}

/// How many cycles a sequence of events starts, from `state`: the number
/// of events that lead into running from another state.
pub open spec fn cycles_started(state: LoopState, events: Seq<LoopEvent>) -> nat
    decreases events.len(),
{
    if events.len() == 0 {
        0
    } else {
        let before = run(state, events.drop_last());
        cycles_started(state, events.drop_last()) + if before != LoopState::Running
            && transition(before, events.last()) == LoopState::Running {
            1nat
        } else {
            0nat
        }
    }
}

impl LoopState {
    /// The state in which the loop begins: with a cycle.
    pub fn start() -> (state: LoopState)
        ensures
            state == LoopState::Running,
    {
        LoopState::Running
    }

    /// The state that follows this one on `event`.
    pub fn on(self, event: LoopEvent) -> (next: LoopState)
        ensures
            next == transition(self, event),
    {
        match (self, event) {
            (LoopState::Running, LoopEvent::CycleFinished) => LoopState::WaitingForNextTick,
            (LoopState::WaitingForNextTick, LoopEvent::Waited(WaitOutcome::Elapsed)) => {
                LoopState::Running
            },
            (LoopState::WaitingForNextTick, LoopEvent::Waited(_)) => LoopState::Terminated,
            _ => self,
        }
    }
}

/// Decides what the loop does in `state`: a cycle, a wait of one collection
/// interval on the termination signal, or the return.
pub fn run_metadata_collector(cfg: &Configuration, state: LoopState) -> (action: LoopAction)
    ensures
        action == action_in(state, cfg.collect_interval),
{
    match state {
        LoopState::Running => LoopAction::RunCollectors,
        LoopState::WaitingForNextTick => LoopAction::WaitForSignal(cfg.collect_interval),
        LoopState::Terminated => LoopAction::Exit,
    }
}

/// Once the loop has terminated, nothing starts another cycle: the state
/// stays terminated whatever is reported, no cycle is started, and what the
/// loop asks for is the return.
pub proof fn lemma_terminated_is_final(events: Seq<LoopEvent>, interval: u64)
    ensures
        run(LoopState::Terminated, events) == LoopState::Terminated,
        cycles_started(LoopState::Terminated, events) == 0,
        action_in(LoopState::Terminated, interval) == LoopAction::Exit,
    decreases events.len(),
{
    if events.len() > 0 {
        lemma_terminated_is_final(events.drop_last(), interval);
    }
}

/// The termination signal, and the closing of its channel, end the loop at
/// its wait and only there. While a cycle runs, the wait's outcome is not
/// looked at, so the cycle in flight is completed; the cycle's end leads
/// to a wait of one interval at most; and the signal, or the closed
/// channel, leads from that wait to termination, after which no sequence of
/// events starts another cycle.
pub proof fn lemma_signal_ends_loop(outcome: WaitOutcome, later: Seq<LoopEvent>, interval: u64)
    requires
        outcome.ends_loop(),
    ensures
        transition(LoopState::Running, LoopEvent::Waited(outcome)) == LoopState::Running,
        transition(LoopState::Running, LoopEvent::CycleFinished)
            == LoopState::WaitingForNextTick,
        action_in(LoopState::WaitingForNextTick, interval) == LoopAction::WaitForSignal(
            interval,
        ),
        transition(LoopState::WaitingForNextTick, LoopEvent::Waited(outcome))
            == LoopState::Terminated,
        run(transition(LoopState::WaitingForNextTick, LoopEvent::Waited(outcome)), later)
            == LoopState::Terminated,
        cycles_started(
            transition(LoopState::WaitingForNextTick, LoopEvent::Waited(outcome)),
            later,
        ) == 0,
{
    lemma_terminated_is_final(later, interval);
}

/// Without a signal the loop goes on: an elapsed wait starts the next
/// cycle. The wait ends the orchestrator loop on exactly the outcomes on
/// which it ends any loop that shares the signal.
pub proof fn lemma_elapsed_wait_starts_cycle()
    ensures
        forall|outcome: WaitOutcome|
            outcome.ends_loop() <==> #[trigger] transition(
                LoopState::WaitingForNextTick,
                LoopEvent::Waited(outcome),
            ) == LoopState::Terminated,
        transition(LoopState::WaitingForNextTick, LoopEvent::Waited(WaitOutcome::Elapsed))
            == LoopState::Running,
        cycles_started(
            LoopState::WaitingForNextTick,
            seq![LoopEvent::Waited(WaitOutcome::Elapsed)],
        ) == 1,
{
    let events = seq![LoopEvent::Waited(WaitOutcome::Elapsed)];
    assert(events.drop_last() =~= Seq::<LoopEvent>::empty());
    assert(run(LoopState::WaitingForNextTick, events.drop_last())
        == LoopState::WaitingForNextTick);
    assert(cycles_started(LoopState::WaitingForNextTick, events.drop_last()) == 0);
}

} // verus!
