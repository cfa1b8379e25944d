//! Bounded fan-out: which source query to start next, and when to wait,
//! so that no more queries are in flight than the configured limit allows.
//!
//! The dispatcher counts; it does not know which query finished. The order
//! in which queries complete therefore has no bearing on what it decides.

use vstd::prelude::*;

verus! {

/// What the dispatcher decides.
#[derive(Clone, Copy, Debug, PartialEq, Eq, Structural)]
pub enum Dispatch {
    /// Start the query at this position.
    Launch(usize),
    /// Start nothing; wait for a query in flight to complete.
    Wait,
    /// Every query has completed.
    Done,
}

/// The counts that make up the state of a fan-out.
pub struct Progress {
    /// How many queries there are to run.
    pub total: nat,
    /// How many may be in flight at once; 0 for any number.
    pub limit: nat,
    /// How many have been started.
    pub launched: nat,
    /// How many of those have completed.
    pub completed: nat,
}

impl Progress {
    /// The state in which nothing has been started.
    pub open spec fn initial(total: nat, limit: nat) -> Progress {
        Progress { total, limit, launched: 0, completed: 0 }
    }

    /// How many queries are in flight.
    pub open spec fn in_flight(self) -> int {
        self.launched - self.completed
    }

    /// The invariant of a fan-out: what has completed was started, what was
    /// started is among the queries, and the number in flight respects the
    /// limit.
    pub open spec fn wf(self) -> bool {
        &&& self.completed <= self.launched <= self.total
        &&& self.limit > 0 ==> self.in_flight() <= self.limit
    }

    /// Whether one more query may be started now.
    pub open spec fn has_room(self) -> bool {
        self.limit == 0 || self.in_flight() < self.limit
    }

    /// What the dispatcher decides in this state: to start the next query,
    /// in the order of the list, while one is left and there is room; to
    /// wait while queries are in flight; and that it is done otherwise.
    pub open spec fn decision(self) -> Dispatch {
        if self.launched < self.total && self.has_room() {
            Dispatch::Launch(self.launched as usize)
        } else if self.completed < self.launched {
            Dispatch::Wait
        } else {
            Dispatch::Done
        }
    }

    /// The state after the dispatcher has acted on its decision.
    pub open spec fn after_decision(self) -> Progress {
        match self.decision() {
            Dispatch::Launch(_) => Progress { launched: self.launched + 1, ..self },
            _ => self,
        }
    }

    /// The state after a completion was reported: one query fewer in
    /// flight, or the same state where none was in flight.
    pub open spec fn after_completion(self) -> Progress {
        if self.in_flight() > 0 {
            Progress { completed: self.completed + 1, ..self }
        } else {
            self
        }
    }

    /// How many actions are left until the fan-out is done: the launches and
    /// the completions that are still to come.
    pub open spec fn remaining(self) -> int {
        (self.total - self.launched) + (self.total - self.completed)
    }

    /// The state that is reached under a schedule. Each entry of the
    /// schedule is one step: `true` for a reported completion and `false`
    /// for one decision of the dispatcher.
    pub open spec fn after(self, schedule: Seq<bool>) -> Progress
        decreases schedule.len(),
    {
        if schedule.len() == 0 {
            self
        } else {
            let before = self.after(schedule.drop_last());
            if schedule.last() {
                before.after_completion()
            } else {
                before.after_decision()
            }
        }
    }
}

/// The dispatcher of one fan-out.
#[derive(Clone, Copy, Debug, PartialEq, Eq)]
pub struct FanOut {
    total: usize,
    limit: usize,
    launched: usize,
    completed: usize,
}

impl View for FanOut {
    type V = Progress;

    closed spec fn view(&self) -> Progress {
        Progress {
            total: self.total as nat,
            limit: self.limit as nat,
            launched: self.launched as nat,
            completed: self.completed as nat,
        }
    }
}

impl FanOut {
    #[verifier::type_invariant]
    spec fn well_formed(self) -> bool {
        self@.wf()
    }

    /// A fan-out over `total` queries with nothing started. A `limit` of 0
    /// stands for no bound.
    pub fn new(total: usize, limit: usize) -> (fan: FanOut)
        ensures
            fan@ == Progress::initial(total as nat, limit as nat),
    {
        FanOut { total, limit, launched: 0, completed: 0 }
    }

    /// How many queries are in flight.
    pub fn running(&self) -> (count: usize)
        ensures
            count == self@.in_flight(),
            self@.wf(),
    {
        proof {
            use_type_invariant(self);
        }
        self.launched - self.completed
    }

    /// Decides what to do next and, where that is a launch, counts the
    /// query as started.
    pub fn next(&mut self) -> (dispatch: Dispatch)
        ensures
            old(self)@.wf(),
            dispatch == old(self)@.decision(),
            final(self)@ == old(self)@.after_decision(),
    {
        proof {
            use_type_invariant(&*self);
        }
        if self.launched < self.total && (self.limit == 0 || self.launched - self.completed
            < self.limit) {
            let position = self.launched;
            self.launched = self.launched + 1;
            Dispatch::Launch(position)
        } else if self.completed < self.launched {
            Dispatch::Wait
        } else {
            Dispatch::Done
        }
    }

    /// Counts one query in flight as completed. Where none is in flight,
    /// nothing changes.
    pub fn complete(&mut self)
        ensures
            old(self)@.wf(),
            final(self)@ == old(self)@.after_completion(),
    {
        proof {
            use_type_invariant(&*self);
        }
        if self.completed < self.launched {
            self.completed = self.completed + 1;
        }
    }
}

/// Every step keeps the invariant.
pub proof fn lemma_step_keeps_invariant(state: Progress)
    requires
        state.wf(),
    ensures
        state.after_decision().wf(),
        state.after_completion().wf(),
        state.after_decision().total == state.total,
        state.after_decision().limit == state.limit,
        state.after_completion().total == state.total,
        state.after_completion().limit == state.limit,
{
}

/// Whatever the order in which decisions and completions come, the
/// invariant holds, and so with a limit other than 0 no more queries are
/// in flight than the limit allows.
pub proof fn lemma_never_over_limit(total: nat, limit: nat, schedule: Seq<bool>)
    ensures
        Progress::initial(total, limit).after(schedule).wf(),
        Progress::initial(total, limit).after(schedule).total == total,
        Progress::initial(total, limit).after(schedule).limit == limit,
        limit > 0 ==> Progress::initial(total, limit).after(schedule).in_flight() <= limit,
    decreases schedule.len(),
{
    if schedule.len() > 0 {
        lemma_never_over_limit(total, limit, schedule.drop_last());
        lemma_step_keeps_invariant(Progress::initial(total, limit).after(schedule.drop_last()));
    }
}

/// The dispatcher makes progress and ends only when every query has
/// completed. A launch starts the next query in the order of the list: the
/// position that it names is the number of queries started before it. A
/// launch and a completion each bring the end one action nearer. The
/// dispatcher waits only while a query is in flight, so a wait is always
/// answered by a completion. It is done exactly when all queries have
/// completed, which is when no action is left.
pub proof fn lemma_all_queries_complete(state: Progress)
    requires
        state.wf(),
    ensures
        state.remaining() >= 0,
        state.decision() is Launch ==> state.launched < state.total
            && state.after_decision().launched == state.launched + 1
            && state.after_decision().remaining() == state.remaining() - 1,
        state.decision() is Launch && state.total <= usize::MAX ==> state.decision()->Launch_0
            == state.launched,
        state.decision() is Wait ==> state.in_flight() > 0,
        state.in_flight() > 0 ==> state.after_completion().remaining() == state.remaining() - 1,
        state.decision() is Done <==> state.completed == state.total,
        state.completed == state.total <==> state.remaining() == 0,
{
}

} // verus!
