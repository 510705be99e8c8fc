use vstd::prelude::*;

use crate::action::Action;
use crate::plan::{action_at, step, PLAN_LEN};

verus! {

/// What the caller does next.
#[derive(Clone, Copy, Debug, PartialEq, Eq, Structural)]
pub enum Command {
    /// Carry out this operation, then report whether it succeeded.
    Perform(Action),
    /// The operation at position `step` failed; nothing more is done.
    Halted { step: usize },
    /// Every operation succeeded.
    Finished,
}

/// Abstract state of a session: how many operations succeeded, and whether the
/// one after them failed.
pub struct SessionState {
    pub done: nat,
    pub failed: bool,
}

/// The state at the start of a session.
pub open spec fn initial() -> SessionState {
    SessionState { done: 0, failed: false }
}

pub open spec fn well_formed(s: SessionState) -> bool {
    s.done <= PLAN_LEN && (s.failed ==> s.done < PLAN_LEN)
}

/// What a session in state `s` asks of the caller.
pub open spec fn command_of(s: SessionState) -> Command {
    if s.failed {
        Command::Halted { step: s.done as usize }
    } else if s.done < PLAN_LEN {
        Command::Perform(action_at(s.done as int))
    } else {
        Command::Finished
    }
}

/// The state after the caller reports `succeeded` for the pending operation.
/// A halted or finished session stays as it is.
pub open spec fn next_state(s: SessionState, succeeded: bool) -> SessionState {
    if s.failed || s.done >= PLAN_LEN {
        s
    } else if succeeded {
        SessionState { done: s.done + 1, failed: false }
    } else {
        SessionState { done: s.done, failed: true }
    }
}

/// The state reached from the start after reporting `outcomes`, in order.
pub open spec fn run(outcomes: Seq<bool>) -> SessionState
    decreases outcomes.len(),
{
    if outcomes.len() == 0 {
        initial()
    } else {
        next_state(run(outcomes.drop_last()), outcomes.last())
    }
}

proof fn lemma_run_before_failure(outcomes: Seq<bool>, n: int)
    requires
        0 <= n <= outcomes.len(),
        n <= PLAN_LEN,
        forall|i: int| 0 <= i < n ==> outcomes[i],
    ensures
        run(outcomes.take(n)) == (SessionState { done: n as nat, failed: false }),
    decreases n,
{
    if n > 0 {
        lemma_run_before_failure(outcomes, n - 1);
        assert(outcomes.take(n).drop_last() =~= outcomes.take(n - 1));
    }
}

proof fn lemma_run_after_failure(outcomes: Seq<bool>, j: int, n: int)
    requires
        0 <= j < n <= outcomes.len(),
        j < PLAN_LEN,
        !outcomes[j],
        forall|i: int| 0 <= i < j ==> outcomes[i],
    ensures
        run(outcomes.take(n)) == (SessionState { done: j as nat, failed: true }),
    decreases n,
{
    assert(outcomes.take(n).drop_last() =~= outcomes.take(n - 1));
    if n == j + 1 {
        lemma_run_before_failure(outcomes, j);
    } else {
        lemma_run_after_failure(outcomes, j, n - 1);
    }
}

/// A failure halts the session for good: when the first failure reported is
/// the one at position `j`, exactly the `j` operations before it succeeded, and
/// whatever is reported afterwards, the session hands out no further operation.
pub proof fn failure_halts(outcomes: Seq<bool>, j: int)
    requires
        0 <= j < outcomes.len(),
        j < PLAN_LEN,
        !outcomes[j],
        forall|i: int| 0 <= i < j ==> outcomes[i],
    ensures
        run(outcomes) == (SessionState { done: j as nat, failed: true }),
        command_of(run(outcomes)) == (Command::Halted { step: j as usize }),
{
    lemma_run_after_failure(outcomes, j, outcomes.len() as int);
    assert(outcomes.take(outcomes.len() as int) =~= outcomes);
}

/// Without a failure, the session hands out the operations of the plan in order:
/// after `n` successful reports the next command is the operation at `n`, and
/// after all of them the session is finished.
pub proof fn successes_follow_plan(outcomes: Seq<bool>)
    requires
        outcomes.len() <= PLAN_LEN,
        forall|i: int| 0 <= i < outcomes.len() ==> outcomes[i],
    ensures
        outcomes.len() < PLAN_LEN ==> command_of(run(outcomes)) == Command::Perform(
            action_at(outcomes.len() as int),
        ),
        outcomes.len() == PLAN_LEN ==> command_of(run(outcomes)) == Command::Finished,
{
    lemma_run_before_failure(outcomes, outcomes.len() as int);
    assert(outcomes.take(outcomes.len() as int) =~= outcomes);
}

/// Hands out the operations of a session one at a time, in the order of the
/// plan, and stops for good at the first one reported as failed.
pub struct Session {
    done: usize,
    failed: bool,
}

impl View for Session {
    type V = SessionState;

    closed spec fn view(&self) -> SessionState {
        SessionState { done: self.done as nat, failed: self.failed }
    }
}

impl Session {
    pub closed spec fn wf(&self) -> bool {
        well_formed(self@)
    }

    /// A session before its first operation.
    pub fn new() -> (r: Session)
        ensures
            r.wf(),
            r@ == initial(),
    {
        Session { done: 0, failed: false }
    }

    /// What the caller is to do now.
    pub fn command(&self) -> (r: Command)
        requires
            self.wf(),
        ensures
            r == command_of(self@),
    {
        if self.failed {
            Command::Halted { step: self.done }
        } else {
            match step(self.done) {
                Some(a) => Command::Perform(a),
                None => Command::Finished,
            }
        }
    }

    /// Records the outcome of the operation that `command` handed out.
    pub fn record(&mut self, succeeded: bool)
        requires
            old(self).wf(),
        ensures
            final(self).wf(),
            final(self)@ == next_state(old(self)@, succeeded),
    {
        if !self.failed && self.done < PLAN_LEN {
            if succeeded {
                self.done = self.done + 1;
            } else {
                self.failed = true;
            }
        }
    }

    /// Number of operations that succeeded so far.
    pub fn completed(&self) -> (r: usize)
        ensures
            r == self@.done,
    {
        self.done
    }

    /// True once an operation has failed.
    pub fn is_halted(&self) -> (r: bool)
        ensures
            r == self@.failed,
    {
        self.failed
    }
}

} // verus!
