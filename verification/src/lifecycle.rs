//! The lifecycle of one scheduled task, and the pre-execution guard.
//!
//! The scheduling layer sees two facts about a task: whether its token has
//! been closed, and whether its body has run. Two kinds of event change
//! them: the caller closes the token (`Unsubscribe`), or the backend, after
//! any delay, reaches the task and consults the guard (`Fire`). The body
//! runs on `Fire` exactly when the token is still open and the body has not
//! run before; `fire_task` is that decision in executable form, and the
//! lemmas below state the laws it obeys over any sequence of events.

use vstd::prelude::*;

use crate::token::SpawnHandle;

verus! {

/// An event in the life of one scheduled task.
#[derive(Clone, Copy, PartialEq, Eq, Structural, Debug)]
pub enum TaskEvent {
    /// The caller closed the token.
    Unsubscribe,
    /// The backend reached the task (its delay, if any, elapsed) and
    /// consulted the pre-execution guard.
    Fire,
}

/// What the scheduling layer knows of one task: token closed, body ran.
#[derive(Clone, Copy, PartialEq, Eq, Structural, Debug)]
pub struct LifecycleState {
    pub closed: bool,
    pub ran: bool,
}

/// The state after one event: closing is one-way, and a `Fire` marks the
/// body as run exactly when the guard lets it run.
pub open spec fn step_state(s: LifecycleState, ev: TaskEvent) -> LifecycleState {
    match ev {
        TaskEvent::Unsubscribe => LifecycleState { closed: true, ran: s.ran },
        TaskEvent::Fire => if !s.closed && !s.ran {
            LifecycleState { closed: s.closed, ran: true }
        } else {
            s
        },
    }
}

/// Whether the body runs on this event: only a `Fire`, only while the token
/// is open, and only if the body has not run before.
pub open spec fn step_runs(s: LifecycleState, ev: TaskEvent) -> bool {
    ev is Fire && !s.closed && !s.ran
}

/// The state after a whole sequence of events.
pub open spec fn run_state(s: LifecycleState, evs: Seq<TaskEvent>) -> LifecycleState
    decreases evs.len(),
{
    if evs.len() == 0 {
        s
    } else {
        run_state(step_state(s, evs[0]), evs.drop_first())
    }
}

/// How many times the body runs over a sequence of events.
pub open spec fn run_count(s: LifecycleState, evs: Seq<TaskEvent>) -> nat
    decreases evs.len(),
{
    if evs.len() == 0 {
        0
    } else {
        (if step_runs(s, evs[0]) {
            1nat
        } else {
            0nat
        }) + run_count(step_state(s, evs[0]), evs.drop_first())
    }
}

/// The pre-execution guard, in executable form: given the closed state read
/// at the instant the backend is about to invoke the body, run the body
/// exactly when the token was open. Returns whether the body ran; running
/// consumes the body, so one call of this guard runs it at most once.
pub fn fire_task<T, F: FnOnce(SpawnHandle, T)>(
    closed: bool,
    task: F,
    token: SpawnHandle,
    state: T,
) -> (ran: bool)
    requires
        !closed ==> call_requires(task, (token, state)),
    ensures
        ran == step_runs(LifecycleState { closed, ran: false }, TaskEvent::Fire),
        ran ==> call_ensures(task, (token, state), ()),
{
    if closed {
        false
    } else {
        task(token, state);
        true
    }
}

/// Law: for a task whose token is closed before the backend reaches its
/// guard, the body never executes — under any later events the run count
/// stays zero.
pub proof fn lemma_closed_never_runs(s: LifecycleState, evs: Seq<TaskEvent>)
    requires
        s.closed,
    ensures
        run_count(s, evs) == 0,
    decreases evs.len(),
{
    if evs.len() > 0 {
        lemma_closed_never_runs(step_state(s, evs[0]), evs.drop_first());
    }
}

/// Law: once the body has run, it never runs again, whatever events follow.
pub proof fn lemma_ran_never_runs_again(s: LifecycleState, evs: Seq<TaskEvent>)
    requires
        s.ran,
    ensures
        run_count(s, evs) == 0,
    decreases evs.len(),
{
    if evs.len() > 0 {
        lemma_ran_never_runs_again(step_state(s, evs[0]), evs.drop_first());
    }
}

/// Law: a freshly scheduled task (open token, body not yet run) that is
/// never unsubscribed runs exactly once, provided the backend fires it.
pub proof fn lemma_never_unsubscribed_runs_once(s: LifecycleState, evs: Seq<TaskEvent>)
    requires
        !s.closed,
        !s.ran,
        evs.len() > 0,
        forall|i: int| 0 <= i < evs.len() ==> evs[i] != TaskEvent::Unsubscribe,
    ensures
        run_count(s, evs) == 1,
    decreases evs.len(),
{
    assert(evs[0] is Fire);
    let s1 = step_state(s, evs[0]);
    assert(forall|i: int|
        0 <= i < evs.drop_first().len() ==> evs.drop_first()[i] == evs[i + 1]);
    lemma_ran_never_runs_again(s1, evs.drop_first());
}

/// Law: whatever the events, the body of a task that has not yet run runs
/// at most once.
pub proof fn lemma_at_most_once(s: LifecycleState, evs: Seq<TaskEvent>)
    requires
        !s.ran,
    ensures
        run_count(s, evs) <= 1,
    decreases evs.len(),
{
    if evs.len() > 0 {
        let s1 = step_state(s, evs[0]);
        if step_runs(s, evs[0]) {
            lemma_ran_never_runs_again(s1, evs.drop_first());
        } else {
            lemma_at_most_once(s1, evs.drop_first());
        }
    }
}

/// Law: a second close request changes nothing the first did not already
/// change, and a close request never runs the body.
pub proof fn lemma_unsubscribe_idempotent(s: LifecycleState)
    ensures
        step_state(step_state(s, TaskEvent::Unsubscribe), TaskEvent::Unsubscribe) == step_state(
            s,
            TaskEvent::Unsubscribe,
        ),
        !step_runs(s, TaskEvent::Unsubscribe),
{
}

/// Law: unsubscribing twice is observably identical to unsubscribing once —
/// under any later events the task passes through the same states and the
/// body runs the same number of times.
pub proof fn lemma_two_unsubscribes_observably_one(s: LifecycleState, evs: Seq<TaskEvent>)
    ensures
        run_state(step_state(step_state(s, TaskEvent::Unsubscribe), TaskEvent::Unsubscribe), evs)
            == run_state(step_state(s, TaskEvent::Unsubscribe), evs),
        run_count(step_state(step_state(s, TaskEvent::Unsubscribe), TaskEvent::Unsubscribe), evs)
            == run_count(step_state(s, TaskEvent::Unsubscribe), evs),
{
    lemma_unsubscribe_idempotent(s);
}

} // verus!
