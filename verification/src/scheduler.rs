//! The scheduler capability: submit deferred, cancellable work to a backend.
//!
//! `schedule` builds a deferred task from a body, an optional delay and
//! owned state, submits it, and returns a token that cancels it. The abort
//! capability is created before the work is submitted (it is tied to the
//! registration the backend receives), so the token returned by `schedule`
//! is effective from the moment `schedule` returns; the only race is a
//! backend that begins the body between submission and the caller's
//! `unsubscribe`, which no backend here can interrupt mid-body.

use vstd::prelude::*;

use core::time::Duration;

use crate::abort::abort_new_pair;
use crate::abort::abort_registration_handle;
use crate::abort::abort_was_requested;
use crate::backends::arc_runtime_ref;
use crate::backends::local_submit;
use crate::backends::pool_submit;
use crate::backends::runtime_submit;
use crate::lifecycle::fire_task;
use crate::token::SpawnHandle;

verus! {

/// The backend rejected the submitted work (it is shut down or saturated):
/// nothing was scheduled and the body will not run. Recoverable; the caller
/// may retry or submit elsewhere.
#[derive(Clone, Copy, PartialEq, Eq, Structural, Debug)]
pub struct SubmissionFailure;

/// A deferred unit of work: a not-yet-executed task body bundled with its
/// owned state, its optional minimum delay, a token for the work, and the
/// registration tying it to the abort capability inside the token
/// `task_future` returned with it.
pub struct DeferredTask<T, F> {
    pub(crate) reg: futures::future::AbortRegistration,
    pub(crate) delay: Option<Duration>,
    pub(crate) guard: futures::future::AbortHandle,
    pub(crate) task: F,
    pub(crate) token: SpawnHandle,
    pub(crate) state: T,
}

impl<T, F: FnOnce(SpawnHandle, T)> DeferredTask<T, F> {
    /// The task body accepts the token and state this deferred task will
    /// hand it.
    pub closed spec fn wf(self) -> bool {
        call_requires(self.task, (self.token, self.state))
    }

    /// The task body this deferred task will run.
    pub closed spec fn spec_task(self) -> F {
        self.task
    }

    /// The owned state this deferred task will hand the body.
    pub closed spec fn spec_state(self) -> T {
        self.state
    }

    /// The minimum delay before the body may run.
    pub closed spec fn spec_delay(self) -> Option<Duration> {
        self.delay
    }
}

/// The deferred computation itself, driven by a backend once the delay has
/// elapsed: read the token's closed state at this instant through the abort
/// capability, then run the body exactly once or skip it (`fire_task`).
pub(crate) fn fire_deferred<T, F: FnOnce(SpawnHandle, T)>(
    guard: &futures::future::AbortHandle,
    task: F,
    token: SpawnHandle,
    state: T,
)
    requires
        call_requires(task, (token, state)),
{
    let closed = abort_was_requested(guard);
    fire_task(closed, task, token, state);
}

/// Build a deferred, cancellation-aware task: a fresh open token, and the
/// deferred unit of work a scheduler's `spawn` submits to its backend —
/// carrying exactly the given body, state and delay. Building has no other
/// effect: the body is not invoked and nothing is submitted. When a backend
/// drives the deferred work it first waits out the delay, then consults the
/// token: if it was closed meanwhile the body is skipped, otherwise the
/// body runs exactly once with a token for the same work and the state. The
/// body runs only if the deferred work is actually handed to a backend.
pub fn task_future<T, F: FnOnce(SpawnHandle, T)>(
    task: F,
    state: T,
    delay: Option<Duration>,
) -> (r: (SpawnHandle, DeferredTask<T, F>))
    requires
        forall|t: SpawnHandle| #[trigger] call_requires(task, (t, state)),
    ensures
        !r.0.closed(),
        r.1.wf(),
        r.1.spec_task() == task,
        r.1.spec_state() == state,
        r.1.spec_delay() == delay,
{
    let (handle, reg) = abort_new_pair();
    let guard = abort_registration_handle(&reg);
    let token = SpawnHandle::new(abort_registration_handle(&reg));
    (SpawnHandle::new(handle), DeferredTask { reg, delay, guard, task, token, state })
}

/// A scheduler whose backend may run each task on any of its worker
/// threads, so the body and its state must be transferable across threads.
pub trait SharedScheduler {
    /// Whether this backend accepts every submission while it exists (so
    /// `spawn` and `schedule` are bound to return `Ok`).
    spec fn always_accepts(&self) -> bool;

    /// Submit one deferred unit of work to the backend: run it once, no
    /// earlier than its delay from now, unless the abort capability tied to
    /// it is used first. The capability was created before the work, so a
    /// token holding it cancels reliably from the moment of submission.
    fn spawn<T: Send + 'static, F: FnOnce(SpawnHandle, T) + Send + 'static>(
        &self,
        deferred: DeferredTask<T, F>,
    ) -> (r: Result<(), SubmissionFailure>)
        requires
            deferred.wf(),
        ensures
            self.always_accepts() ==> r is Ok,
    ;

    /// Build a deferred task from a body, an optional delay and owned
    /// state (`task_future`), submit it, and return the token that cancels
    /// it. Returns as soon as the work is submitted, with the token still
    /// open.
    fn schedule<T: Send + 'static, F: FnOnce(SpawnHandle, T) + Send + 'static>(
        &self,
        task: F,
        delay: Option<Duration>,
        state: T,
    ) -> (r: Result<SpawnHandle, SubmissionFailure>)
        requires
            forall|t: SpawnHandle| #[trigger] call_requires(task, (t, state)),
        ensures
            r matches Ok(token) ==> !token.closed(),
            self.always_accepts() ==> r is Ok,
    {
        let (token, deferred) = task_future(task, state, delay);
        match self.spawn(deferred) {
            Ok(()) => Ok(token),
            Err(e) => Err(e),
        }
    }
}

/// A scheduler whose backend runs every task on the one thread driving a
/// cooperative loop, so the body and its state need not be thread-safe.
pub trait LocalScheduler {
    /// Whether this backend accepts every submission while it exists (so
    /// `spawn` and `schedule` are bound to return `Ok`).
    spec fn always_accepts(&self) -> bool;

    /// Submit one deferred unit of work to the backend: run it once, no
    /// earlier than its delay from now, unless the abort capability tied to
    /// it is used first. The capability was created before the work, so a
    /// token holding it cancels reliably from the moment of submission.
    fn spawn<T: 'static, F: FnOnce(SpawnHandle, T) + 'static>(
        &self,
        deferred: DeferredTask<T, F>,
    ) -> (r: Result<(), SubmissionFailure>)
        requires
            deferred.wf(),
        ensures
            self.always_accepts() ==> r is Ok,
    ;

    /// Build a deferred task from a body, an optional delay and owned
    /// state (`task_future`), submit it, and return the token that cancels
    /// it; as `SharedScheduler::schedule`, but nothing captured need be
    /// thread-safe.
    fn schedule<T: 'static, F: FnOnce(SpawnHandle, T) + 'static>(
        &self,
        task: F,
        delay: Option<Duration>,
        state: T,
    ) -> (r: Result<SpawnHandle, SubmissionFailure>)
        requires
            forall|t: SpawnHandle| #[trigger] call_requires(task, (t, state)),
        ensures
            r matches Ok(token) ==> !token.closed(),
            self.always_accepts() ==> r is Ok,
    {
        let (token, deferred) = task_future(task, state, delay);
        match self.spawn(deferred) {
            Ok(()) => Ok(token),
            Err(e) => Err(e),
        }
    }
}

impl SharedScheduler for futures::executor::ThreadPool {
    /// A `ThreadPool` accepts every submission while it exists.
    open spec fn always_accepts(&self) -> bool {
        true
    }

    /// Submission to a `ThreadPool` never fails while the pool exists.
    /// Cancellation is not preemptive: a body already entered runs to
    /// completion.
    fn spawn<T: Send + 'static, F: FnOnce(SpawnHandle, T) + Send + 'static>(
        &self,
        deferred: DeferredTask<T, F>,
    ) -> Result<(), SubmissionFailure> {
        match pool_submit(self, deferred) {
            Ok(()) => Ok(()),
            Err(_) => Err(SubmissionFailure),
        }
    }
}

impl LocalScheduler for futures::executor::LocalSpawner {
    /// A `LocalSpawner` outlives its pool, and submission fails once the
    /// pool is gone, so acceptance is not unconditional.
    open spec fn always_accepts(&self) -> bool {
        false
    }

    /// Submission fails exactly when the `LocalPool` this spawner came from
    /// is gone. Cancellation is not preemptive: a body already entered runs
    /// to completion on the pool's thread.
    fn spawn<T: 'static, F: FnOnce(SpawnHandle, T) + 'static>(
        &self,
        deferred: DeferredTask<T, F>,
    ) -> Result<(), SubmissionFailure> {
        match local_submit(self, deferred) {
            Ok(()) => Ok(()),
            Err(_) => Err(SubmissionFailure),
        }
    }
}

impl SharedScheduler for tokio::runtime::Runtime {
    /// Shutting a runtime down consumes it, so one that can still be
    /// spawned on accepts every submission.
    open spec fn always_accepts(&self) -> bool {
        true
    }

    /// Submission to a runtime never fails while the runtime exists.
    /// Cancellation is not preemptive for the body itself: the runtime
    /// aborts only at its own suspension points, and the body is one
    /// synchronous closure.
    fn spawn<T: Send + 'static, F: FnOnce(SpawnHandle, T) + Send + 'static>(
        &self,
        deferred: DeferredTask<T, F>,
    ) -> Result<(), SubmissionFailure> {
        runtime_submit(self, deferred);
        Ok(())
    }
}

impl SharedScheduler for std::sync::Arc<tokio::runtime::Runtime> {
    /// As for `tokio::runtime::Runtime`.
    open spec fn always_accepts(&self) -> bool {
        true
    }

    /// As for `tokio::runtime::Runtime`: never fails while the runtime
    /// exists, and cancellation is not preemptive for the body itself.
    fn spawn<T: Send + 'static, F: FnOnce(SpawnHandle, T) + Send + 'static>(
        &self,
        deferred: DeferredTask<T, F>,
    ) -> Result<(), SubmissionFailure> {
        runtime_submit(arc_runtime_ref(self), deferred);
        Ok(())
    }
}

} // verus!
