//! Trusted bindings to the execution backends.
//!
//! Each `*_submit` function is one backend's submit operation: it turns a
//! deferred task into a future — the optional delay from
//! `async_std::task::sleep` (which waits at least the given duration, on
//! every backend; an absent delay runs the work as soon as the backend
//! reaches it), followed by the library's own guarded computation
//! `fire_deferred` — wraps it in `futures::future::Abortable` tied to the
//! task's registration (so the matching abort capability exists before the
//! work can start), and hands it to the backend.

use vstd::prelude::*;

use crate::scheduler::DeferredTask;
use crate::scheduler::fire_deferred;
use crate::token::SpawnHandle;

verus! {

#[verifier::external_type_specification]
#[verifier::external_body]
pub struct ExThreadPool(futures::executor::ThreadPool);

#[verifier::external_type_specification]
#[verifier::external_body]
pub struct ExLocalSpawner(futures::executor::LocalSpawner);

#[verifier::external_type_specification]
#[verifier::external_body]
pub struct ExTokioRuntime(tokio::runtime::Runtime);

#[verifier::external_type_specification]
#[verifier::external_body]
pub struct ExSpawnError(futures::task::SpawnError);

/// Relies on `futures::task::SpawnExt::spawn` on
/// `futures::executor::ThreadPool`, whose `spawn_obj` unconditionally
/// returns `Ok` — a pool that is still held accepts every submission — and
/// on `futures::future::Abortable::new` and `async_std::task::sleep`. The
/// pool's workers poll the future, so cancellation is not preemptive: once
/// the body is entered it runs to completion.
#[verifier::external_body]
pub(crate) fn pool_submit<T: Send + 'static, F: FnOnce(SpawnHandle, T) + Send + 'static>(
    pool: &futures::executor::ThreadPool,
    deferred: DeferredTask<T, F>,
) -> (r: Result<(), futures::task::SpawnError>)
    requires
        deferred.wf(),
    ensures
        r is Ok,
{
    let DeferredTask { reg, delay, guard, task, token, state } = deferred;
    let delayed = futures::FutureExt::map(
        async_std::task::sleep(delay.unwrap_or_default()),
        move |_| fire_deferred(&guard, task, token, state),
    );
    let fut = futures::future::Abortable::new(delayed, reg);
    futures::task::SpawnExt::spawn(pool, futures::FutureExt::map(fut, |_| ()))
}

/// Relies on `futures::task::LocalSpawnExt::spawn_local` on
/// `futures::executor::LocalSpawner` (`Err` exactly when the pool it came
/// from is gone), `futures::future::Abortable::new` and
/// `async_std::task::sleep`. The single thread driving the pool polls the
/// future, so cancellation is not preemptive and the body runs on that
/// thread.
#[verifier::external_body]
pub(crate) fn local_submit<T: 'static, F: FnOnce(SpawnHandle, T) + 'static>(
    spawner: &futures::executor::LocalSpawner,
    deferred: DeferredTask<T, F>,
) -> Result<(), futures::task::SpawnError>
    requires
        deferred.wf(),
{
    let DeferredTask { reg, delay, guard, task, token, state } = deferred;
    let delayed = futures::FutureExt::map(
        async_std::task::sleep(delay.unwrap_or_default()),
        move |_| fire_deferred(&guard, task, token, state),
    );
    let fut = futures::future::Abortable::new(delayed, reg);
    futures::task::LocalSpawnExt::spawn_local(spawner, futures::FutureExt::map(fut, |_| ()))
}

/// Relies on `tokio::runtime::Runtime::spawn` (which accepts work as long
/// as the runtime exists; the handle to the spawned task is dropped,
/// detaching it), `futures::future::Abortable::new` and
/// `async_std::task::sleep`. The runtime's workers poll the future, so
/// cancellation is not preemptive for the body itself.
#[verifier::external_body]
pub(crate) fn runtime_submit<T: Send + 'static, F: FnOnce(SpawnHandle, T) + Send + 'static>(
    rt: &tokio::runtime::Runtime,
    deferred: DeferredTask<T, F>,
)
    requires
        deferred.wf(),
{
    let DeferredTask { reg, delay, guard, task, token, state } = deferred;
    let delayed = futures::FutureExt::map(
        async_std::task::sleep(delay.unwrap_or_default()),
        move |_| fire_deferred(&guard, task, token, state),
    );
    let fut = futures::future::Abortable::new(delayed, reg);
    let _ = rt.spawn(futures::FutureExt::map(fut, |_| ()));
}

/// Relies on `std::sync::Arc::as_ref`: a reference to the runtime the `Arc`
/// holds.
#[verifier::external_body]
pub(crate) fn arc_runtime_ref(
    rt: &std::sync::Arc<tokio::runtime::Runtime>,
) -> &tokio::runtime::Runtime {
    rt.as_ref()
}

} // verus!
