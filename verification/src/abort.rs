//! Trusted bindings to the abort machinery of the `futures` crate.
//!
//! Every backend adapter in this library wraps the submitted unit of work in
//! `futures::future::Abortable`, so one abort capability (`AbortHandle`)
//! cancels work on any backend: once `abort` has been called, the `Abortable`
//! future completes without polling the wrapped work again.

use vstd::prelude::*;

verus! {

#[verifier::external_type_specification]
#[verifier::external_body]
pub struct ExAbortHandle(futures::future::AbortHandle);

#[verifier::external_type_specification]
#[verifier::external_body]
pub struct ExAbortRegistration(futures::future::AbortRegistration);

/// Relies on `futures::future::AbortHandle::new_pair`: a fresh abort
/// capability together with the registration that ties an `Abortable`
/// future to it.
#[verifier::external_body]
pub(crate) fn abort_new_pair() -> (futures::future::AbortHandle, futures::future::AbortRegistration) {
    futures::future::AbortHandle::new_pair()
}

/// Relies on `futures::future::AbortRegistration::handle`: another handle
/// tied to the same registration, functionally the same as the one returned
/// by `new_pair`.
#[verifier::external_body]
pub(crate) fn abort_registration_handle(
    reg: &futures::future::AbortRegistration,
) -> futures::future::AbortHandle {
    reg.handle()
}

/// Relies on `futures::future::AbortHandle::abort`: requests that the
/// associated `Abortable` future complete without further progress. Work
/// that has not started is prevented; work already being polled runs until
/// its current poll returns. Calling it again is a no-op.
#[verifier::external_body]
pub(crate) fn request_abort(handle: &futures::future::AbortHandle) {
    handle.abort()
}

/// Relies on `futures::future::AbortHandle::is_aborted`: whether `abort` was
/// called on any handle of the same registration. The answer depends on what
/// other threads have done, so nothing is promised of it.
#[verifier::external_body]
pub(crate) fn abort_was_requested(handle: &futures::future::AbortHandle) -> bool {
    handle.is_aborted()
}

/// Relies on `std::ptr::from_ref` and a pointer-to-integer cast: the
/// address of the given abort capability, a comparison-usable identity that
/// is stable while the value holding the capability does not move. No
/// promise is claimable of an address.
#[verifier::external_body]
pub(crate) fn capability_addr(handle: &futures::future::AbortHandle) -> usize {
    std::ptr::from_ref(handle) as usize
}

} // verus!
