//! The leaf cancellation token: one backend abort capability plus a closed
//! flag, handed to the caller by `schedule` so the scheduled work can be
//! cancelled before (best effort: during) execution.

use vstd::prelude::*;

use crate::abort::abort_was_requested;
use crate::abort::capability_addr;
use crate::abort::request_abort;

verus! {

/// A handle to one scheduled unit of work.
///
/// A token owns exactly one backend abort capability, attached when the work
/// is submitted and never replaced. Its state goes `Open` to `Closed` one
/// way: `unsubscribe` closes it and asks the backend to abort the work;
/// closing an already closed token changes nothing further.
pub struct SpawnHandle {
    handle: futures::future::AbortHandle,
    is_closed: bool,
}

impl SpawnHandle {
    /// Whether this token has been closed by `unsubscribe`.
    pub closed spec fn closed(self) -> bool {
        self.is_closed
    }

    /// The one backend abort capability this token owns.
    pub closed spec fn capability(self) -> futures::future::AbortHandle {
        self.handle
    }

    /// The token as it stands after a close request: the same abort
    /// capability, with the closed flag set.
    pub closed spec fn after_close(self) -> SpawnHandle {
        SpawnHandle { is_closed: true, ..self }
    }

    /// Wrap a backend abort capability in a fresh, open token.
    pub fn new(handle: futures::future::AbortHandle) -> (r: SpawnHandle)
        ensures
            !r.closed(),
            r.capability() == handle,
    {
        SpawnHandle { handle, is_closed: false }
    }

    /// Close the token and request, best effort, that the backend abort the
    /// associated work: work that has not started will not start; work
    /// already running is interrupted only at the backend's own suspension
    /// points. Calling this again has the same effect as calling it once.
    pub fn unsubscribe(&mut self)
        ensures
            *final(self) == old(self).after_close(),
            final(self).closed(),
            final(self).capability() == old(self).capability(),
    {
        self.is_closed = true;
        request_abort(&self.handle);
    }

    /// Whether the token is closed; the deferred task's pre-execution guard
    /// and any composite aggregate holding this leaf consult it. Besides
    /// this token's own flag it consults the shared abort flag of the work,
    /// so a body polling the token it was handed observes the caller's
    /// `unsubscribe`. Only the closed direction can be promised: the shared
    /// flag depends on what other threads have done.
    pub fn is_closed(&self) -> (r: bool)
        ensures
            self.closed() ==> r,
    {
        self.is_closed || abort_was_requested(&self.handle)
    }

    /// A stable, comparison-usable identity for this leaf — the address of
    /// its abort capability, not content equality — by which a composite
    /// aggregate adds and removes this specific token. Stable only while
    /// the token does not move.
    pub fn identity(&self) -> usize {
        capability_addr(&self.handle)
    }
}

/// Law: closing a token twice is observably identical to closing it once —
/// the state after two close requests equals the state after one.
pub proof fn lemma_close_idempotent(t: SpawnHandle)
    ensures
        t.after_close().after_close() == t.after_close(),
{
}

} // verus!
