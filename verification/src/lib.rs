//! A scheduling layer for reactive streams: deferred, cancellable tasks
//! submitted to pluggable execution backends, each paired with a leaf
//! cancellation token.

mod abort;
mod backends;
mod lifecycle;
mod scheduler;
mod token;

pub use scheduler::DeferredTask;
pub use scheduler::LocalScheduler;
pub use scheduler::SharedScheduler;
pub use scheduler::SubmissionFailure;
pub use scheduler::task_future;

pub use lifecycle::LifecycleState;
pub use lifecycle::TaskEvent;
pub use lifecycle::fire_task;
pub use lifecycle::lemma_at_most_once;
pub use lifecycle::lemma_closed_never_runs;
pub use lifecycle::lemma_never_unsubscribed_runs_once;
pub use lifecycle::lemma_ran_never_runs_again;
pub use lifecycle::lemma_two_unsubscribes_observably_one;
pub use lifecycle::lemma_unsubscribe_idempotent;
pub use lifecycle::run_count;
pub use lifecycle::run_state;
pub use lifecycle::step_runs;
pub use lifecycle::step_state;
pub use token::SpawnHandle;
pub use token::lemma_close_idempotent;
