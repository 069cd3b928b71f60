//! Core logic of an adapter that turns a non-blocking, descriptor-backed
//! resource into an awaitable one.
//!
//! The crate verifies the decisions the adapter makes: when a probe result
//! ends a retry loop, when it suspends, how the two-state readiness wait
//! arms its interest and yields exactly once, and how the reactor
//! registration is acquired and released. The asynchronous plumbing that
//! carries these decisions (the reactor and the task scheduler) lives
//! outside the library and feeds it plain values: probe outcomes and
//! arming outcomes.

mod error;
mod laws;
mod resource;
mod retry;
mod wait;

pub use error::ErrKind;
pub use error::IoErr;
pub use error::is_would_block;
pub use laws::lemma_arm_failure_aborts;
pub use laws::lemma_blocks_then_ready;
pub use laws::lemma_first_probe_error;
pub use laws::lemma_first_probe_success;
pub use resource::Async;
pub use resource::FdAdapter;
pub use resource::Registration;
pub use retry::Decision;
pub use retry::RetryLog;
pub use retry::retry_decision;
pub use retry::script_halts;
pub use retry::script_invocations;
pub use retry::script_result;
pub use retry::script_suspensions;
pub use wait::Interest;
pub use wait::WaitFuture;
pub use wait::WaitPoll;
pub use wait::WaitRun;
pub use wait::WaitState;
pub use wait::run_wait;
