//! Control of a process under tracing: starting or attaching to it, pausing,
//! resuming, killing and detaching it, decoding the stops the host reports
//! into trace events, and checking memory transfers for completeness.
//!
//! The host calls themselves (fork, ptrace, wait, process memory access) are
//! made by the caller; the session here decides what each call means and
//! what to do next, and states it in its contracts.

pub mod error;
pub mod event;
pub mod pid;
pub mod session;
pub mod wait;

pub use error::{Error, OsError};
pub use event::{MessageQueue, TraceEvent};
pub use pid::Pid;
pub use session::{Action, Debugger, ExecutionState, Resume, SpawnRequest, Stop};
