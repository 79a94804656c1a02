//! Run one-line scripts through a command interpreter and read back what
//! happened as plain values: an exit code and the two output streams as text.
//!
//! The crate holds the decisions of such a run and proves them: how the
//! interpreter is to be invoked ([`shell`]), how the bytes it wrote become text
//! ([`text`]), how the way it ended becomes one exit code ([`outcome`]), and how
//! an outcome splits into success and failure ([`error`]). Starting the process
//! is left to the caller, who hands back a [`outcome::Launch`].

pub mod error;
pub mod outcome;
pub mod shell;
pub mod text;

pub use crate::error::Error;
pub use crate::outcome::{ExecutionOutcome, Launch, Termination, LAUNCH_FAILURE_CODE};
pub use crate::shell::{invocation, Invocation, Shell};
pub use crate::text::decode_lossy;
