//! Launching a command as the leader of its own process group, and handling
//! that group as one unit: signalling it, killing it, waiting for its leader,
//! and killing it when its handle is dropped.
//!
//! The library holds the rules and sends the signals. It does not spawn
//! processes and does not wait on them: whoever spawns a command hands the
//! process id of the leader to [`child::GroupChild::new`], and hands in what
//! the system answered to each wait.
//!
//! - [`builder`]: the options of a group that is not spawned yet.
//! - [`child`]: the handle on a spawned group, the state it keeps, and what
//!   holds of it.
//! - [`error`]: the failures of signalling and waiting.

pub mod builder;
pub mod child;
pub mod error;
mod sys;
