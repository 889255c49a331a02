//! A client for the runc container runtime.
//!
//! The library says what is to be run and what the answers mean; the host does
//! the input and output. A command of the client, [`Runc`], gives a
//! [`task::Task`], which asks the host for one [`task::Action`] after another
//! and takes its replies, up to the outcome. What runc printed is read by the
//! functions of [`reply`], or, while it still runs, by an [`EventStream`].

pub mod args;
pub mod client;
pub mod command;
/// Container PTY terminal
pub mod console;
pub mod error;
/// Container events
pub mod events;
pub mod invocation;
pub mod laws;
pub mod lookup;
pub mod path;
pub mod reply;
pub mod stream;
pub mod task;
pub mod text;
pub mod time;

pub use crate::args::{CreateOpts, DeleteOpts, ExecOpts, KillOpts};
pub use crate::client::{Runc, RuncConfiguration, RuncLogFormat};
pub use crate::error::Error;
pub use crate::reply::{Container, TopResults, Version};
pub use crate::stream::EventStream;
