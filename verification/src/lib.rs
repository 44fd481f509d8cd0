//! Session orchestration for a diagnostic stream receiver.
//!
//! A session attaches to a stream of messages, prints what it receives, and
//! stops after a number of messages, after a running time, or both. This
//! crate holds its decisions, all of them verified, and none of its outside
//! work: it opens no socket, starts no thread and prints nothing.
//!
//! - [`arguments`] reads the numbers of the command line, and [`options`]
//!   holds what it gives.
//! - [`config`] validates the options and fills in the defaults.
//! - [`endpoint`] says where a session connects to: a given address, an
//!   address that the dispatcher names, or the debug source of the run.
//! - [`presenter`] says what is printed at each print level.
//! - [`controller`] takes a session from its start to its end. Its driver
//!   performs each [`action::Action`] that it asks for and reports back with
//!   an [`action::Event`].
//! - [`machine`] is the controller as a state machine over mathematical
//!   values; [`laws`] and [`script`] prove what holds of every run.

pub mod action;
pub mod arguments;
pub mod config;
pub mod controller;
pub mod discipline;
pub mod endpoint;
pub mod error;
pub mod laws;
pub mod machine;
pub mod options;
pub mod presenter;
pub mod script;
pub mod statistics;
