//! A process supervisor written without I/O of its own.
//!
//! The supervisor owns the lifecycle of one child process: it reaps an orphan
//! left by an earlier run, starts the child, restarts it when it exits, gathers
//! its output and stops it. Every operation is a state machine: the host
//! performs the [`protocol::Action`] that a step asks for and hands back the
//! [`protocol::Event`] that came of it.
pub mod pid_file;

pub mod protocol;
pub mod process;
pub mod model;
pub mod laws;
pub mod text_match;
pub mod debug;
