//! Core of a remote-build dispatcher: a local project tree is mirrored to a
//! deterministic scratch directory on a build host, a build command runs there
//! in a chosen toolchain and environment, and artifacts are copied back.
//!
//! This crate holds the verified logic: configuration resolution with
//! precedence, derivation of the remote workspace path, construction of the
//! remote command line, and the orchestration state machine that sequences the
//! transfer, build and copy-back stages and maps their outcomes to exit codes.
//! The transports themselves (tree transfer, remote execution) are capability
//! interfaces that a thin host program implements around this crate.

pub mod command;
pub mod config;
pub mod pipeline;
pub mod textfmt;
pub mod workspace;
