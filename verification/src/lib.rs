//! Core logic of a socket-activated, multi-listener web daemon.
//!
//! The crate covers three tightly coupled concerns: resolving effective
//! configuration from several conflicting sources (command line, config file,
//! supervisor environment, user project directories, compiled defaults),
//! classifying supervisor-inherited socket descriptors into typed listeners,
//! and the capability-gated request routing shared by every connection.
//! Transport plumbing (the async runtime, HTTP framing, filesystem and
//! environment access) lives outside this crate and feeds it plain values.

pub mod cli;
pub mod text;
pub mod config;
pub mod daemon;
pub mod io;
