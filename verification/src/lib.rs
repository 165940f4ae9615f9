//! Sound cues for shell commands.
//!
//! A long-lived daemon keeps a set of rules, each a regular expression with
//! one or more audio files, and plays the files of every rule that matches a
//! command reported by a short-lived client. This crate holds the rules of
//! that system as verified code: the configuration model and its validation,
//! the reloadable configuration store, the wire format spoken between client
//! and daemon, the dispatch policy, and the decisions behind the daemon's
//! start, stop and status commands. Sockets, files, threads and the audio
//! device belong to the program built around this library.

pub mod client;
pub mod config;
pub mod daemon;
