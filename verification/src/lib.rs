//! Decision logic of a vhost-user filesystem backend daemon.
//!
//! The daemon bridges the virtqueues of a guest to a filesystem protocol
//! server and offers an administrative channel over which further images are
//! mounted while requests are served. This crate holds the rules of that
//! daemon: what an event means, what has to happen next and what is handed
//! back. Waiting on handles, guest memory access and thread plumbing belong
//! to the program that drives these state machines.

pub mod api;
pub mod api_server;
pub mod backend;
pub mod daemon;
pub mod error;
pub mod mount;
pub mod multiplexer;
pub mod queue;
