//! Verified core of a periodic file-mirroring agent.
//!
//! A configured set of remote resources is polled over HTTP and each is
//! mirrored to a local file path, writing only when the content has
//! actually changed. The logic that decides what happens — when the cache
//! of validation tokens is updated, when the local file is rewritten, which
//! outcome a step reports, and how the polling loop reacts to a shutdown
//! request — lives here and is verified. The surrounding I/O (HTTP,
//! filesystem, signals, logging, configuration loading) is ordinary Rust
//! around this library and hands it plain values.

use vstd::prelude::*;

pub mod cache;
pub mod control;
pub mod cycle;
pub mod detect;

verus! {

/// One configured synchronization target: a remote URL mirrored to a local
/// path. Immutable after load; the URL doubles as the cache key.
pub struct ResourceDescriptor {
    pub url: String,
    pub path: String,
}

/// The log levels the configuration may ask for.
#[derive(Clone, Copy, PartialEq, Eq, Structural, Debug)]
pub enum LogLevel {
    Error,
    Warn,
    Info,
    Debug,
    Trace,
}

/// Global settings, immutable after load. `interval_ms` is the spacing, in
/// milliseconds, between the end of one cycle and the start of the next.
pub struct SyncSettings {
    pub interval_ms: u64,
    pub create_directories: bool,
    pub log_level: LogLevel,
}

impl SyncSettings {
    /// A configuration is acceptable only with a positive poll interval.
    pub open spec fn wf(&self) -> bool {
        self.interval_ms > 0
    }

    /// Builds the settings, rejecting a non-positive interval: a malformed
    /// configuration is a fatal startup error.
    pub fn new(interval_ms: u64, create_directories: bool, log_level: LogLevel) -> (r: Option<
        SyncSettings,
    >)
        ensures
            r is Some <==> interval_ms > 0,
            r matches Some(s) ==> s.interval_ms == interval_ms && s.create_directories
                == create_directories && s.log_level == log_level && s.wf(),
    {
        if interval_ms > 0 {
            Some(SyncSettings { interval_ms, create_directories, log_level })
        } else {
            None
        }
    }
}

} // verus!
