//! Explicit once-only initialization state for the log sinks.
//!
//! The log sinks themselves (files, console, tracing exporters) are plain
//! I/O owned by the entry point; what is kept here is the once-only
//! contract: initialization is requested through an explicit guard value,
//! and only the first request performs it, rather than hiding the guarantee
//! in process-wide mutable state.

use vstd::prelude::*;

verus! {

/// Guard over logging initialization, owned by the entry point.
pub struct LoggingInit {
    pub initialized: bool,
}

impl LoggingInit {
    /// A fresh guard: nothing initialized yet.
    pub fn new() -> (r: LoggingInit)
        ensures
            !r.initialized,
    {
        LoggingInit { initialized: false }
    }

    /// Request initialization.  Returns whether this request is the first —
    /// only then may the caller set the sinks up.  Afterwards the guard is
    /// initialized for good: a second request changes nothing and returns
    /// `false`.
    pub fn try_init(&mut self) -> (first: bool)
        ensures
            final(self).initialized,
            first == !old(self).initialized,
    {
        let first = !self.initialized;
        self.initialized = true;
        first
    }
}

} // verus!
