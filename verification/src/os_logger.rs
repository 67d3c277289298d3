//! Platform log sink handle.

use vstd::prelude::*;

verus! {

/// A stateless handle for the platform's unified log. It carries no
/// configuration: the subsystem and category names given at construction are
/// accepted and ignored.
#[derive(Clone, Copy, Debug, PartialEq, Eq, Structural)]
pub struct OsLogger;

impl OsLogger {
    /// Creates the handle. Every pair of names yields the same value.
    pub fn new<S, C>(_subsystem: S, _category: C) -> (logger: Self)
        where
            S: AsRef<str>,
            C: AsRef<str>,
        ensures
            logger == OsLogger,
    {
        OsLogger
    }
}

impl Default for OsLogger {
    /// The handle, as `new` makes it.
    fn default() -> (logger: Self)
        ensures
            logger == OsLogger,
    {
        OsLogger
    }
}

} // verus!
