//! Sources of configuration.
//!
//! A source produces one value tree. Reading the raw data (a file, the
//! environment) is left to the caller; what a source makes of the raw data
//! is decided here.

pub mod env;
pub mod file;
pub mod remote;

use vstd::prelude::*;

verus! {

/// What every source of configuration has in common.
pub trait ConfigSource: Send + Sync {
    /// Whether the source can itself signal that its data changed. Unless a
    /// source says otherwise, it cannot.
    fn supports_hot_reload(&self) -> (supported: bool)
        default_ensures
            !supported,
    {
        false
    }
}

} // verus!
