//! Shared-ownership wrapper for a process's output transport.
//!
//! A pseudo-terminal master is one handle that more than one duty may need
//! to hold; sharing it behind a reference-counted pointer lets each holder
//! keep it alive without duplicating the underlying descriptor. The edges
//! that actually read from or write through the shared value live outside
//! this crate.

use vstd::prelude::*;
use std::sync::Arc;

verus! {

/// A shared handle to an output transport.
#[derive(Debug)]
pub struct IoArc<T>(pub Arc<T>);

impl<T> IoArc<T> {
    /// Wrap an already shared value.
    pub fn new(data: Arc<T>) -> (r: Self)
        ensures
            r.0 == data,
    {
        IoArc(data)
    }
}

} // verus!
