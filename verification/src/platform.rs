//! The state of the platform that handlers and decorators read.

use vstd::prelude::*;
use crate::storage::Storage;

verus! {

/// The platform as it currently is. A decorator is a function of this
/// state and of its other arguments, and of nothing else.
#[derive(Debug, PartialEq, Eq)]
pub struct PlatformState {
    pub storage: Storage,
}

impl Clone for PlatformState {
    fn clone(&self) -> (r: Self)
        ensures
            r == *self,
    {
        PlatformState { storage: self.storage.clone() }
    }
}

impl PlatformState {
    /// A platform over the given storage.
    pub fn new(storage: Storage) -> (r: PlatformState)
        ensures
            r.storage == storage,
    {
        PlatformState { storage }
    }
}

} // verus!
