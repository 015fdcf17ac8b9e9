//! A guard that owns one opaque native handle and yields it for destruction
//! at most once, so teardown never destroys the same native resource twice.

use vstd::prelude::*;

verus! {

/// Exclusive owner of one opaque native handle. `take` hands the handle out
/// exactly once; after that the guard is disarmed and further calls are
/// no-ops, tolerating teardown being triggered twice.
pub struct HandleGuard {
    /// The owned native handle.
    pub handle: u64,
    /// Whether the handle has not yet been yielded for destruction.
    pub armed: bool,
}

impl HandleGuard {
    /// Wraps a freshly created native handle.
    pub fn new(handle: u64) -> (g: HandleGuard)
        ensures
            g.handle == handle,
            g.armed,
    {
        HandleGuard { handle, armed: true }
    }

    /// The handle, for making native calls against the live resource.
    pub fn raw(&self) -> (r: u64)
        ensures
            r == self.handle,
    {
        self.handle
    }

    /// Yields the handle for destruction. The first call returns it and
    /// disarms the guard; every later call returns `None`, so the owner
    /// destroys the native resource exactly once.
    pub fn take(&mut self) -> (r: Option<u64>)
        ensures
            old(self).armed ==> r == Some(old(self).handle),
            !old(self).armed ==> r is None,
            !final(self).armed,
            final(self).handle == old(self).handle,
    {
        if self.armed {
            self.armed = false;
            Some(self.handle)
        } else {
            None
        }
    }
}

} // verus!
