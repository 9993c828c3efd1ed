//! A run flag shared between the thread that drives a guest and the threads
//! that may ask it to stop.
use std::sync::atomic::AtomicBool;
use std::sync::atomic::Ordering;
use std::sync::Arc;
use vstd::prelude::*;

verus! {

/// `Arc::clone`: another pointer to the same allocation, so the handle
/// returned refers to the flag that `flag` refers to.
#[verifier::external_body]
fn share(flag: &Arc<AtomicBool>) -> (r: Arc<AtomicBool>)
    ensures
        r == *flag,
{
    Arc::clone(flag)
}

/// A flag that any holder of a handle may set or clear. Other threads can
/// change it at any moment, so nothing is claimed of what a read returns.
pub struct RunFlag {
    flag: Arc<AtomicBool>,
}

impl RunFlag {
    /// The shared flag that every handle refers to.
    pub closed spec fn shared(&self) -> Arc<AtomicBool> {
        self.flag
    }

    /// A new flag, initially set to `value`.
    pub fn new(value: bool) -> Self {
        RunFlag { flag: Arc::new(AtomicBool::new(value)) }
    }

    /// Set the flag to `value`.
    pub fn store(&self, value: bool) {
        self.flag.store(value, Ordering::SeqCst);
    }

    /// The value of the flag at the moment of the call.
    pub fn load(&self) -> bool {
        self.flag.load(Ordering::SeqCst)
    }

    /// Another handle on the same flag, for a thread that does not own the
    /// flag's holder.
    pub fn handle(&self) -> (h: Arc<AtomicBool>)
        ensures
            h == self.shared(),
    {
        share(&self.flag)
    }
}

} // verus!
