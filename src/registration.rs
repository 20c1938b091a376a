use vstd::prelude::*;
use std::sync::Arc;
use std::sync::atomic::{AtomicBool, Ordering};

verus! {

/// Shared liveness flag of one descriptor's registration.
///
/// Every holder sees the same flag. It starts out registered and can only
/// move, once, to unregistered. Other threads may move it at any moment, so
/// a read says nothing about the next read: what a holder decides from
/// [`RegistrationRecord::try_unregister`] is stated by the functions that
/// take its outcome as an argument.
#[derive(Debug)]
pub struct RegistrationRecord {
    flag: Arc<AtomicBool>,
}

impl RegistrationRecord {
    /// A fresh record, in the registered state.
    pub fn new() -> (r: RegistrationRecord) {
        RegistrationRecord { flag: Arc::new(AtomicBool::new(true)) }
    }

    /// Another handle on the same flag.
    pub fn share(&self) -> (r: RegistrationRecord) {
        RegistrationRecord { flag: self.flag.clone() }
    }

    /// Whether the registration was still live at the moment of the read.
    pub fn is_registered(&self) -> (r: bool) {
        self.flag.load(Ordering::Acquire)
    }

    /// Moves the record to unregistered. Returns `true` to exactly the one
    /// caller, among all holders, that made the move, and `false` to every
    /// caller that found it already made.
    pub fn try_unregister(&self) -> (won: bool) {
        self.flag.swap(false, Ordering::AcqRel)
    }
}

} // verus!
