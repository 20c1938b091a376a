use vstd::prelude::*;
use crate::error::IoError;

verus! {

/// The waker of the backend used when no polling support is available.
#[derive(Debug)]
pub struct Waker {}

impl Waker {
    /// Without a polling engine there is nobody to wake: the request is
    /// refused as unsupported.
    pub fn wake(&self) -> (r: Result<(), IoError>)
        ensures
            r == Err::<(), IoError>(IoError::Unsupported),
    {
        Err(IoError::Unsupported)
    }
}

} // verus!
