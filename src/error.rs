use vstd::prelude::*;

verus! {

/// The error conditions that this layer tells apart.
///
/// `WouldBlock` and `Interrupted` steer the retry and re-arm decisions;
/// `AlreadyExists` and `NotFound` are the local state-mismatch signals;
/// every other operating-system error travels as its raw error number.
#[derive(Clone, Copy, Debug, PartialEq, Eq, Structural)]
pub enum IoError {
    WouldBlock,
    Interrupted,
    AlreadyExists,
    NotFound,
    Unsupported,
    Os(i32),
}

} // verus!
