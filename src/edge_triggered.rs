//! Adapters for an edge-triggered selector, which reports each readiness
//! transition once and needs no re-arming.

use vstd::prelude::*;
use crate::error::IoError;
use crate::event::{Interest, Token};
use crate::selector::SelectorRequest;

verus! {

/// Registrar of the wake descriptor under an edge-triggered selector. Once
/// the descriptor is registered, nothing remains to be done between wakes.
#[derive(Clone, Copy, Debug, PartialEq, Eq, Structural)]
pub struct WakerRegistrar;

impl WakerRegistrar {
    /// The selector registration that binds the wake descriptor.
    pub fn register_request(fd: i32, token: Token) -> (r: SelectorRequest)
        ensures
            r == (SelectorRequest::Register { fd, token, interests: Interest::readable_spec() }),
    {
        SelectorRequest::Register { fd, token, interests: Interest::readable() }
    }

    /// The registrar, once the selector answered the registration.
    pub fn register(outcome: Result<(), IoError>) -> (r: Result<WakerRegistrar, IoError>)
        ensures
            outcome is Ok ==> r == Ok::<WakerRegistrar, IoError>(WakerRegistrar),
            outcome is Err ==> r == Err::<WakerRegistrar, IoError>(outcome->Err_0),
    {
        match outcome {
            Ok(()) => Ok(WakerRegistrar),
            Err(e) => Err(e),
        }
    }

    /// Nothing to re-arm: the selector reports the next transition by itself.
    pub fn prepare_to_wake(&self) -> (r: Option<SelectorRequest>)
        ensures
            r is None,
    {
        None
    }
}

} // verus!
