use vstd::prelude::*;
use crate::event::{Interest, Token};

verus! {

/// Lowest descriptor number that a duplicated selector handle may take.
///
/// Descriptors 0, 1 and 2 are conventionally standard input, output and
/// error; some programs assume they are free for that use, so a selector
/// never places its own handle there.
pub const LOWEST_FD: i32 = 3;

/// Whether a descriptor number lies in the conventionally reserved slots.
pub fn is_reserved_fd(fd: i32) -> (r: bool)
    ensures
        r == (0 <= fd < LOWEST_FD),
{
    0 <= fd && fd < LOWEST_FD
}

/// A call that the caller is asked to make on the selector.
#[derive(Clone, Copy, Debug, PartialEq, Eq, Structural)]
pub enum SelectorRequest {
    Register { fd: i32, token: Token, interests: Interest },
    Reregister { fd: i32, token: Token, interests: Interest },
    Deregister { fd: i32 },
}

} // verus!
