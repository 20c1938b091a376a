//! Decisions of the wake-signal drivers.
//!
//! A driver signals a wake by writing to its primitive and acknowledges it
//! by reading from it. The caller makes each access and hands the outcome
//! (bytes moved, or the error) to a step function here, which says what
//! comes next. Models of the two descriptor-based primitives state what
//! a run of these steps achieves.

use vstd::prelude::*;
use crate::error::IoError;

verus! {

/// What a wake does after one attempt to signal the primitive.
#[derive(Clone, Copy, Debug, PartialEq, Eq, Structural)]
pub enum WakeStep {
    /// The signal is in place.
    Done,
    /// The primitive is full: acknowledge what is pending, then try again.
    DrainThenRetry,
    /// The attempt was interrupted: try again.
    Retry,
    /// Give up with this error.
    Fail(IoError),
}

/// What draining does after one read of the primitive.
#[derive(Clone, Copy, Debug, PartialEq, Eq, Structural)]
pub enum DrainStep {
    /// Bytes were read, or the read was interrupted: read again.
    Continue,
    /// Nothing is pending any more.
    Done,
    /// Give up with this error.
    Fail(IoError),
}

/// Size of the buffer a pipe is drained with.
pub const DRAIN_BUF: usize = 4096;

/// Flag set on a kernel event receipt that reports an error.
pub const EV_ERROR: u16 = 0x4000;

pub open spec fn counter_wake_spec(write: Result<usize, IoError>) -> WakeStep {
    match write {
        Ok(_) => WakeStep::Done,
        Err(IoError::WouldBlock) => WakeStep::DrainThenRetry,
        Err(e) => WakeStep::Fail(e),
    }
}

pub open spec fn counter_reset_spec(read: Result<usize, IoError>) -> Result<(), IoError> {
    match read {
        Ok(_) => Ok(()),
        Err(IoError::WouldBlock) => Ok(()),
        Err(e) => Err(e),
    }
}

pub open spec fn pipe_wake_spec(write: Result<usize, IoError>) -> WakeStep {
    match write {
        Ok(_) => WakeStep::Done,
        Err(IoError::WouldBlock) => WakeStep::DrainThenRetry,
        Err(IoError::Interrupted) => WakeStep::Retry,
        Err(e) => WakeStep::Fail(e),
    }
}

pub open spec fn pipe_drain_spec(read: Result<usize, IoError>) -> DrainStep {
    match read {
        Ok(n) => if n > 0 {
            DrainStep::Continue
        } else {
            DrainStep::Done
        },
        Err(IoError::WouldBlock) => DrainStep::Done,
        Err(IoError::Interrupted) => DrainStep::Continue,
        Err(e) => DrainStep::Fail(e),
    }
}

pub open spec fn kevent_receipt_spec(flags: u16, data: i64) -> Result<(), IoError> {
    if (flags & EV_ERROR) != 0 && data != 0 {
        Err(IoError::Os(data as i32))
    } else {
        Ok(())
    }
}

/// Counter-based driver, after writing one to its counter. A write that
/// would block means the counter would overflow: the counter is reset and
/// the write tried again, so overflow never reaches the caller.
pub fn counter_wake_step(write: Result<usize, IoError>) -> (r: WakeStep)
    ensures
        r == counter_wake_spec(write),
{
    match write {
        Ok(_) => WakeStep::Done,
        Err(IoError::WouldBlock) => WakeStep::DrainThenRetry,
        Err(e) => WakeStep::Fail(e),
    }
}

/// Counter-based driver, after reading (and so clearing) its counter. A
/// read that would block finds no pending wake, which is no error.
pub fn counter_reset_result(read: Result<usize, IoError>) -> (r: Result<(), IoError>)
    ensures
        r == counter_reset_spec(read),
{
    match read {
        Ok(_) => Ok(()),
        Err(IoError::WouldBlock) => Ok(()),
        Err(e) => Err(e),
    }
}

/// Pipe-based driver, after writing one byte. A full pipe is drained and
/// the write tried again; an interrupted write is tried again.
pub fn pipe_wake_step(write: Result<usize, IoError>) -> (r: WakeStep)
    ensures
        r == pipe_wake_spec(write),
{
    match write {
        Ok(_) => WakeStep::Done,
        Err(IoError::WouldBlock) => WakeStep::DrainThenRetry,
        Err(IoError::Interrupted) => WakeStep::Retry,
        Err(e) => WakeStep::Fail(e),
    }
}

/// Pipe-based driver, after one read while draining. Draining goes on while
/// reads return bytes or are interrupted, and ends without error once the
/// pipe is empty.
pub fn pipe_drain_step(read: Result<usize, IoError>) -> (r: DrainStep)
    ensures
        r == pipe_drain_spec(read),
{
    match read {
        Ok(n) => if n > 0 {
            DrainStep::Continue
        } else {
            DrainStep::Done
        },
        Err(IoError::WouldBlock) => DrainStep::Done,
        Err(IoError::Interrupted) => DrainStep::Continue,
        Err(e) => DrainStep::Fail(e),
    }
}

/// Kernel-event driver: the result of a receipt for a user event. A receipt
/// that carries the error flag and a non-zero error number fails with it.
pub fn kevent_receipt(flags: u16, data: i64) -> (r: Result<(), IoError>)
    ensures
        r == kevent_receipt_spec(flags, data),
{
    if (flags & EV_ERROR) != 0 && data != 0 {
        Err(IoError::Os(data as i32))
    } else {
        Ok(())
    }
}

/// Largest value of the counter behind the counter-based driver.
pub const COUNTER_MAX: u64 = 0xffff_ffff_ffff_fffe;

/// The counter primitive: a write adds one to the counter, and would block
/// where the sum would pass `COUNTER_MAX`. Returns the write's outcome and
/// the new count.
pub open spec fn counter_write(count: nat) -> (Result<usize, IoError>, nat) {
    if count + 1 > COUNTER_MAX {
        (Err(IoError::WouldBlock), count)
    } else {
        (Ok(8), count + 1)
    }
}

/// The counter primitive: a read returns and clears the count, and would
/// block where the count is zero.
pub open spec fn counter_read(count: nat) -> (Result<usize, IoError>, nat) {
    if count == 0 {
        (Err(IoError::WouldBlock), 0)
    } else {
        (Ok(8), 0)
    }
}

/// Acknowledgement on the counter primitive.
pub open spec fn counter_ack_model(count: nat) -> (Result<(), IoError>, nat) {
    (counter_reset_spec(counter_read(count).0), counter_read(count).1)
}

/// A wake on the counter primitive, within `attempts` writes; `None` where
/// those did not settle it.
pub open spec fn counter_wake_model(count: nat, attempts: nat) -> (Option<Result<(), IoError>>, nat)
    decreases attempts,
{
    if attempts == 0 {
        (None, count)
    } else {
        let (w, c1) = counter_write(count);
        match counter_wake_spec(w) {
            WakeStep::Done => (Some(Ok(())), c1),
            WakeStep::DrainThenRetry => {
                let (a, c2) = counter_ack_model(c1);
                if a is Err {
                    (Some(a), c2)
                } else {
                    counter_wake_model(c2, (attempts - 1) as nat)
                }
            },
            WakeStep::Retry => counter_wake_model(c1, (attempts - 1) as nat),
            WakeStep::Fail(e) => (Some(Err(e)), c1),
        }
    }
}

/// `n` wakes on the counter primitive from `count`, with no acknowledgement
/// between them: whether each settled without error, and the final count.
pub open spec fn counter_wakes(count: nat, n: nat) -> (bool, nat)
    decreases n,
{
    if n == 0 {
        (true, count)
    } else {
        let (ok, c) = counter_wakes(count, (n - 1) as nat);
        let (r, c2) = counter_wake_model(c, 2);
        (ok && r == Some(Ok::<(), IoError>(())), c2)
    }
}

/// One wake on the counter primitive settles without error within two
/// writes, whatever the count, and leaves a wake pending.
pub proof fn lemma_counter_wake(count: nat)
    requires
        count <= COUNTER_MAX,
    ensures
        counter_wake_model(count, 2).0 == Some(Ok::<(), IoError>(())),
        0 < counter_wake_model(count, 2).1 <= COUNTER_MAX,
{
    reveal_with_fuel(counter_wake_model, 3);
}

/// Any number of wakes on the counter-based driver without acknowledgement,
/// even past the counter's capacity, never fails: overflow resets the
/// counter instead.
pub proof fn lemma_counter_wakes_never_fail(count: nat, n: nat)
    requires
        count <= COUNTER_MAX,
    ensures
        counter_wakes(count, n).0,
        counter_wakes(count, n).1 <= COUNTER_MAX,
        n > 0 ==> counter_wakes(count, n).1 > 0,
    decreases n,
{
    if n > 0 {
        lemma_counter_wakes_never_fail(count, (n - 1) as nat);
        lemma_counter_wake(counter_wakes(count, (n - 1) as nat).1);
    }
}

/// Wakes on the counter-based driver coalesce: after one or more wakes a
/// wake is pending, one acknowledgement clears it without error, and then
/// nothing is pending until the next wake.
pub proof fn lemma_counter_coalescing(count: nat, n: nat)
    requires
        count <= COUNTER_MAX,
        n >= 1,
    ensures
        counter_wakes(count, n).0,
        counter_wakes(count, n).1 > 0,
        counter_ack_model(counter_wakes(count, n).1) == (Ok::<(), IoError>(()), 0nat),
        counter_read(counter_ack_model(counter_wakes(count, n).1).1).0 == Err::<usize, IoError>(
            IoError::WouldBlock,
        ),
{
    lemma_counter_wakes_never_fail(count, n);
}

/// The pipe primitive holding `bytes` of a capacity `cap`: a one-byte write
/// would block on a full pipe.
pub open spec fn pipe_write(bytes: nat, cap: nat) -> (Result<usize, IoError>, nat) {
    if bytes < cap {
        (Ok(1), bytes + 1)
    } else {
        (Err(IoError::WouldBlock), bytes)
    }
}

/// The pipe primitive: a read takes up to `DRAIN_BUF` bytes, and would block
/// on an empty pipe.
pub open spec fn pipe_read(bytes: nat) -> (Result<usize, IoError>, nat) {
    if bytes == 0 {
        (Err(IoError::WouldBlock), 0)
    } else if bytes <= DRAIN_BUF {
        (Ok(bytes as usize), 0)
    } else {
        (Ok(DRAIN_BUF), (bytes - DRAIN_BUF) as nat)
    }
}

/// Draining the pipe primitive, read after read, as the drain steps decide.
pub open spec fn pipe_drain_model(bytes: nat) -> (Result<(), IoError>, nat)
    decreases bytes,
{
    let (r, b1) = pipe_read(bytes);
    match pipe_drain_spec(r) {
        DrainStep::Continue => if b1 < bytes {
            pipe_drain_model(b1)
        } else {
            (Ok(()), b1)
        },
        DrainStep::Done => (Ok(()), b1),
        DrainStep::Fail(e) => (Err(e), b1),
    }
}

/// A wake on the pipe primitive, within `attempts` writes; `None` where
/// those did not settle it. A failed drain is ignored before the retry.
pub open spec fn pipe_wake_model(bytes: nat, cap: nat, attempts: nat) -> (Option<Result<(), IoError>>, nat)
    decreases attempts,
{
    if attempts == 0 {
        (None, bytes)
    } else {
        let (w, b1) = pipe_write(bytes, cap);
        match pipe_wake_spec(w) {
            WakeStep::Done => (Some(Ok(())), b1),
            WakeStep::DrainThenRetry => pipe_wake_model(pipe_drain_model(b1).1, cap, (attempts - 1) as nat),
            WakeStep::Retry => pipe_wake_model(b1, cap, (attempts - 1) as nat),
            WakeStep::Fail(e) => (Some(Err(e)), b1),
        }
    }
}

/// `n` wakes on the pipe primitive from `bytes`, with no acknowledgement
/// between them: whether each settled without error, and the bytes held.
pub open spec fn pipe_wakes(bytes: nat, cap: nat, n: nat) -> (bool, nat)
    decreases n,
{
    if n == 0 {
        (true, bytes)
    } else {
        let (ok, b) = pipe_wakes(bytes, cap, (n - 1) as nat);
        let (r, b2) = pipe_wake_model(b, cap, 2);
        (ok && r == Some(Ok::<(), IoError>(())), b2)
    }
}

/// Draining empties the pipe without error, however large the backlog.
pub proof fn lemma_pipe_drain_empties(bytes: nat)
    ensures
        pipe_drain_model(bytes) == (Ok::<(), IoError>(()), 0nat),
    decreases bytes,
{
    if bytes > DRAIN_BUF {
        lemma_pipe_drain_empties((bytes - DRAIN_BUF) as nat);
    } else if bytes > 0 {
        lemma_pipe_drain_empties(0);
    }
}

/// One wake on the pipe primitive settles without error within two writes,
/// full pipe or not, and leaves a byte pending.
pub proof fn lemma_pipe_wake(bytes: nat, cap: nat)
    requires
        1 <= cap,
        bytes <= cap,
    ensures
        pipe_wake_model(bytes, cap, 2).0 == Some(Ok::<(), IoError>(())),
        0 < pipe_wake_model(bytes, cap, 2).1 <= cap,
{
    lemma_pipe_drain_empties(bytes);
    reveal_with_fuel(pipe_wake_model, 3);
}

/// Wakes on the pipe-based driver coalesce: after one or more wakes, with
/// no acknowledgement between them, every wake has succeeded and a byte is
/// pending; one acknowledgement drains the pipe without error, and then
/// nothing is pending until the next wake.
pub proof fn lemma_pipe_coalescing(bytes: nat, cap: nat, n: nat)
    requires
        1 <= cap,
        bytes <= cap,
        n >= 1,
    ensures
        pipe_wakes(bytes, cap, n).0,
        0 < pipe_wakes(bytes, cap, n).1 <= cap,
        pipe_drain_model(pipe_wakes(bytes, cap, n).1) == (Ok::<(), IoError>(()), 0nat),
        pipe_read(pipe_drain_model(pipe_wakes(bytes, cap, n).1).1).0 == Err::<usize, IoError>(
            IoError::WouldBlock,
        ),
    decreases n,
{
    if n > 1 {
        lemma_pipe_coalescing(bytes, cap, (n - 1) as nat);
        lemma_pipe_wake(pipe_wakes(bytes, cap, (n - 1) as nat).1, cap);
    } else {
        lemma_pipe_wake(bytes, cap);
        assert(pipe_wakes(bytes, cap, 0) == (true, bytes));
    }
    lemma_pipe_drain_empties(pipe_wakes(bytes, cap, n).1);
}

/// The kernel user event, registered with automatic clearing: a trigger
/// marks it pending and is answered by a receipt carrying the error flag
/// and error number zero. Returns the receipt's result and the new state.
pub open spec fn kevent_wake_model(pending: bool) -> (Result<(), IoError>, bool) {
    (kevent_receipt_spec(EV_ERROR, 0), true)
}

/// A wait on the kernel user event: it reports the event where it is
/// pending, and clears it.
pub open spec fn kevent_wait_model(pending: bool) -> (bool, bool) {
    (pending, false)
}

/// `n` wakes on the kernel user event from `pending`, with no wait between
/// them: whether each succeeded, and whether the event is pending.
pub open spec fn kevent_wakes(pending: bool, n: nat) -> (bool, bool)
    decreases n,
{
    if n == 0 {
        (true, pending)
    } else {
        let (ok, p) = kevent_wakes(pending, (n - 1) as nat);
        let (r, p2) = kevent_wake_model(p);
        (ok && r == Ok::<(), IoError>(()), p2)
    }
}

/// Wakes on the kernel-event driver coalesce: after one or more wakes every
/// wake has succeeded and the event is pending; the next wait reports it
/// once, and the wait after that reports nothing until the next wake.
pub proof fn lemma_kevent_coalescing(pending: bool, n: nat)
    requires
        n >= 1,
    ensures
        kevent_wakes(pending, n).0,
        kevent_wakes(pending, n).1,
        kevent_wait_model(kevent_wakes(pending, n).1).0,
        !kevent_wait_model(kevent_wait_model(kevent_wakes(pending, n).1).1).0,
    decreases n,
{
    assert((EV_ERROR & EV_ERROR) != 0u16) by (bit_vector);
    if n > 1 {
        lemma_kevent_coalescing(pending, (n - 1) as nat);
    } else {
        assert(kevent_wakes(pending, 0) == (true, pending));
    }
}

} // verus!
