//! Adapters for a level-triggered selector, which reports a ready descriptor
//! on every wait until it is registered anew.

use vstd::prelude::*;
use crate::error::IoError;
use crate::event::{Interest, Token};
use crate::registration::RegistrationRecord;
use crate::selector::SelectorRequest;

verus! {

/// The registration a source holds while it is registered.
#[derive(Clone, Copy, Debug, PartialEq, Eq, Structural)]
pub struct Registration {
    pub token: Token,
    pub interests: Interest,
    pub fd: i32,
}

struct InternalState {
    token: Token,
    interests: Interest,
    fd: i32,
    record: RegistrationRecord,
}

/// Registration state of one descriptor under a level-triggered selector.
///
/// It makes such a selector behave like an edge-triggered one: a descriptor
/// is reported once, and is registered anew only after an operation on it
/// would have blocked. Every selector call is returned as a
/// [`SelectorRequest`] for the caller to make.
pub struct IoSourceState {
    inner: Option<InternalState>,
}

/// How many selector calls an optional request stands for.
pub open spec fn request_count(o: Option<SelectorRequest>) -> nat {
    if o is Some {
        1
    } else {
        0
    }
}

/// The deregistration asked for by a holder of the shared record, given
/// whether its claim on the record was the one that moved it.
pub open spec fn deregister_claim(won: bool, fd: i32) -> Option<SelectorRequest> {
    if won {
        Some(SelectorRequest::Deregister { fd })
    } else {
        None
    }
}

/// The re-arming request after an I/O operation, given whether the
/// operation would have blocked.
pub open spec fn rearm_request(st: Option<Registration>, would_block: bool) -> Option<SelectorRequest> {
    if st is Some && would_block {
        Some(
            SelectorRequest::Reregister {
                fd: st->Some_0.fd,
                token: st->Some_0.token,
                interests: st->Some_0.interests,
            },
        )
    } else {
        None
    }
}

pub open spec fn is_would_block<R>(result: Result<R, IoError>) -> bool {
    result matches Err(IoError::WouldBlock)
}

/// Asks for a deregistration exactly when the claim on the record was won.
pub fn deregister_if_won(won: bool, fd: i32) -> (r: Option<SelectorRequest>)
    ensures
        r == deregister_claim(won, fd),
{
    if won {
        Some(SelectorRequest::Deregister { fd })
    } else {
        None
    }
}

impl View for IoSourceState {
    type V = Option<Registration>;

    closed spec fn view(&self) -> Option<Registration> {
        match self.inner {
            Some(st) => Some(Registration { token: st.token, interests: st.interests, fd: st.fd }),
            None => None,
        }
    }
}

impl IoSourceState {
    /// A source that is not registered.
    pub fn new() -> (r: IoSourceState)
        ensures
            r@ is None,
    {
        IoSourceState { inner: None }
    }

    pub fn is_registered(&self) -> (r: bool)
        ensures
            r == self@ is Some,
    {
        self.inner.is_some()
    }

    /// Decides what follows an I/O operation on the wrapped descriptor: an
    /// operation that would have blocked re-arms the registration, with the
    /// same token and interests; any other outcome leaves it alone.
    pub fn do_io<R>(&self, result: &Result<R, IoError>) -> (r: Option<SelectorRequest>)
        ensures
            r == rearm_request(self@, is_would_block(*result)),
    {
        let would_block = match result {
            Err(IoError::WouldBlock) => true,
            _ => false,
        };
        match &self.inner {
            Some(st) => {
                if would_block {
                    Some(SelectorRequest::Reregister { fd: st.fd, token: st.token, interests: st.interests })
                } else {
                    None
                }
            },
            None => None,
        }
    }

    /// The result of an I/O operation once its re-arming request, if any,
    /// was made: a failed re-arm replaces the operation's result.
    pub fn finish_io<R>(result: Result<R, IoError>, rearm: Result<(), IoError>) -> (r: Result<R, IoError>)
        ensures
            rearm is Ok ==> r == result,
            rearm matches Err(e) ==> r == Err::<R, IoError>(e),
    {
        match rearm {
            Ok(()) => result,
            Err(e) => Err(e),
        }
    }

    /// First step of a registration: refused when already registered,
    /// otherwise the selector registration to make.
    pub fn register(&self, token: Token, interests: Interest, fd: i32) -> (r: Result<SelectorRequest, IoError>)
        ensures
            self@ is Some ==> r == Err::<SelectorRequest, IoError>(IoError::AlreadyExists),
            self@ is None ==> r == Ok::<SelectorRequest, IoError>(
                SelectorRequest::Register { fd, token, interests },
            ),
    {
        if self.inner.is_some() {
            Err(IoError::AlreadyExists)
        } else {
            Ok(SelectorRequest::Register { fd, token, interests })
        }
    }

    /// Second step of a registration: keeps the selector's record on
    /// success and passes its error on otherwise.
    pub fn finish_register(
        &mut self,
        token: Token,
        interests: Interest,
        fd: i32,
        outcome: Result<RegistrationRecord, IoError>,
    ) -> (r: Result<(), IoError>)
        ensures
            old(self)@ is Some ==> r == Err::<(), IoError>(IoError::AlreadyExists)
                && final(self)@ == old(self)@,
            old(self)@ is None && outcome is Ok ==> r == Ok::<(), IoError>(()) && final(self)@ == Some(
                Registration { token, interests, fd },
            ),
            old(self)@ is None && outcome is Err ==> r == Err::<(), IoError>(outcome->Err_0)
                && final(self)@ is None,
    {
        if self.inner.is_some() {
            return Err(IoError::AlreadyExists);
        }
        match outcome {
            Ok(record) => {
                self.inner = Some(InternalState { token, interests, fd, record });
                Ok(())
            },
            Err(e) => Err(e),
        }
    }

    /// First step of a re-registration: refused when not registered,
    /// otherwise the selector call to make.
    pub fn reregister(&self, token: Token, interests: Interest, fd: i32) -> (r: Result<SelectorRequest, IoError>)
        ensures
            self@ is None ==> r == Err::<SelectorRequest, IoError>(IoError::NotFound),
            self@ is Some ==> r == Ok::<SelectorRequest, IoError>(
                SelectorRequest::Reregister { fd, token, interests },
            ),
    {
        if self.inner.is_none() {
            Err(IoError::NotFound)
        } else {
            Ok(SelectorRequest::Reregister { fd, token, interests })
        }
    }

    /// Second step of a re-registration: on success the source takes the
    /// new token and interests.
    pub fn finish_reregister(&mut self, token: Token, interests: Interest, outcome: Result<(), IoError>) -> (r:
        Result<(), IoError>)
        ensures
            old(self)@ is None ==> r == Err::<(), IoError>(IoError::NotFound) && final(self)@ is None,
            old(self)@ is Some && outcome is Ok ==> r == Ok::<(), IoError>(()) && final(self)@ == Some(
                Registration { token, interests, fd: old(self)@->Some_0.fd },
            ),
            old(self)@ is Some && outcome is Err ==> r == outcome && final(self)@ == old(self)@,
    {
        match &mut self.inner {
            Some(st) => match outcome {
                Ok(()) => {
                    st.token = token;
                    st.interests = interests;
                    Ok(())
                },
                Err(e) => Err(e),
            },
            None => Err(IoError::NotFound),
        }
    }

    /// Explicit deregistration. Refused when not registered. Otherwise the
    /// source becomes unregistered and the shared record is moved to
    /// unregistered first, so that a release through another holder of the
    /// record finds it moved and asks nothing; then the selector is always
    /// asked to deregister the descriptor.
    pub fn deregister(&mut self, fd: i32) -> (r: Result<SelectorRequest, IoError>)
        ensures
            r == deregister_outcome(old(self)@, fd),
            final(self)@ is None,
    {
        match self.inner.take() {
            Some(st) => {
                let _ = st.record.try_unregister();
                Ok(SelectorRequest::Deregister { fd })
            },
            None => Err(IoError::NotFound),
        }
    }

    /// Release at the end of the source's life. A source that is still
    /// registered claims the shared record and asks the selector to
    /// deregister its descriptor only when this claim moved the record.
    pub fn release(self) -> (r: Option<SelectorRequest>)
        ensures
            r == release_outcome(self@, true) || r == release_outcome(self@, false),
    {
        match self.inner {
            Some(st) => {
                let won = st.record.try_unregister();
                deregister_if_won(won, st.fd)
            },
            None => None,
        }
    }
}

/// What an explicit deregistration returns from a source in state `st`.
pub open spec fn deregister_outcome(st: Option<Registration>, fd: i32) -> Result<SelectorRequest, IoError> {
    if st is Some {
        Ok(SelectorRequest::Deregister { fd })
    } else {
        Err(IoError::NotFound)
    }
}

/// What the release of a source in state `st` asks, given whether its claim
/// on the shared record was the one that moved it.
pub open spec fn release_outcome(st: Option<Registration>, won: bool) -> Option<SelectorRequest> {
    match st {
        Some(reg) => deregister_claim(won, reg.fd),
        None => None,
    }
}

/// How many selector calls a deregistration's result stands for.
pub open spec fn outcome_count(r: Result<SelectorRequest, IoError>) -> nat {
    if r is Ok {
        1
    } else {
        0
    }
}

/// A registration is deregistered from the selector exactly once, however
/// it ends. An explicit deregistration asks once and leaves the source
/// unregistered, so the release that follows asks nothing, whatever it finds
/// in the shared record. A release alone asks once when it is the holder
/// that moves the record, and nothing when another holder already moved it
/// and made the call.
pub proof fn lemma_deregister_once(reg: Registration, fd: i32, release_won: bool)
    ensures
        outcome_count(deregister_outcome(Some(reg), fd)) + request_count(release_outcome(None, release_won))
            == 1,
        deregister_outcome(Some(reg), fd) == Ok::<SelectorRequest, IoError>(
            SelectorRequest::Deregister { fd },
        ),
        release_outcome(Some(reg), true) == Some(SelectorRequest::Deregister { fd: reg.fd }),
        request_count(release_outcome(Some(reg), false)) == 0,
{
}

/// Number of re-arming requests over a run of I/O outcomes.
pub open spec fn rearm_count<R>(st: Option<Registration>, outcomes: Seq<Result<R, IoError>>) -> nat
    decreases outcomes.len(),
{
    if outcomes.len() == 0 {
        0
    } else {
        rearm_count(st, outcomes.drop_last()) + request_count(
            rearm_request(st, is_would_block(outcomes.last())),
        )
    }
}

/// Number of outcomes in a run that would have blocked.
pub open spec fn would_block_count<R>(outcomes: Seq<Result<R, IoError>>) -> nat
    decreases outcomes.len(),
{
    if outcomes.len() == 0 {
        0
    } else {
        would_block_count(outcomes.drop_last()) + if is_would_block(outcomes.last()) {
            1nat
        } else {
            0nat
        }
    }
}

/// On a registered source, a run of I/O operations re-arms exactly once per
/// outcome that would have blocked, each time with the registration's own
/// descriptor, token and interests, and never after any other outcome.
pub proof fn lemma_rearm_per_would_block<R>(reg: Registration, outcomes: Seq<Result<R, IoError>>)
    ensures
        rearm_count(Some(reg), outcomes) == would_block_count(outcomes),
        forall|i: int|
            0 <= i < outcomes.len() ==> #[trigger] rearm_request(Some(reg), is_would_block(outcomes[i]))
                == if is_would_block(outcomes[i]) {
                Some(
                    SelectorRequest::Reregister {
                        fd: reg.fd,
                        token: reg.token,
                        interests: reg.interests,
                    },
                )
            } else {
                None
            },
    decreases outcomes.len(),
{
    if outcomes.len() > 0 {
        lemma_rearm_per_would_block(reg, outcomes.drop_last());
    }
}

/// Registrar of the wake descriptor under a level-triggered selector: after
/// each observed wake the registration must be made anew before the next
/// wake can be reported.
#[derive(Clone, Copy, Debug, PartialEq, Eq, Structural)]
pub struct WakerRegistrar {
    fd: i32,
    token: Token,
}

impl WakerRegistrar {
    pub closed spec fn spec_fd(&self) -> i32 {
        self.fd
    }

    pub closed spec fn spec_token(&self) -> Token {
        self.token
    }

    /// The selector registration that binds the wake descriptor.
    pub fn register_request(fd: i32, token: Token) -> (r: SelectorRequest)
        ensures
            r == (SelectorRequest::Register { fd, token, interests: Interest::readable_spec() }),
    {
        SelectorRequest::Register { fd, token, interests: Interest::readable() }
    }

    /// The registrar, once the selector answered the registration.
    pub fn register(fd: i32, token: Token, outcome: Result<(), IoError>) -> (r: Result<WakerRegistrar, IoError>)
        ensures
            outcome matches Err(e) ==> r == Err::<WakerRegistrar, IoError>(e),
            outcome is Ok ==> (r matches Ok(w) && w.spec_fd() == fd && w.spec_token() == token),
    {
        match outcome {
            Ok(()) => Ok(WakerRegistrar { fd, token }),
            Err(e) => Err(e),
        }
    }

    /// The re-registration that re-arms the wake descriptor.
    pub fn prepare_to_wake(&self) -> (r: Option<SelectorRequest>)
        ensures
            r == Some(
                SelectorRequest::Reregister {
                    fd: self.spec_fd(),
                    token: self.spec_token(),
                    interests: Interest::readable_spec(),
                },
            ),
    {
        Some(SelectorRequest::Reregister { fd: self.fd, token: self.token, interests: Interest::readable() })
    }
}

} // verus!
