use mio::level_triggered::{deregister_if_won, IoSourceState, WakerRegistrar};
use mio::edge_triggered::WakerRegistrar as EdgeWakerRegistrar;
use mio::selector::is_reserved_fd;
use mio::{Interest, IoError, RegistrationRecord, SelectorRequest, Token, Waker};

fn registered(token: u64, interests: Interest, fd: i32) -> IoSourceState {
    let mut st = IoSourceState::new();
    assert_eq!(
        st.register(Token(token), interests, fd),
        Ok(SelectorRequest::Register { fd, token: Token(token), interests })
    );
    assert_eq!(st.finish_register(Token(token), interests, fd, Ok(RegistrationRecord::new())), Ok(()));
    st
}

#[test]
fn shell_waker_is_unsupported() {
    assert_eq!(Waker {}.wake(), Err(IoError::Unsupported));
}

#[test]
fn interest_bits() {
    let r = Interest::readable();
    let w = Interest::writable();
    assert!(r.is_readable() && !r.is_writable());
    assert!(!w.is_readable() && w.is_writable());
    let both = r.add(w);
    assert!(both.is_readable() && both.is_writable());
    assert_eq!(r.add(r), r);
}

#[test]
fn reserved_descriptors() {
    assert!(is_reserved_fd(0));
    assert!(is_reserved_fd(2));
    assert!(!is_reserved_fd(3));
    assert!(!is_reserved_fd(-1));
}

#[test]
fn new_state_is_unregistered() {
    assert!(!IoSourceState::new().is_registered());
}

#[test]
fn register_twice_fails_with_already_exists() {
    let mut st = registered(1, Interest::readable(), 7);
    assert_eq!(st.register(Token(2), Interest::writable(), 7), Err(IoError::AlreadyExists));
    assert_eq!(
        st.finish_register(Token(2), Interest::writable(), 7, Ok(RegistrationRecord::new())),
        Err(IoError::AlreadyExists)
    );
    assert!(st.is_registered());
    // the kept registration is the first one
    assert_eq!(
        st.do_io::<usize>(&Err(IoError::WouldBlock)),
        Some(SelectorRequest::Reregister { fd: 7, token: Token(1), interests: Interest::readable() })
    );
}

#[test]
fn failed_selector_registration_leaves_unregistered() {
    let mut st = IoSourceState::new();
    assert_eq!(st.finish_register(Token(1), Interest::readable(), 7, Err(IoError::Os(24))), Err(IoError::Os(24)));
    assert!(!st.is_registered());
}

#[test]
fn reregister_and_deregister_unregistered_fail_with_not_found() {
    let mut st = IoSourceState::new();
    assert_eq!(st.reregister(Token(1), Interest::readable(), 7), Err(IoError::NotFound));
    assert_eq!(st.finish_reregister(Token(1), Interest::readable(), Ok(())), Err(IoError::NotFound));
    assert_eq!(st.deregister(7), Err(IoError::NotFound));
    assert!(!st.is_registered());
    assert_eq!(st.release(), None);
}

#[test]
fn reregister_updates_token_and_interests() {
    let mut st = registered(1, Interest::readable(), 7);
    let both = Interest::readable().add(Interest::writable());
    assert_eq!(
        st.reregister(Token(5), both, 7),
        Ok(SelectorRequest::Reregister { fd: 7, token: Token(5), interests: both })
    );
    assert_eq!(st.finish_reregister(Token(9), Interest::writable(), Err(IoError::Os(9))), Err(IoError::Os(9)));
    assert_eq!(
        st.do_io::<usize>(&Err(IoError::WouldBlock)),
        Some(SelectorRequest::Reregister { fd: 7, token: Token(1), interests: Interest::readable() })
    );
    assert_eq!(st.finish_reregister(Token(5), both, Ok(())), Ok(()));
    assert_eq!(
        st.do_io::<usize>(&Err(IoError::WouldBlock)),
        Some(SelectorRequest::Reregister { fd: 7, token: Token(5), interests: both })
    );
}

#[test]
fn explicit_deregister_then_release_deregisters_once() {
    let mut st = registered(3, Interest::readable(), 11);
    assert_eq!(st.deregister(11), Ok(SelectorRequest::Deregister { fd: 11 }));
    assert!(!st.is_registered());
    assert_eq!(st.deregister(11), Err(IoError::NotFound));
    assert_eq!(st.release(), None);
}

#[test]
fn release_of_registered_state_deregisters() {
    let st = registered(3, Interest::readable(), 11);
    assert_eq!(st.release(), Some(SelectorRequest::Deregister { fd: 11 }));
}

#[test]
fn release_after_another_holder_moved_record_asks_nothing() {
    let record = RegistrationRecord::new();
    let other = record.share();
    let mut st = IoSourceState::new();
    assert_eq!(st.finish_register(Token(3), Interest::readable(), 11, Ok(record)), Ok(()));
    assert!(other.is_registered());
    assert!(other.try_unregister());
    assert!(!other.try_unregister());
    assert_eq!(st.release(), None);
}

#[test]
fn explicit_deregister_always_asks_and_moves_record() {
    let record = RegistrationRecord::new();
    let other = record.share();
    let mut st = IoSourceState::new();
    assert_eq!(st.finish_register(Token(3), Interest::readable(), 11, Ok(record)), Ok(()));
    assert_eq!(st.deregister(11), Ok(SelectorRequest::Deregister { fd: 11 }));
    assert!(!other.is_registered());
    assert!(!other.try_unregister());
    assert!(!st.is_registered());
}

#[test]
fn explicit_deregister_after_record_moved_still_asks() {
    let record = RegistrationRecord::new();
    let other = record.share();
    let mut st = IoSourceState::new();
    assert_eq!(st.finish_register(Token(3), Interest::readable(), 11, Ok(record)), Ok(()));
    assert!(other.try_unregister());
    assert_eq!(st.deregister(11), Ok(SelectorRequest::Deregister { fd: 11 }));
    assert!(!st.is_registered());
    assert_eq!(st.release(), None);
}

#[test]
fn deregister_claim_decision() {
    assert_eq!(deregister_if_won(true, 4), Some(SelectorRequest::Deregister { fd: 4 }));
    assert_eq!(deregister_if_won(false, 4), None);
}

#[test]
fn would_block_read_rearms_with_token_42() {
    let st = registered(42, Interest::readable(), 9);
    let mut requests = Vec::new();
    let outcomes: Vec<Result<usize, IoError>> = vec![Ok(512), Err(IoError::WouldBlock)];
    for o in &outcomes {
        if let Some(req) = st.do_io(o) {
            requests.push(req);
        }
    }
    assert_eq!(requests, vec![SelectorRequest::Reregister { fd: 9, token: Token(42), interests: Interest::readable() }]);
}

#[test]
fn rearm_once_per_would_block() {
    let st = registered(8, Interest::writable(), 5);
    let mut outcomes: Vec<Result<usize, IoError>> = Vec::new();
    for _ in 0..4 {
        outcomes.push(Ok(10));
    }
    outcomes.push(Err(IoError::WouldBlock));
    outcomes.push(Err(IoError::Os(32)));
    outcomes.push(Ok(0));
    outcomes.push(Err(IoError::WouldBlock));
    let count = outcomes.iter().filter(|o| st.do_io(*o).is_some()).count();
    assert_eq!(count, 2);
}

#[test]
fn do_io_on_unregistered_state_never_rearms() {
    let st = IoSourceState::new();
    assert_eq!(st.do_io::<usize>(&Err(IoError::WouldBlock)), None);
}

#[test]
fn failed_rearm_replaces_result() {
    assert_eq!(IoSourceState::finish_io::<usize>(Err(IoError::WouldBlock), Err(IoError::Os(9))), Err(IoError::Os(9)));
    assert_eq!(IoSourceState::finish_io::<usize>(Err(IoError::WouldBlock), Ok(())), Err(IoError::WouldBlock));
    assert_eq!(IoSourceState::finish_io::<usize>(Ok(3), Ok(())), Ok(3));
}

#[test]
fn level_registrar_rearms_on_prepare() {
    assert_eq!(
        WakerRegistrar::register_request(6, Token(1)),
        SelectorRequest::Register { fd: 6, token: Token(1), interests: Interest::readable() }
    );
    assert_eq!(WakerRegistrar::register(6, Token(1), Err(IoError::Os(9))), Err(IoError::Os(9)));
    let w = WakerRegistrar::register(6, Token(1), Ok(())).unwrap();
    assert_eq!(
        w.prepare_to_wake(),
        Some(SelectorRequest::Reregister { fd: 6, token: Token(1), interests: Interest::readable() })
    );
}

#[test]
fn edge_registrar_needs_no_rearm() {
    assert_eq!(
        EdgeWakerRegistrar::register_request(6, Token(2)),
        SelectorRequest::Register { fd: 6, token: Token(2), interests: Interest::readable() }
    );
    assert_eq!(EdgeWakerRegistrar::register(Err(IoError::Os(22))), Err(IoError::Os(22)));
    let w = EdgeWakerRegistrar::register(Ok(())).unwrap();
    assert_eq!(w.prepare_to_wake(), None);
}
