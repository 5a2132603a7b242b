use multiplex::protocol::ProtocolKind;
use multiplex::readiness::{Readiness, ReadinessState};

fn state(rpc_ready: bool, plain_ready: bool) -> ReadinessState {
    ReadinessState { rpc_ready, plain_ready }
}

#[test]
fn new_state_has_nothing_confirmed() {
    let fresh = ReadinessState::new();
    assert_eq!(fresh, state(false, false));
    assert!(!fresh.is_ready());
    assert!(!fresh.is_confirmed(ProtocolKind::Rpc));
    assert!(!fresh.is_confirmed(ProtocolKind::Plain));
}

#[test]
fn rpc_backend_is_asked_first() {
    assert_eq!(state(false, false).next_poll(), Some(ProtocolKind::Rpc));
    assert_eq!(state(false, true).next_poll(), Some(ProtocolKind::Rpc));
}

#[test]
fn plain_backend_is_asked_once_rpc_is_confirmed() {
    assert_eq!(state(true, false).next_poll(), Some(ProtocolKind::Plain));
}

#[test]
fn nothing_is_asked_when_both_are_confirmed() {
    assert_eq!(state(true, true).next_poll(), None);
    assert!(state(true, true).is_ready());
}

#[test]
fn only_both_confirmed_is_ready() {
    assert!(!state(false, false).is_ready());
    assert!(!state(true, false).is_ready());
    assert!(!state(false, true).is_ready());
    assert!(state(true, true).is_ready());
}

#[test]
fn ready_answer_confirms_and_goes_on() {
    let mut current = ReadinessState::new();
    let ended = current.record::<()>(ProtocolKind::Rpc, Readiness::Ready);
    assert_eq!(ended, None);
    assert_eq!(current, state(true, false));

    let ended = current.record::<()>(ProtocolKind::Plain, Readiness::Ready);
    assert_eq!(ended, None);
    assert_eq!(current, state(true, true));
}

#[test]
fn pending_answer_ends_the_check_and_changes_nothing() {
    for (rpc_ready, plain_ready) in [(false, false), (true, false), (false, true), (true, true)] {
        for kind in [ProtocolKind::Rpc, ProtocolKind::Plain] {
            let mut current = state(rpc_ready, plain_ready);
            let ended = current.record::<()>(kind, Readiness::Pending);
            assert_eq!(ended, Some(Readiness::Pending));
            assert_eq!(current, state(rpc_ready, plain_ready));
        }
    }
}

#[test]
fn failed_answer_ends_the_check_and_changes_nothing() {
    for (rpc_ready, plain_ready) in [(false, false), (true, false), (false, true), (true, true)] {
        for kind in [ProtocolKind::Rpc, ProtocolKind::Plain] {
            let mut current = state(rpc_ready, plain_ready);
            let ended = current.record(kind, Readiness::Failed("closing"));
            assert_eq!(ended, Some(Readiness::Failed("closing")));
            assert_eq!(current, state(rpc_ready, plain_ready));
        }
    }
}

#[test]
fn confirmation_survives_later_answers() {
    let mut current = ReadinessState::new();
    current.record::<()>(ProtocolKind::Rpc, Readiness::Ready);
    for _ in 0..5 {
        assert_eq!(current.next_poll(), Some(ProtocolKind::Plain));
        current.record::<()>(ProtocolKind::Plain, Readiness::Pending);
        assert!(current.is_confirmed(ProtocolKind::Rpc));
    }
    current.record(ProtocolKind::Plain, Readiness::Failed(7u8));
    assert!(current.is_confirmed(ProtocolKind::Rpc));
    assert!(!current.is_confirmed(ProtocolKind::Plain));
}

#[test]
fn dispatch_to_rpc_uses_up_its_confirmation_only() {
    let mut current = state(true, true);
    current.dispatch(ProtocolKind::Rpc);
    assert_eq!(current, state(false, true));
    assert!(!current.is_ready());
    assert_eq!(current.next_poll(), Some(ProtocolKind::Rpc));
}

#[test]
fn dispatch_to_plain_uses_up_its_confirmation_only() {
    let mut current = state(true, true);
    current.dispatch(ProtocolKind::Plain);
    assert_eq!(current, state(true, false));
    assert!(!current.is_ready());
    assert_eq!(current.next_poll(), Some(ProtocolKind::Plain));
}

#[test]
fn ready_again_after_the_used_backend_confirms() {
    let mut current = state(true, true);
    current.dispatch(ProtocolKind::Rpc);
    assert_eq!(current.record::<()>(ProtocolKind::Rpc, Readiness::Ready), None);
    assert!(current.is_ready());
    assert_eq!(current.next_poll(), None);
}

#[test]
fn states_are_values_of_their_own() {
    let mut first = state(true, true);
    let second = first;
    first.dispatch(ProtocolKind::Plain);
    assert_eq!(first, state(true, false));
    assert_eq!(second, state(true, true));
}
