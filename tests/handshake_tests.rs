use m365::channels::{CharProps, Channel};
use m365::handshake::{Handshake, HandshakeAction, HandshakeError, HandshakeEvent, HandshakeState};

fn pair() -> (Channel, Channel) {
    let tx = Channel {
        uuid: 0x10,
        service_uuid: 0xfe95,
        properties: CharProps { read: false, write: false, write_without_response: true, notify: false, indicate: false },
    };
    let rx = Channel {
        uuid: 0x19,
        service_uuid: 0xfe95,
        properties: CharProps { read: false, write: false, write_without_response: false, notify: true, indicate: false },
    };
    (tx, rx)
}

fn sent(a: HandshakeAction) -> Vec<u8> {
    match a {
        HandshakeAction::Send(b) => b,
        _ => panic!("expected a write"),
    }
}

#[test]
fn silent_peer_requires_restart() {
    let (tx, rx) = pair();
    let mut h = Handshake::new([0u8; 12], vec![1, 2, 3, 4], tx, rx);
    assert_eq!(h.state(), HandshakeState::Init);
    assert_eq!(sent(h.start()), vec![0xA2, 0, 0, 0]);
    assert_eq!(h.state(), HandshakeState::InfoRequested);
    let a = h.step(HandshakeEvent::TimedOut);
    assert!(matches!(a, HandshakeAction::Abort(HandshakeError::RestartRequired)));
    assert_eq!(h.state(), HandshakeState::RestartRequired);
}

#[test]
fn full_exchange_establishes_session() {
    let (tx, rx) = pair();
    let token = [7u8; 12];
    let mut h = Handshake::new(token, vec![0xAB, 0xCD], tx, rx);
    assert_eq!(sent(h.start()), vec![0xA2, 0, 0, 0]);
    assert_eq!(sent(h.step(HandshakeEvent::Notified(vec![9, 9]))), vec![0x15, 0, 0, 0, 0xAB, 0xCD]);
    assert_eq!(h.state(), HandshakeState::KeyExchangePending);
    match h.step(HandshakeEvent::Notified(vec![5, 6, 7])) {
        HandshakeAction::DeriveKey { credential, material } => {
            assert_eq!(credential, token);
            assert_eq!(material, vec![9, 9, 0xAB, 0xCD, 5, 6, 7]);
        }
        _ => panic!("expected key derivation"),
    }
    assert_eq!(sent(h.step(HandshakeEvent::KeyDerived(vec![0x42; 16]))), vec![0x13, 0, 0, 0]);
    assert_eq!(h.state(), HandshakeState::ChallengeIssued);
    match h.step(HandshakeEvent::Notified(vec![0x77])) {
        HandshakeAction::CheckConfirmation { key, value } => {
            assert_eq!(key, vec![0x42; 16]);
            assert_eq!(value, vec![0x77]);
        }
        _ => panic!("expected a confirmation check"),
    }
    assert_eq!(sent(h.step(HandshakeEvent::Confirmation(true))), vec![0x24, 0, 0, 0]);
    assert_eq!(h.state(), HandshakeState::ResponseSent);
    match h.step(HandshakeEvent::Notified(vec![0, 0, 1, 0])) {
        HandshakeAction::Established(s) => {
            assert_eq!(s.tx_channel(), tx);
            assert_eq!(s.rx_channel(), rx);
            assert!(!s.is_pending() && !s.is_closed());
        }
        _ => panic!("expected a session"),
    }
    assert_eq!(h.state(), HandshakeState::Confirmed);
}

fn to_challenge(h: &mut Handshake) {
    h.start();
    h.step(HandshakeEvent::Notified(vec![1]));
    h.step(HandshakeEvent::Notified(vec![2]));
    h.step(HandshakeEvent::KeyDerived(vec![3]));
    h.step(HandshakeEvent::Notified(vec![4]));
}

#[test]
fn failed_confirmation_is_rejected() {
    let (tx, rx) = pair();
    let mut h = Handshake::new([1u8; 12], vec![1], tx, rx);
    to_challenge(&mut h);
    let a = h.step(HandshakeEvent::Confirmation(false));
    assert!(matches!(a, HandshakeAction::Abort(HandshakeError::Rejected)));
    assert_eq!(h.state(), HandshakeState::Failed(HandshakeError::Rejected));
}

#[test]
fn unexpected_values_require_restart() {
    let (tx, rx) = pair();
    let mut h = Handshake::new([1u8; 12], vec![1], tx, rx);
    h.start();
    assert!(matches!(h.step(HandshakeEvent::Notified(vec![])), HandshakeAction::Abort(HandshakeError::RestartRequired)));

    to_challenge(&mut h);
    h.step(HandshakeEvent::Confirmation(true));
    let a = h.step(HandshakeEvent::Notified(vec![0, 0, 1, 1]));
    assert!(matches!(a, HandshakeAction::Abort(HandshakeError::RestartRequired)));

    h.start();
    let a = h.step(HandshakeEvent::KeyDerived(vec![1]));
    assert!(matches!(a, HandshakeAction::Abort(HandshakeError::RestartRequired)));
}

#[test]
fn restart_begins_again() {
    let (tx, rx) = pair();
    let mut h = Handshake::new([1u8; 12], vec![1], tx, rx);
    to_challenge(&mut h);
    assert_eq!(sent(h.start()), vec![0xA2, 0, 0, 0]);
    assert_eq!(h.state(), HandshakeState::InfoRequested);
}
