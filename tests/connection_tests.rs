use m365::connection::{ConnAction, ConnEvent, ConnectionConfig, ConnectionHelper, ConnectionState, TransportError};

/// Runs a procedure against a scripted peer until it finishes, returning
/// every action issued.
fn run(h: &mut ConnectionHelper, first: ConnAction, mut answer: impl FnMut(&ConnAction) -> ConnEvent) -> Vec<ConnAction> {
    let mut actions = vec![first];
    let mut a = first;
    for _ in 0..200 {
        if matches!(a, ConnAction::Done(_) | ConnAction::Fail(_)) {
            return actions;
        }
        a = h.step(answer(&a));
        actions.push(a);
    }
    panic!("procedure did not finish");
}

fn always_connected(a: &ConnAction) -> ConnEvent {
    match a {
        ConnAction::CheckConnected => ConnEvent::Status(true),
        _ => ConnEvent::Slept,
    }
}

#[test]
fn connect_on_stable_peer_needs_no_attempt() {
    let mut h = ConnectionHelper::new(ConnectionConfig::standard());
    let first = h.connect();
    let actions = run(&mut h, first, always_connected);
    assert_eq!(
        actions,
        vec![ConnAction::CheckConnected, ConnAction::Sleep(1000), ConnAction::CheckConnected, ConnAction::Done(true)]
    );
    assert_eq!(h.retries_left(), 5);
    assert_eq!(h.state(), ConnectionState::Connected);
}

#[test]
fn connect_on_stable_peer_slow_platform() {
    let mut h = ConnectionHelper::new(ConnectionConfig::slow_platform());
    let first = h.connect();
    let actions = run(&mut h, first, always_connected);
    assert!(!actions.contains(&ConnAction::Connect));
    assert_eq!(actions.len(), 8);
    assert_eq!(actions[3], ConnAction::Sleep(3000));
    assert_eq!(*actions.last().unwrap(), ConnAction::Done(true));
}

#[test]
fn connect_fresh_peer() {
    let mut h = ConnectionHelper::new(ConnectionConfig::standard());
    let mut connected = false;
    let first = h.connect();
    let actions = run(&mut h, first, |a| match a {
        ConnAction::CheckConnected => ConnEvent::Status(connected),
        ConnAction::Connect => {
            connected = true;
            ConnEvent::ConnectDone
        }
        _ => ConnEvent::Slept,
    });
    assert_eq!(
        actions,
        vec![
            ConnAction::CheckConnected,
            ConnAction::Connect,
            ConnAction::Sleep(1000),
            ConnAction::CheckConnected,
            ConnAction::Done(true)
        ]
    );
}

#[test]
fn connect_gives_up_with_last_error() {
    let mut h = ConnectionHelper::new(ConnectionConfig::standard());
    let first = h.connect();
    let actions = run(&mut h, first, |a| match a {
        ConnAction::CheckConnected => ConnEvent::Status(false),
        ConnAction::Connect => ConnEvent::Failed(TransportError::TimedOut),
        _ => ConnEvent::Slept,
    });
    let attempts = actions.iter().filter(|a| **a == ConnAction::Connect).count();
    assert_eq!(attempts, 6);
    assert_eq!(*actions.last().unwrap(), ConnAction::Fail(TransportError::TimedOut));
    assert_eq!(h.state(), ConnectionState::Disconnected);
}

#[test]
fn connect_that_never_takes_fails() {
    let mut h = ConnectionHelper::new(ConnectionConfig::standard());
    let first = h.connect();
    let actions = run(&mut h, first, |a| match a {
        ConnAction::CheckConnected => ConnEvent::Status(false),
        ConnAction::Connect => ConnEvent::ConnectDone,
        _ => ConnEvent::Slept,
    });
    let attempts = actions.iter().filter(|a| **a == ConnAction::Connect).count();
    assert_eq!(attempts, 6);
    assert_eq!(*actions.last().unwrap(), ConnAction::Fail(TransportError::NotConnected));
}

#[test]
fn status_error_ends_connect() {
    let mut h = ConnectionHelper::new(ConnectionConfig::standard());
    let first = h.connect();
    let actions = run(&mut h, first, |_| ConnEvent::Failed(TransportError::PermissionDenied));
    assert_eq!(actions, vec![ConnAction::CheckConnected, ConnAction::Fail(TransportError::PermissionDenied)]);
}

#[test]
fn disconnect_when_already_disconnected() {
    let mut h = ConnectionHelper::new(ConnectionConfig::standard());
    let first = h.disconnect();
    let actions = run(&mut h, first, |a| match a {
        ConnAction::CheckConnected => ConnEvent::Status(false),
        _ => ConnEvent::Slept,
    });
    assert_eq!(
        actions,
        vec![
            ConnAction::CheckConnected,
            ConnAction::Sleep(100),
            ConnAction::CheckConnected,
            ConnAction::Sleep(100),
            ConnAction::CheckConnected,
            ConnAction::Sleep(100),
            ConnAction::Done(true)
        ]
    );
    assert_eq!(h.state(), ConnectionState::Disconnected);
}

#[test]
fn disconnect_refused() {
    let mut h = ConnectionHelper::new(ConnectionConfig::standard());
    let first = h.disconnect();
    let actions = run(&mut h, first, |a| match a {
        ConnAction::CheckConnected => ConnEvent::Status(true),
        ConnAction::Disconnect => ConnEvent::Failed(TransportError::Other),
        _ => ConnEvent::Slept,
    });
    assert_eq!(actions, vec![ConnAction::CheckConnected, ConnAction::Disconnect, ConnAction::Done(false)]);
    assert_eq!(h.state(), ConnectionState::Connected);
}

#[test]
fn slow_teardown_is_waited_for() {
    let mut h = ConnectionHelper::new(ConnectionConfig::slow_platform());
    let mut looks_after = 0;
    let mut disconnected = false;
    let first = h.disconnect();
    let actions = run(&mut h, first, |a| match a {
        ConnAction::CheckConnected => {
            if disconnected {
                looks_after += 1;
                ConnEvent::Status(looks_after < 3)
            } else {
                ConnEvent::Status(true)
            }
        }
        ConnAction::Disconnect => {
            disconnected = true;
            ConnEvent::DisconnectDone
        }
        _ => ConnEvent::Slept,
    });
    assert_eq!(
        actions,
        vec![
            ConnAction::CheckConnected,
            ConnAction::Disconnect,
            ConnAction::Sleep(500),
            ConnAction::CheckConnected,
            ConnAction::Sleep(200),
            ConnAction::CheckConnected,
            ConnAction::Sleep(200),
            ConnAction::CheckConnected,
            ConnAction::Done(true)
        ]
    );
}

#[test]
fn reconnect_order_when_already_disconnected() {
    let mut h = ConnectionHelper::new(ConnectionConfig::standard());
    let mut connected = false;
    let first = h.reconnect();
    let actions = run(&mut h, first, |a| match a {
        ConnAction::CheckConnected => ConnEvent::Status(connected),
        ConnAction::Connect => {
            connected = true;
            ConnEvent::ConnectDone
        }
        _ => ConnEvent::Slept,
    });
    assert_eq!(
        actions,
        vec![
            ConnAction::CheckConnected,
            ConnAction::Sleep(100),
            ConnAction::CheckConnected,
            ConnAction::Sleep(100),
            ConnAction::CheckConnected,
            ConnAction::Sleep(100),
            ConnAction::Sleep(3000),
            ConnAction::CheckConnected,
            ConnAction::Connect,
            ConnAction::Sleep(1000),
            ConnAction::CheckConnected,
            ConnAction::Done(true)
        ]
    );
}

#[test]
fn reconnect_order_when_connected() {
    let mut h = ConnectionHelper::new(ConnectionConfig::standard());
    let mut connected = true;
    let first = h.reconnect();
    let actions = run(&mut h, first, |a| match a {
        ConnAction::CheckConnected => ConnEvent::Status(connected),
        ConnAction::Disconnect => {
            connected = false;
            ConnEvent::DisconnectDone
        }
        ConnAction::Connect => {
            connected = true;
            ConnEvent::ConnectDone
        }
        _ => ConnEvent::Slept,
    });
    let disconnect = actions.iter().position(|a| *a == ConnAction::Disconnect).unwrap();
    let cooldown = actions.iter().position(|a| *a == ConnAction::Sleep(3000)).unwrap();
    let connect = actions.iter().position(|a| *a == ConnAction::Connect).unwrap();
    assert!(disconnect < cooldown && cooldown < connect);
    assert_eq!(*actions.last().unwrap(), ConnAction::Done(true));
}

#[test]
fn probe_reports_status() {
    let mut h = ConnectionHelper::new(ConnectionConfig::slow_platform());
    let first = h.is_stable_connected();
    let mut looks = 0;
    let actions = run(&mut h, first, |a| match a {
        ConnAction::CheckConnected => {
            looks += 1;
            ConnEvent::Status(looks == 1)
        }
        _ => ConnEvent::Slept,
    });
    assert_eq!(
        actions,
        vec![ConnAction::CheckConnected, ConnAction::Sleep(100), ConnAction::CheckConnected, ConnAction::Done(false)]
    );
}

#[test]
fn unexpected_event_ends_procedure() {
    let mut h = ConnectionHelper::new(ConnectionConfig::standard());
    assert_eq!(h.step(ConnEvent::Slept), ConnAction::Fail(TransportError::UnexpectedEvent));
}

#[test]
fn supplied_configs_are_valid() {
    assert!(ConnectionConfig::standard().is_valid());
    assert!(ConnectionConfig::slow_platform().is_valid());
    let mut c = ConnectionConfig::standard();
    c.reconnect_delay_ms = c.post_connect_delay_ms;
    assert!(!c.is_valid());
}
