//! The authentication handshake: a fixed sequence of command/notification
//! exchanges that turns a pre-shared credential into a session. Key
//! derivation and the confirmation check are replaceable cryptographic
//! steps that the caller performs when asked and reports back.
//!
//! `Init -> InfoRequested -> KeyExchangePending -> ChallengeIssued ->
//! ResponseSent -> Confirmed`, or `Failed(Rejected)` when the confirmation
//! check fails, or `RestartRequired` on a timeout or an unexpected value.
use vstd::prelude::*;
use crate::channels::Channel;
use crate::session::{Session, SessionModel};

verus! {

/// The pre-shared secret.
pub type AuthToken = [u8; 12];

/// Why a handshake ended without a session.
#[derive(Clone, Copy, Debug, PartialEq, Eq, Structural)]
pub enum HandshakeError {
    /// Run the whole handshake again (a step timed out or got an
    /// unexpected answer, often a missed button press).
    RestartRequired,
    /// The confirmation check failed: the credential does not match.
    Rejected,
}

#[derive(Clone, Copy, Debug, PartialEq, Eq, Structural)]
pub enum HandshakeState {
    Init,
    InfoRequested,
    KeyExchangePending,
    ChallengeIssued,
    ResponseSent,
    Confirmed,
    Failed(HandshakeError),
    RestartRequired,
}

/// What happened on the last action.
pub enum HandshakeEvent {
    /// The peer's notification.
    Notified(Vec<u8>),
    /// No notification came in time.
    TimedOut,
    /// The session key derived from the credential and the exchanged material.
    KeyDerived(Vec<u8>),
    /// Whether the confirmation value checks out against the session key.
    Confirmation(bool),
}

/// What the caller is to do next.
pub enum HandshakeAction {
    /// Write these bytes and wait for one notification.
    Send(Vec<u8>),
    /// Derive the session key from the credential and this material.
    DeriveKey { credential: AuthToken, material: Vec<u8> },
    /// Check the confirmation value against the session key.
    CheckConfirmation { key: Vec<u8>, value: Vec<u8> },
    /// Done: the authenticated session.
    Established(Session),
    /// Done without a session.
    Abort(HandshakeError),
}

pub enum EventModel {
    Notified(Seq<u8>),
    TimedOut,
    KeyDerived(Seq<u8>),
    Confirmation(bool),
}

pub enum ActionModel {
    Send(Seq<u8>),
    DeriveKey(Seq<u8>, Seq<u8>),
    CheckConfirmation(Seq<u8>, Seq<u8>),
    Established(SessionModel),
    Abort(HandshakeError),
}

impl View for HandshakeEvent {
    type V = EventModel;

    open spec fn view(&self) -> EventModel {
        match self {
            HandshakeEvent::Notified(v) => EventModel::Notified(v@),
            HandshakeEvent::TimedOut => EventModel::TimedOut,
            HandshakeEvent::KeyDerived(k) => EventModel::KeyDerived(k@),
            HandshakeEvent::Confirmation(b) => EventModel::Confirmation(*b),
        }
    }
}

impl View for HandshakeAction {
    type V = ActionModel;

    open spec fn view(&self) -> ActionModel {
        match self {
            HandshakeAction::Send(b) => ActionModel::Send(b@),
            HandshakeAction::DeriveKey { credential, material } => ActionModel::DeriveKey(
                credential@,
                material@,
            ),
            HandshakeAction::CheckConfirmation { key, value } => ActionModel::CheckConfirmation(
                key@,
                value@,
            ),
            HandshakeAction::Established(s) => ActionModel::Established(s@),
            HandshakeAction::Abort(e) => ActionModel::Abort(*e),
        }
    }
}

pub open spec fn cmd_get_info() -> Seq<u8> {
    seq![0xA2u8, 0x00u8, 0x00u8, 0x00u8]
}

pub open spec fn cmd_set_key() -> Seq<u8> {
    seq![0x15u8, 0x00u8, 0x00u8, 0x00u8]
}

pub open spec fn cmd_auth() -> Seq<u8> {
    seq![0x13u8, 0x00u8, 0x00u8, 0x00u8]
}

pub open spec fn cmd_login() -> Seq<u8> {
    seq![0x24u8, 0x00u8, 0x00u8, 0x00u8]
}

/// The peer's acceptance of the login.
pub open spec fn rcv_ok() -> Seq<u8> {
    seq![0x00u8, 0x00u8, 0x01u8, 0x00u8]
}

/// The handshake as the contracts see it.
pub struct HandshakeModel {
    pub credential: Seq<u8>,
    pub host_key: Seq<u8>,
    pub tx: Channel,
    pub rx: Channel,
    pub state: HandshakeState,
    pub device_info: Seq<u8>,
    pub device_key: Seq<u8>,
    pub key: Seq<u8>,
    /// A local cryptographic step was asked for and not yet reported.
    pub awaiting_local: bool,
}

pub open spec fn restart(m: HandshakeModel) -> (HandshakeModel, ActionModel) {
    (
        HandshakeModel { state: HandshakeState::RestartRequired, awaiting_local: false, ..m },
        ActionModel::Abort(HandshakeError::RestartRequired),
    )
}

/// Starting (or starting over) sends the info request.
pub open spec fn start_spec(m: HandshakeModel) -> (HandshakeModel, ActionModel) {
    (
        HandshakeModel {
            state: HandshakeState::InfoRequested,
            awaiting_local: false,
            device_info: Seq::empty(),
            device_key: Seq::empty(),
            key: Seq::empty(),
            ..m
        },
        ActionModel::Send(cmd_get_info()),
    )
}

/// One step. Each exchange sends one command and takes one notification;
/// a timeout, an empty answer where data is due, a wrong final answer or
/// an event the step does not wait for all end in `RestartRequired`.
pub open spec fn next_spec(m: HandshakeModel, e: EventModel) -> (HandshakeModel, ActionModel) {
    match (m.state, m.awaiting_local, e) {
        (HandshakeState::InfoRequested, false, EventModel::Notified(v)) => if v.len() > 0 {
            (
                HandshakeModel { state: HandshakeState::KeyExchangePending, device_info: v, ..m },
                ActionModel::Send(cmd_set_key() + m.host_key),
            )
        } else {
            restart(m)
        },
        (HandshakeState::KeyExchangePending, false, EventModel::Notified(v)) => if v.len() > 0 {
            (
                HandshakeModel { device_key: v, awaiting_local: true, ..m },
                ActionModel::DeriveKey(m.credential, m.device_info + m.host_key + v),
            )
        } else {
            restart(m)
        },
        (HandshakeState::KeyExchangePending, true, EventModel::KeyDerived(k)) => (
            HandshakeModel { state: HandshakeState::ChallengeIssued, key: k, awaiting_local: false, ..m },
            ActionModel::Send(cmd_auth()),
        ),
        (HandshakeState::ChallengeIssued, false, EventModel::Notified(v)) => if v.len() > 0 {
            (HandshakeModel { awaiting_local: true, ..m }, ActionModel::CheckConfirmation(m.key, v))
        } else {
            restart(m)
        },
        (HandshakeState::ChallengeIssued, true, EventModel::Confirmation(ok)) => if ok {
            (
                HandshakeModel { state: HandshakeState::ResponseSent, awaiting_local: false, ..m },
                ActionModel::Send(cmd_login()),
            )
        } else {
            (
                HandshakeModel {
                    state: HandshakeState::Failed(HandshakeError::Rejected),
                    awaiting_local: false,
                    ..m
                },
                ActionModel::Abort(HandshakeError::Rejected),
            )
        },
        (HandshakeState::ResponseSent, false, EventModel::Notified(v)) => if v == rcv_ok() {
            (
                HandshakeModel { state: HandshakeState::Confirmed, ..m },
                ActionModel::Established(
                    SessionModel { key: m.key, tx: m.tx, rx: m.rx, pending: false, closed: false },
                ),
            )
        } else {
            restart(m)
        },
        _ => restart(m),
    }
}

/// A handshake over a connected peer's channel pair.
pub struct Handshake {
    credential: AuthToken,
    host_key: Vec<u8>,
    tx: Channel,
    rx: Channel,
    state: HandshakeState,
    device_info: Vec<u8>,
    device_key: Vec<u8>,
    key: Vec<u8>,
    awaiting_local: bool,
}

impl View for Handshake {
    type V = HandshakeModel;

    closed spec fn view(&self) -> HandshakeModel {
        HandshakeModel {
            credential: self.credential@,
            host_key: self.host_key@,
            tx: self.tx,
            rx: self.rx,
            state: self.state,
            device_info: self.device_info@,
            device_key: self.device_key@,
            key: self.key@,
            awaiting_local: self.awaiting_local,
        }
    }
}

fn append(dst: &mut Vec<u8>, src: &[u8])
    ensures
        final(dst)@ == old(dst)@ + src@,
{
    let mut i: usize = 0;
    while i < src.len()
        invariant
            i <= src@.len(),
            dst@ == old(dst)@ + src@.subrange(0, i as int),
        decreases src@.len() - i,
    {
        dst.push(src[i]);
        i = i + 1;
        assert(dst@ =~= old(dst)@ + src@.subrange(0, i as int));
    }
    assert(src@.subrange(0, src@.len() as int) =~= src@);
}

fn command(code: u8) -> (r: Vec<u8>)
    ensures
        r@ == seq![code, 0x00u8, 0x00u8, 0x00u8],
{
    vec![code, 0x00, 0x00, 0x00]
}

fn is_ok_reply(v: &Vec<u8>) -> (r: bool)
    ensures
        r == (v@ == rcv_ok()),
{
    if v.len() == 4 && v[0] == 0x00 && v[1] == 0x00 && v[2] == 0x01 && v[3] == 0x00 {
        assert(v@ =~= rcv_ok());
        true
    } else {
        false
    }
}

impl Handshake {
    /// A handshake in `Init` with the credential, the host's key material
    /// for the exchange (fresh random bytes from the caller) and the
    /// channel pair to talk over.
    pub fn new(credential: AuthToken, host_key: Vec<u8>, tx: Channel, rx: Channel) -> (r: Handshake)
        ensures
            r@ == (HandshakeModel {
                credential: credential@,
                host_key: host_key@,
                tx,
                rx,
                state: HandshakeState::Init,
                device_info: Seq::empty(),
                device_key: Seq::empty(),
                key: Seq::empty(),
                awaiting_local: false,
            }),
    {
        Handshake {
            credential,
            host_key,
            tx,
            rx,
            state: HandshakeState::Init,
            device_info: Vec::new(),
            device_key: Vec::new(),
            key: Vec::new(),
            awaiting_local: false,
        }
    }

    pub fn state(&self) -> (r: HandshakeState)
        ensures
            r == self@.state,
    {
        self.state
    }

    fn restart(&mut self) -> (r: HandshakeAction)
        ensures
            (final(self)@, r@) == restart(old(self)@),
    {
        self.state = HandshakeState::RestartRequired;
        self.awaiting_local = false;
        HandshakeAction::Abort(HandshakeError::RestartRequired)
    }

    /// Starts the handshake from the beginning, whatever state it was in.
    pub fn start(&mut self) -> (r: HandshakeAction)
        ensures
            (final(self)@, r@) == start_spec(old(self)@),
    {
        self.state = HandshakeState::InfoRequested;
        self.awaiting_local = false;
        self.device_info = Vec::new();
        self.device_key = Vec::new();
        self.key = Vec::new();
        HandshakeAction::Send(command(0xA2))
    }

    /// Feeds back what happened on the last action and gives the next.
    pub fn step(&mut self, e: HandshakeEvent) -> (r: HandshakeAction)
        ensures
            (final(self)@, r@) == next_spec(old(self)@, e@),
    {
        match (self.state, self.awaiting_local, e) {
            (HandshakeState::InfoRequested, false, HandshakeEvent::Notified(v)) => {
                if v.len() > 0 {
                    self.state = HandshakeState::KeyExchangePending;
                    self.device_info = v;
                    let mut out = command(0x15);
                    append(&mut out, self.host_key.as_slice());
                    HandshakeAction::Send(out)
                } else {
                    self.restart()
                }
            },
            (HandshakeState::KeyExchangePending, false, HandshakeEvent::Notified(v)) => {
                if v.len() > 0 {
                    let mut material = vstd::slice::slice_to_vec(self.device_info.as_slice());
                    append(&mut material, self.host_key.as_slice());
                    append(&mut material, v.as_slice());
                    self.device_key = v;
                    self.awaiting_local = true;
                    HandshakeAction::DeriveKey { credential: self.credential, material }
                } else {
                    self.restart()
                }
            },
            (HandshakeState::KeyExchangePending, true, HandshakeEvent::KeyDerived(k)) => {
                self.state = HandshakeState::ChallengeIssued;
                self.key = k;
                self.awaiting_local = false;
                HandshakeAction::Send(command(0x13))
            },
            (HandshakeState::ChallengeIssued, false, HandshakeEvent::Notified(v)) => {
                if v.len() > 0 {
                    self.awaiting_local = true;
                    HandshakeAction::CheckConfirmation {
                        key: vstd::slice::slice_to_vec(self.key.as_slice()),
                        value: v,
                    }
                } else {
                    self.restart()
                }
            },
            (HandshakeState::ChallengeIssued, true, HandshakeEvent::Confirmation(ok)) => {
                self.awaiting_local = false;
                if ok {
                    self.state = HandshakeState::ResponseSent;
                    HandshakeAction::Send(command(0x24))
                } else {
                    self.state = HandshakeState::Failed(HandshakeError::Rejected);
                    HandshakeAction::Abort(HandshakeError::Rejected)
                }
            },
            (HandshakeState::ResponseSent, false, HandshakeEvent::Notified(v)) => {
                if is_ok_reply(&v) {
                    self.state = HandshakeState::Confirmed;
                    let key = vstd::slice::slice_to_vec(self.key.as_slice());
                    HandshakeAction::Established(Session::established(key, self.tx, self.rx))
                } else {
                    self.restart()
                }
            },
            _ => self.restart(),
        }
    }
}

} // verus!
