//! Connection resilience: connect, disconnect and reconnect with bounded
//! retries and stabilisation delays, as a state machine. Each call returns
//! the next thing to do to the radio peer (look at its status, sleep,
//! connect, disconnect) or the outcome; the caller does it and feeds back
//! what happened.
use vstd::prelude::*;

verus! {

/// Timing and retry policy; the values differ between host platforms.
#[derive(Clone, Copy, Debug, PartialEq, Eq, Structural)]
pub struct ConnectionConfig {
    /// Wait after a connection before trusting it.
    pub post_connect_delay_ms: u64,
    /// Wait between disconnect and connect on reconnect.
    pub reconnect_delay_ms: u64,
    /// Wait between connection attempts.
    pub retry_delay_ms: u64,
    /// Connection attempts after the first.
    pub max_retries: u32,
    /// Look at the status twice, since some platforms report a connection
    /// early.
    pub double_check: bool,
    /// Wait before the second look.
    pub double_check_delay_ms: u64,
    /// Extra wait after a fresh connection looked stable (zero for none).
    pub connected_extra_delay_ms: u64,
    /// Status polls before a peer counts as already disconnected.
    pub disconnect_polls: u32,
    /// Wait between those polls.
    pub disconnect_poll_delay_ms: u64,
    /// Wait for a slow teardown to show in the status after disconnecting.
    pub wait_for_teardown: bool,
    /// Wait before the first teardown look.
    pub teardown_settle_ms: u64,
    /// Teardown looks after the first.
    pub teardown_polls: u32,
    /// Wait between teardown looks.
    pub teardown_poll_delay_ms: u64,
}

impl ConnectionConfig {
    /// The cooldown between disconnect and reconnect is longer than the
    /// post-connect settle delay.
    pub open spec fn valid(&self) -> bool {
        self.reconnect_delay_ms > self.post_connect_delay_ms
    }

    pub fn is_valid(&self) -> (r: bool)
        ensures
            r == self.valid(),
    {
        self.reconnect_delay_ms > self.post_connect_delay_ms
    }

    /// The policy for platforms that report connection state promptly.
    pub fn standard() -> (r: ConnectionConfig)
        ensures
            r.post_connect_delay_ms == 1000,
            r.reconnect_delay_ms == 3000,
            r.retry_delay_ms == 2000,
            r.max_retries == 5,
            !r.double_check,
            r.connected_extra_delay_ms == 0,
            r.disconnect_polls == 3,
            r.disconnect_poll_delay_ms == 100,
            r.double_check_delay_ms == 100,
            !r.wait_for_teardown,
            r.teardown_settle_ms == 500,
            r.teardown_polls == 10,
            r.teardown_poll_delay_ms == 200,
            r.valid(),
    {
        ConnectionConfig {
            post_connect_delay_ms: 1000,
            reconnect_delay_ms: 3000,
            retry_delay_ms: 2000,
            max_retries: 5,
            double_check: false,
            double_check_delay_ms: 100,
            connected_extra_delay_ms: 0,
            disconnect_polls: 3,
            disconnect_poll_delay_ms: 100,
            wait_for_teardown: false,
            teardown_settle_ms: 500,
            teardown_polls: 10,
            teardown_poll_delay_ms: 200,
        }
    }

    /// The policy for platforms (Windows) that report connections early and
    /// tear them down slowly.
    pub fn slow_platform() -> (r: ConnectionConfig)
        ensures
            r.post_connect_delay_ms == 3000,
            r.reconnect_delay_ms == 8000,
            r.retry_delay_ms == 2000,
            r.max_retries == 5,
            r.double_check,
            r.double_check_delay_ms == 100,
            r.connected_extra_delay_ms == 1000,
            r.disconnect_polls == 3,
            r.disconnect_poll_delay_ms == 100,
            r.wait_for_teardown,
            r.teardown_settle_ms == 500,
            r.teardown_polls == 10,
            r.teardown_poll_delay_ms == 200,
            r.valid(),
    {
        ConnectionConfig {
            post_connect_delay_ms: 3000,
            reconnect_delay_ms: 8000,
            retry_delay_ms: 2000,
            max_retries: 5,
            double_check: true,
            double_check_delay_ms: 100,
            connected_extra_delay_ms: 1000,
            disconnect_polls: 3,
            disconnect_poll_delay_ms: 100,
            wait_for_teardown: true,
            teardown_settle_ms: 500,
            teardown_polls: 10,
            teardown_poll_delay_ms: 200,
        }
    }
}

/// Errors of the radio transport.
#[derive(Clone, Copy, Debug, PartialEq, Eq, Structural)]
pub enum TransportError {
    NotConnected,
    DeviceNotFound,
    PermissionDenied,
    TimedOut,
    NotSupported,
    Other,
    /// An event that the current step does not wait for.
    UnexpectedEvent,
}

/// The connection as this layer last saw it.
#[derive(Clone, Copy, Debug, PartialEq, Eq, Structural)]
pub enum ConnectionState {
    Disconnected,
    Connecting,
    Connected,
    Disconnecting,
}

/// What a stability check is for.
#[derive(Clone, Copy, Debug, PartialEq, Eq, Structural)]
pub enum Check {
    /// `is_stable_connected` on its own.
    Probe,
    /// Whether an existing connection can be kept.
    Existing,
    /// Whether it is still there after the settle delay.
    Settled,
    /// Whether a fresh connection took.
    Fresh,
}

/// Where a procedure stands.
#[derive(Clone, Copy, Debug, PartialEq, Eq, Structural)]
pub enum Phase {
    Idle,
    Checking(Check),
    RecheckWait(Check),
    Rechecking(Check),
    SettleExisting,
    Connecting,
    SettleFresh,
    ExtraSettle,
    RetryWait,
    Polling,
    PollWait,
    Disconnecting,
    TeardownSettle,
    TeardownCheck,
    TeardownWait,
    Cooldown,
}

/// What happened when the caller did the last action.
#[derive(Clone, Copy, Debug, PartialEq, Eq, Structural)]
pub enum ConnEvent {
    /// The peer's connection status.
    Status(bool),
    Slept,
    ConnectDone,
    DisconnectDone,
    Failed(TransportError),
}

/// What the caller is to do next.
#[derive(Clone, Copy, Debug, PartialEq, Eq, Structural)]
pub enum ConnAction {
    CheckConnected,
    Sleep(u64),
    Connect,
    Disconnect,
    /// The procedure is over and succeeded with this result.
    Done(bool),
    /// The procedure is over and failed.
    Fail(TransportError),
}

/// The final action for an outcome.
pub open spec fn outcome(r: Result<bool, TransportError>) -> ConnAction {
    match r {
        Ok(b) => ConnAction::Done(b),
        Err(e) => ConnAction::Fail(e),
    }
}

/// The helper as the contracts see it.
#[derive(Clone, Copy, Debug, PartialEq, Eq, Structural)]
pub struct HelperModel {
    pub config: ConnectionConfig,
    pub state: ConnectionState,
    pub phase: Phase,
    pub retries_left: u32,
    pub polls_done: u32,
    pub reconnecting: bool,
}

pub open spec fn finish_connected(m: HelperModel) -> (HelperModel, ConnAction) {
    (
        HelperModel { phase: Phase::Idle, state: ConnectionState::Connected, reconnecting: false, ..m },
        ConnAction::Done(true),
    )
}

pub open spec fn finish_failed(m: HelperModel, e: TransportError) -> (HelperModel, ConnAction) {
    (
        HelperModel { phase: Phase::Idle, state: ConnectionState::Disconnected, reconnecting: false, ..m },
        ConnAction::Fail(e),
    )
}

pub open spec fn unexpected(m: HelperModel) -> (HelperModel, ConnAction) {
    (
        HelperModel { phase: Phase::Idle, reconnecting: false, ..m },
        ConnAction::Fail(TransportError::UnexpectedEvent),
    )
}

pub open spec fn start_check(m: HelperModel, p: Check) -> (HelperModel, ConnAction) {
    (HelperModel { phase: Phase::Checking(p), ..m }, ConnAction::CheckConnected)
}

pub open spec fn start_connect(m: HelperModel) -> (HelperModel, ConnAction) {
    start_check(
        HelperModel { state: ConnectionState::Connecting, retries_left: m.config.max_retries, ..m },
        Check::Existing,
    )
}

/// The end of a disconnect: on its own it finishes; within a reconnect an
/// error finishes and anything else goes on to the cooldown.
pub open spec fn disconnect_done(m: HelperModel, r: Result<bool, TransportError>) -> (HelperModel, ConnAction) {
    let state = match r {
        Ok(true) => ConnectionState::Disconnected,
        Ok(false) => ConnectionState::Connected,
        Err(_) => ConnectionState::Disconnected,
    };
    if m.reconnecting && r is Ok {
        (HelperModel { phase: Phase::Cooldown, state, ..m }, ConnAction::Sleep(m.config.reconnect_delay_ms))
    } else {
        (HelperModel { phase: Phase::Idle, state, reconnecting: false, ..m }, outcome(r))
    }
}

pub open spec fn start_disconnect(m: HelperModel) -> (HelperModel, ConnAction) {
    let m1 = HelperModel { state: ConnectionState::Disconnecting, polls_done: 0, ..m };
    if m.config.disconnect_polls == 0 {
        disconnect_done(m1, Ok(true))
    } else {
        (HelperModel { phase: Phase::Polling, ..m1 }, ConnAction::CheckConnected)
    }
}

/// The result of a stability check.
pub open spec fn checked(m: HelperModel, p: Check, stable: bool) -> (HelperModel, ConnAction) {
    match p {
        Check::Probe => (
            HelperModel {
                phase: Phase::Idle,
                state: if stable {
                    ConnectionState::Connected
                } else {
                    ConnectionState::Disconnected
                },
                ..m
            },
            ConnAction::Done(stable),
        ),
        Check::Existing => if stable {
            (HelperModel { phase: Phase::SettleExisting, ..m }, ConnAction::Sleep(m.config.post_connect_delay_ms))
        } else {
            (HelperModel { phase: Phase::Connecting, ..m }, ConnAction::Connect)
        },
        Check::Settled => if stable {
            finish_connected(m)
        } else {
            (HelperModel { phase: Phase::Connecting, ..m }, ConnAction::Connect)
        },
        Check::Fresh => if stable {
            if m.config.connected_extra_delay_ms > 0 {
                (HelperModel { phase: Phase::ExtraSettle, ..m }, ConnAction::Sleep(m.config.connected_extra_delay_ms))
            } else {
                finish_connected(m)
            }
        } else if m.retries_left == 0 {
            finish_failed(m, TransportError::NotConnected)
        } else {
            let m1 = HelperModel { retries_left: (m.retries_left - 1) as u32, ..m };
            if m1.retries_left > 0 {
                (HelperModel { phase: Phase::RetryWait, ..m1 }, ConnAction::Sleep(m.config.retry_delay_ms))
            } else {
                start_check(m1, Check::Existing)
            }
        },
    }
}

/// One step of the state machine.
pub open spec fn next(m: HelperModel, e: ConnEvent) -> (HelperModel, ConnAction) {
    match (m.phase, e) {
        (Phase::Checking(p), ConnEvent::Status(b)) => if !b {
            checked(m, p, false)
        } else if m.config.double_check {
            (HelperModel { phase: Phase::RecheckWait(p), ..m }, ConnAction::Sleep(m.config.double_check_delay_ms))
        } else {
            checked(m, p, true)
        },
        (Phase::RecheckWait(p), ConnEvent::Slept) => (
            HelperModel { phase: Phase::Rechecking(p), ..m },
            ConnAction::CheckConnected,
        ),
        (Phase::Rechecking(p), ConnEvent::Status(b)) => checked(m, p, b),
        (Phase::Checking(_), ConnEvent::Failed(err)) => finish_failed(m, err),
        (Phase::Rechecking(_), ConnEvent::Failed(err)) => finish_failed(m, err),
        (Phase::SettleExisting, ConnEvent::Slept) => start_check(m, Check::Settled),
        (Phase::Connecting, ConnEvent::ConnectDone) => (
            HelperModel { phase: Phase::SettleFresh, ..m },
            ConnAction::Sleep(m.config.post_connect_delay_ms),
        ),
        (Phase::Connecting, ConnEvent::Failed(err)) => if m.retries_left > 0 {
            (
                HelperModel { phase: Phase::RetryWait, retries_left: (m.retries_left - 1) as u32, ..m },
                ConnAction::Sleep(m.config.retry_delay_ms),
            )
        } else {
            finish_failed(m, err)
        },
        (Phase::SettleFresh, ConnEvent::Slept) => start_check(m, Check::Fresh),
        (Phase::ExtraSettle, ConnEvent::Slept) => finish_connected(m),
        (Phase::RetryWait, ConnEvent::Slept) => start_check(m, Check::Existing),
        (Phase::Polling, ConnEvent::Status(true)) => (
            HelperModel { phase: Phase::Disconnecting, ..m },
            ConnAction::Disconnect,
        ),
        (Phase::Polling, ConnEvent::Status(false)) => (
            HelperModel { phase: Phase::PollWait, ..m },
            ConnAction::Sleep(m.config.disconnect_poll_delay_ms),
        ),
        (Phase::Polling, ConnEvent::Failed(err)) => disconnect_done(m, Err(err)),
        (Phase::PollWait, ConnEvent::Slept) => if m.polls_done + 1 < m.config.disconnect_polls {
            (
                HelperModel { phase: Phase::Polling, polls_done: (m.polls_done + 1) as u32, ..m },
                ConnAction::CheckConnected,
            )
        } else {
            disconnect_done(m, Ok(true))
        },
        (Phase::Disconnecting, ConnEvent::DisconnectDone) => if m.config.wait_for_teardown {
            (HelperModel { phase: Phase::TeardownSettle, ..m }, ConnAction::Sleep(m.config.teardown_settle_ms))
        } else {
            disconnect_done(m, Ok(true))
        },
        (Phase::Disconnecting, ConnEvent::Failed(_)) => disconnect_done(m, Ok(false)),
        (Phase::TeardownSettle, ConnEvent::Slept) => (
            HelperModel { phase: Phase::TeardownCheck, polls_done: 0, ..m },
            ConnAction::CheckConnected,
        ),
        (Phase::TeardownCheck, ConnEvent::Status(true)) => if m.polls_done < m.config.teardown_polls {
            (
                HelperModel { phase: Phase::TeardownWait, polls_done: (m.polls_done + 1) as u32, ..m },
                ConnAction::Sleep(m.config.teardown_poll_delay_ms),
            )
        } else {
            disconnect_done(m, Ok(true))
        },
        (Phase::TeardownCheck, ConnEvent::Status(false)) => disconnect_done(m, Ok(true)),
        (Phase::TeardownCheck, ConnEvent::Failed(_)) => disconnect_done(m, Ok(true)),
        (Phase::TeardownWait, ConnEvent::Slept) => (
            HelperModel { phase: Phase::TeardownCheck, ..m },
            ConnAction::CheckConnected,
        ),
        (Phase::Cooldown, ConnEvent::Slept) => start_connect(m),
        _ => unexpected(m),
    }
}

/// Drives connect, disconnect, reconnect and stability checks of one peer.
/// It alone changes the connection state.
pub struct ConnectionHelper {
    config: ConnectionConfig,
    state: ConnectionState,
    phase: Phase,
    retries_left: u32,
    polls_done: u32,
    reconnecting: bool,
}

impl View for ConnectionHelper {
    type V = HelperModel;

    closed spec fn view(&self) -> HelperModel {
        HelperModel {
            config: self.config,
            state: self.state,
            phase: self.phase,
            retries_left: self.retries_left,
            polls_done: self.polls_done,
            reconnecting: self.reconnecting,
        }
    }
}

impl ConnectionHelper {
    /// An idle helper for a disconnected peer.
    pub fn new(config: ConnectionConfig) -> (r: ConnectionHelper)
        requires
            config.valid(),
        ensures
            r@ == (HelperModel {
                config,
                state: ConnectionState::Disconnected,
                phase: Phase::Idle,
                retries_left: config.max_retries,
                polls_done: 0,
                reconnecting: false,
            }),
    {
        ConnectionHelper {
            config,
            state: ConnectionState::Disconnected,
            phase: Phase::Idle,
            retries_left: config.max_retries,
            polls_done: 0,
            reconnecting: false,
        }
    }

    pub fn state(&self) -> (r: ConnectionState)
        ensures
            r == self@.state,
    {
        self.state
    }

    pub fn phase(&self) -> (r: Phase)
        ensures
            r == self@.phase,
    {
        self.phase
    }

    pub fn retries_left(&self) -> (r: u32)
        ensures
            r == self@.retries_left,
    {
        self.retries_left
    }

    pub fn config(&self) -> (r: ConnectionConfig)
        ensures
            r == self@.config,
    {
        self.config
    }

    fn finish_connected(&mut self) -> (r: ConnAction)
        ensures
            (final(self)@, r) == finish_connected(old(self)@),
    {
        self.phase = Phase::Idle;
        self.state = ConnectionState::Connected;
        self.reconnecting = false;
        ConnAction::Done(true)
    }

    fn finish_failed(&mut self, e: TransportError) -> (r: ConnAction)
        ensures
            (final(self)@, r) == finish_failed(old(self)@, e),
    {
        self.phase = Phase::Idle;
        self.state = ConnectionState::Disconnected;
        self.reconnecting = false;
        ConnAction::Fail(e)
    }

    fn start_check(&mut self, p: Check) -> (r: ConnAction)
        ensures
            (final(self)@, r) == start_check(old(self)@, p),
    {
        self.phase = Phase::Checking(p);
        ConnAction::CheckConnected
    }

    fn start_connect(&mut self) -> (r: ConnAction)
        ensures
            (final(self)@, r) == start_connect(old(self)@),
    {
        self.state = ConnectionState::Connecting;
        self.retries_left = self.config.max_retries;
        self.start_check(Check::Existing)
    }

    fn disconnect_done(&mut self, r: Result<bool, TransportError>) -> (a: ConnAction)
        ensures
            (final(self)@, a) == disconnect_done(old(self)@, r),
    {
        self.state = match r {
            Ok(true) => ConnectionState::Disconnected,
            Ok(false) => ConnectionState::Connected,
            Err(_) => ConnectionState::Disconnected,
        };
        if self.reconnecting && r.is_ok() {
            self.phase = Phase::Cooldown;
            ConnAction::Sleep(self.config.reconnect_delay_ms)
        } else {
            self.phase = Phase::Idle;
            self.reconnecting = false;
            match r {
                Ok(b) => ConnAction::Done(b),
                Err(e) => ConnAction::Fail(e),
            }
        }
    }

    fn start_disconnect(&mut self) -> (r: ConnAction)
        ensures
            (final(self)@, r) == start_disconnect(old(self)@),
    {
        self.state = ConnectionState::Disconnecting;
        self.polls_done = 0;
        if self.config.disconnect_polls == 0 {
            self.disconnect_done(Ok(true))
        } else {
            self.phase = Phase::Polling;
            ConnAction::CheckConnected
        }
    }

    fn checked(&mut self, p: Check, stable: bool) -> (r: ConnAction)
        ensures
            (final(self)@, r) == checked(old(self)@, p, stable),
    {
        match p {
            Check::Probe => {
                self.phase = Phase::Idle;
                self.state = if stable {
                    ConnectionState::Connected
                } else {
                    ConnectionState::Disconnected
                };
                ConnAction::Done(stable)
            },
            Check::Existing => {
                if stable {
                    self.phase = Phase::SettleExisting;
                    ConnAction::Sleep(self.config.post_connect_delay_ms)
                } else {
                    self.phase = Phase::Connecting;
                    ConnAction::Connect
                }
            },
            Check::Settled => {
                if stable {
                    self.finish_connected()
                } else {
                    self.phase = Phase::Connecting;
                    ConnAction::Connect
                }
            },
            Check::Fresh => {
                if stable {
                    if self.config.connected_extra_delay_ms > 0 {
                        self.phase = Phase::ExtraSettle;
                        ConnAction::Sleep(self.config.connected_extra_delay_ms)
                    } else {
                        self.finish_connected()
                    }
                } else if self.retries_left == 0 {
                    self.finish_failed(TransportError::NotConnected)
                } else {
                    self.retries_left = self.retries_left - 1;
                    if self.retries_left > 0 {
                        self.phase = Phase::RetryWait;
                        ConnAction::Sleep(self.config.retry_delay_ms)
                    } else {
                        self.start_check(Check::Existing)
                    }
                }
            },
        }
    }

    /// Starts `is_stable_connected`: looks at the status (twice, apart, where
    /// the platform reports connections early) and finishes with whether
    /// the peer is connected.
    pub fn is_stable_connected(&mut self) -> (r: ConnAction)
        ensures
            (final(self)@, r) == start_check(HelperModel { reconnecting: false, ..old(self)@ }, Check::Probe),
    {
        self.reconnecting = false;
        self.start_check(Check::Probe)
    }

    /// Starts `connect`: keeps an existing connection that is still stable
    /// after the settle delay; otherwise connects, with up to `max_retries`
    /// further attempts, and fails with the transport's last error.
    pub fn connect(&mut self) -> (r: ConnAction)
        ensures
            (final(self)@, r) == start_connect(HelperModel { reconnecting: false, ..old(self)@ }),
    {
        self.reconnecting = false;
        self.start_connect()
    }

    /// Starts `disconnect`: a peer that stays disconnected through the
    /// status polls counts as disconnected, which is success; a refused
    /// disconnect finishes with `false`.
    pub fn disconnect(&mut self) -> (r: ConnAction)
        ensures
            (final(self)@, r) == start_disconnect(HelperModel { reconnecting: false, ..old(self)@ }),
    {
        self.reconnecting = false;
        self.start_disconnect()
    }

    /// Starts `reconnect`: disconnect, then the cooldown, then connect.
    pub fn reconnect(&mut self) -> (r: ConnAction)
        ensures
            (final(self)@, r) == start_disconnect(HelperModel { reconnecting: true, ..old(self)@ }),
    {
        self.reconnecting = true;
        self.start_disconnect()
    }

    /// Feeds back what happened on the last action and gives the next.
    pub fn step(&mut self, e: ConnEvent) -> (r: ConnAction)
        ensures
            (final(self)@, r) == next(old(self)@, e),
    {
        match (self.phase, e) {
            (Phase::Checking(p), ConnEvent::Status(b)) => {
                if !b {
                    self.checked(p, false)
                } else if self.config.double_check {
                    self.phase = Phase::RecheckWait(p);
                    ConnAction::Sleep(self.config.double_check_delay_ms)
                } else {
                    self.checked(p, true)
                }
            },
            (Phase::RecheckWait(p), ConnEvent::Slept) => {
                self.phase = Phase::Rechecking(p);
                ConnAction::CheckConnected
            },
            (Phase::Rechecking(p), ConnEvent::Status(b)) => self.checked(p, b),
            (Phase::Checking(_), ConnEvent::Failed(err)) => self.finish_failed(err),
            (Phase::Rechecking(_), ConnEvent::Failed(err)) => self.finish_failed(err),
            (Phase::SettleExisting, ConnEvent::Slept) => self.start_check(Check::Settled),
            (Phase::Connecting, ConnEvent::ConnectDone) => {
                self.phase = Phase::SettleFresh;
                ConnAction::Sleep(self.config.post_connect_delay_ms)
            },
            (Phase::Connecting, ConnEvent::Failed(err)) => {
                if self.retries_left > 0 {
                    self.phase = Phase::RetryWait;
                    self.retries_left = self.retries_left - 1;
                    ConnAction::Sleep(self.config.retry_delay_ms)
                } else {
                    self.finish_failed(err)
                }
            },
            (Phase::SettleFresh, ConnEvent::Slept) => self.start_check(Check::Fresh),
            (Phase::ExtraSettle, ConnEvent::Slept) => self.finish_connected(),
            (Phase::RetryWait, ConnEvent::Slept) => self.start_check(Check::Existing),
            (Phase::Polling, ConnEvent::Status(true)) => {
                self.phase = Phase::Disconnecting;
                ConnAction::Disconnect
            },
            (Phase::Polling, ConnEvent::Status(false)) => {
                self.phase = Phase::PollWait;
                ConnAction::Sleep(self.config.disconnect_poll_delay_ms)
            },
            (Phase::Polling, ConnEvent::Failed(err)) => self.disconnect_done(Err(err)),
            (Phase::PollWait, ConnEvent::Slept) => {
                if (self.polls_done as u64) + 1 < self.config.disconnect_polls as u64 {
                    self.phase = Phase::Polling;
                    self.polls_done = self.polls_done + 1;
                    ConnAction::CheckConnected
                } else {
                    self.disconnect_done(Ok(true))
                }
            },
            (Phase::Disconnecting, ConnEvent::DisconnectDone) => {
                if self.config.wait_for_teardown {
                    self.phase = Phase::TeardownSettle;
                    ConnAction::Sleep(self.config.teardown_settle_ms)
                } else {
                    self.disconnect_done(Ok(true))
                }
            },
            (Phase::Disconnecting, ConnEvent::Failed(_)) => self.disconnect_done(Ok(false)),
            (Phase::TeardownSettle, ConnEvent::Slept) => {
                self.phase = Phase::TeardownCheck;
                self.polls_done = 0;
                ConnAction::CheckConnected
            },
            (Phase::TeardownCheck, ConnEvent::Status(true)) => {
                if self.polls_done < self.config.teardown_polls {
                    self.phase = Phase::TeardownWait;
                    self.polls_done = self.polls_done + 1;
                    ConnAction::Sleep(self.config.teardown_poll_delay_ms)
                } else {
                    self.disconnect_done(Ok(true))
                }
            },
            (Phase::TeardownCheck, ConnEvent::Status(false)) => self.disconnect_done(Ok(true)),
            (Phase::TeardownCheck, ConnEvent::Failed(_)) => self.disconnect_done(Ok(true)),
            (Phase::TeardownWait, ConnEvent::Slept) => {
                self.phase = Phase::TeardownCheck;
                ConnAction::CheckConnected
            },
            (Phase::Cooldown, ConnEvent::Slept) => self.start_connect(),
            _ => {
                self.phase = Phase::Idle;
                self.reconnecting = false;
                ConnAction::Fail(TransportError::UnexpectedEvent)
            },
        }
    }
}

/// Whether an action ends its procedure.
pub open spec fn is_final(a: ConnAction) -> bool {
    a is Done || a is Fail
}

/// Runs the machine from `m` with pending action `a`, answering each action
/// with `answer`, for at most `fuel` steps: the last state and every action
/// issued.
pub open spec fn drive(
    m: HelperModel,
    a: ConnAction,
    answer: spec_fn(ConnAction) -> ConnEvent,
    fuel: nat,
) -> (HelperModel, Seq<ConnAction>)
    decreases fuel,
{
    if fuel == 0 || is_final(a) {
        (m, seq![a])
    } else {
        let (m1, a1) = next(m, answer(a));
        let (mf, rest) = drive(m1, a1, answer, (fuel - 1) as nat);
        (mf, seq![a] + rest)
    }
}

/// A peer that is connected and stays so: every status look says
/// connected, every sleep completes.
pub open spec fn stable_peer(a: ConnAction) -> ConnEvent {
    match a {
        ConnAction::CheckConnected => ConnEvent::Status(true),
        _ => ConnEvent::Slept,
    }
}

/// `connect` on a peer that is already connected and stable succeeds
/// without a connection attempt and without spending a retry.
pub proof fn lemma_connect_when_stable(m: HelperModel)
    ensures
        ({
            let (m0, a0) = start_connect(HelperModel { reconnecting: false, ..m });
            let (mf, acts) = drive(m0, a0, |a: ConnAction| stable_peer(a), 8);
            &&& acts.last() == ConnAction::Done(true)
            &&& forall|i: int| 0 <= i < acts.len() ==> acts[i] != ConnAction::Connect
            &&& mf.retries_left == m.config.max_retries
            &&& mf.state == ConnectionState::Connected
            &&& mf.phase == Phase::Idle
        }),
{
    reveal_with_fuel(drive, 9);
    let answer = |a: ConnAction| stable_peer(a);
    let (m0, a0) = start_connect(HelperModel { reconnecting: false, ..m });
    let (mf, acts) = drive(m0, a0, answer, 8);
    if m.config.double_check {
        assert(acts =~= seq![
            ConnAction::CheckConnected,
            ConnAction::Sleep(m.config.double_check_delay_ms),
            ConnAction::CheckConnected,
            ConnAction::Sleep(m.config.post_connect_delay_ms),
            ConnAction::CheckConnected,
            ConnAction::Sleep(m.config.double_check_delay_ms),
            ConnAction::CheckConnected,
            ConnAction::Done(true),
        ]);
    } else {
        assert(acts =~= seq![
            ConnAction::CheckConnected,
            ConnAction::Sleep(m.config.post_connect_delay_ms),
            ConnAction::CheckConnected,
            ConnAction::Done(true),
        ]);
    }
}

/// How many connection actions a seq of actions holds.
pub open spec fn count_connects(s: Seq<ConnAction>) -> nat
    decreases s.len(),
{
    if s.len() == 0 {
        0
    } else {
        (if s[0] == ConnAction::Connect {
            1nat
        } else {
            0nat
        }) + count_connects(s.drop_first())
    }
}

/// Connection attempts that a connect procedure in state `m` may still
/// make: one more than the retries left while the current attempt has not
/// connected yet, the retries left once it has, none outside connecting.
pub open spec fn attempts_left(m: HelperModel) -> nat {
    match m.phase {
        Phase::Checking(Check::Existing) | Phase::RecheckWait(Check::Existing) | Phase::Rechecking(
            Check::Existing,
        ) | Phase::Checking(Check::Settled) | Phase::RecheckWait(Check::Settled) | Phase::Rechecking(
            Check::Settled,
        ) | Phase::SettleExisting | Phase::RetryWait => m.retries_left as nat + 1,
        Phase::Connecting | Phase::SettleFresh | Phase::Checking(Check::Fresh) | Phase::RecheckWait(
            Check::Fresh,
        ) | Phase::Rechecking(Check::Fresh) | Phase::ExtraSettle => m.retries_left as nat,
        _ => 0,
    }
}

/// The phases of a connect procedure.
pub open spec fn connecting(m: HelperModel) -> bool {
    match m.phase {
        Phase::Checking(p) | Phase::RecheckWait(p) | Phase::Rechecking(p) => p != Check::Probe,
        Phase::SettleExisting | Phase::RetryWait | Phase::Connecting | Phase::SettleFresh
        | Phase::ExtraSettle => true,
        _ => false,
    }
}

proof fn lemma_step_attempts(m: HelperModel, e: ConnEvent)
    requires
        connecting(m),
    ensures
        ({
            let (m1, a1) = next(m, e);
            &&& (if a1 == ConnAction::Connect {
                1nat
            } else {
                0nat
            }) + attempts_left(m1) <= attempts_left(m)
            &&& (!is_final(a1) ==> connecting(m1))
            &&& a1 != ConnAction::Disconnect
        }),
{
}

proof fn lemma_drive_attempts(
    m: HelperModel,
    a: ConnAction,
    answer: spec_fn(ConnAction) -> ConnEvent,
    fuel: nat,
)
    requires
        connecting(m) || is_final(a),
    ensures
        count_connects(drive(m, a, answer, fuel).1) <= (if a == ConnAction::Connect {
            1nat
        } else {
            0nat
        }) + attempts_left(m),
    decreases fuel,
{
    let acts = drive(m, a, answer, fuel).1;
    if fuel == 0 || is_final(a) {
        assert(acts == seq![a]);
        assert(acts.drop_first() =~= Seq::<ConnAction>::empty());
        assert(count_connects(acts.drop_first()) == 0);
    } else {
        let (m1, a1) = next(m, answer(a));
        lemma_step_attempts(m, answer(a));
        lemma_drive_attempts(m1, a1, answer, (fuel - 1) as nat);
        let rest = drive(m1, a1, answer, (fuel - 1) as nat).1;
        assert(acts == seq![a] + rest);
        assert(acts.drop_first() =~= rest);
        assert(acts[0] == a);
    }
}

/// Whatever the peer does, a `connect` makes at most `max_retries + 1`
/// connection attempts.
pub proof fn lemma_connect_attempts_bounded(
    m: HelperModel,
    answer: spec_fn(ConnAction) -> ConnEvent,
    fuel: nat,
)
    ensures
        ({
            let (m0, a0) = start_connect(HelperModel { reconnecting: false, ..m });
            count_connects(drive(m0, a0, answer, fuel).1) <= m.config.max_retries + 1
        }),
{
    let (m0, a0) = start_connect(HelperModel { reconnecting: false, ..m });
    lemma_drive_attempts(m0, a0, answer, fuel);
}

/// The phases of the disconnect half of a reconnect.
pub open spec fn disconnecting_to_reconnect(m: HelperModel) -> bool {
    m.reconnecting && match m.phase {
        Phase::Polling | Phase::PollWait | Phase::Disconnecting | Phase::TeardownSettle
        | Phase::TeardownCheck | Phase::TeardownWait => true,
        _ => false,
    }
}

/// Where a reconnect can stand with pending action `a`: finished, in its
/// disconnect half with no connection attempt pending, or in the cooldown
/// sleep.
pub open spec fn reconnect_order_holds(m: HelperModel, a: ConnAction, cooldown: u64) -> bool {
    ||| is_final(a)
    ||| (disconnecting_to_reconnect(m) && a != ConnAction::Connect)
    ||| (m.phase == Phase::Cooldown && a == ConnAction::Sleep(cooldown))
}

proof fn lemma_step_disconnect_half(m: HelperModel, e: ConnEvent)
    requires
        disconnecting_to_reconnect(m),
    ensures
        ({
            let (m1, a1) = next(m, e);
            &&& m1.config == m.config
            &&& reconnect_order_holds(m1, a1, m.config.reconnect_delay_ms)
        }),
{
}

proof fn lemma_connect_half_never_disconnects(
    m: HelperModel,
    a: ConnAction,
    answer: spec_fn(ConnAction) -> ConnEvent,
    fuel: nat,
)
    requires
        is_final(a) || (connecting(m) && a != ConnAction::Disconnect),
    ensures
        forall|j: int|
            0 <= j < drive(m, a, answer, fuel).1.len() ==> drive(m, a, answer, fuel).1[j]
                != ConnAction::Disconnect,
    decreases fuel,
{
    let acts = drive(m, a, answer, fuel).1;
    if fuel == 0 || is_final(a) {
        assert(acts == seq![a]);
    } else {
        let (m1, a1) = next(m, answer(a));
        lemma_step_attempts(m, answer(a));
        lemma_connect_half_never_disconnects(m1, a1, answer, (fuel - 1) as nat);
        let rest = drive(m1, a1, answer, (fuel - 1) as nat).1;
        assert(acts == seq![a] + rest);
        assert forall|j: int| 0 <= j < acts.len() implies acts[j] != ConnAction::Disconnect by {
            if j > 0 {
                assert(acts[j] == rest[j - 1]);
            }
        }
    }
}

proof fn lemma_reconnect_split(
    m: HelperModel,
    a: ConnAction,
    answer: spec_fn(ConnAction) -> ConnEvent,
    fuel: nat,
) -> (k: int)
    requires
        reconnect_order_holds(m, a, m.config.reconnect_delay_ms),
    ensures
        ({
            let acts = drive(m, a, answer, fuel).1;
            &&& 0 <= k <= acts.len()
            &&& forall|i: int| 0 <= i < k ==> acts[i] != ConnAction::Connect
            &&& k < acts.len() ==> acts[k] == ConnAction::Sleep(m.config.reconnect_delay_ms)
            &&& forall|j: int| k < j < acts.len() ==> acts[j] != ConnAction::Disconnect
        }),
    decreases fuel,
{
    let acts = drive(m, a, answer, fuel).1;
    if fuel == 0 || is_final(a) {
        assert(acts == seq![a]);
        if is_final(a) || disconnecting_to_reconnect(m) {
            1
        } else {
            0
        }
    } else {
        let (m1, a1) = next(m, answer(a));
        let rest = drive(m1, a1, answer, (fuel - 1) as nat).1;
        assert(acts == seq![a] + rest);
        if m.phase == Phase::Cooldown && a == ConnAction::Sleep(m.config.reconnect_delay_ms) {
            lemma_connect_half_never_disconnects(m1, a1, answer, (fuel - 1) as nat);
            assert forall|j: int| 0 < j < acts.len() implies acts[j] != ConnAction::Disconnect by {
                assert(acts[j] == rest[j - 1]);
            }
            0
        } else {
            lemma_step_disconnect_half(m, answer(a));
            let k1 = lemma_reconnect_split(m1, a1, answer, (fuel - 1) as nat);
            assert forall|i: int| 0 <= i < k1 + 1 implies acts[i] != ConnAction::Connect by {
                if i > 0 {
                    assert(acts[i] == rest[i - 1]);
                }
            }
            assert forall|j: int| k1 + 1 < j < acts.len() implies acts[j] != ConnAction::Disconnect by {
                assert(acts[j] == rest[j - 1]);
            }
            if k1 < rest.len() {
                assert(acts[k1 + 1] == rest[k1]);
            }
            k1 + 1
        }
    }
}

/// Whatever the peer does, a `reconnect` splits at the cooldown sleep:
/// every action before it belongs to the disconnect (no connection attempt),
/// and every action after it to the connect (no disconnect). A reconnect
/// that gets past disconnecting always sleeps the cooldown, also when the
/// peer was already disconnected; one whose disconnect fails ends before
/// it, with no connection attempt.
pub proof fn lemma_reconnect_order(
    m: HelperModel,
    answer: spec_fn(ConnAction) -> ConnEvent,
    fuel: nat,
) -> (k: int)
    ensures
        ({
            let (m0, a0) = start_disconnect(HelperModel { reconnecting: true, ..m });
            let acts = drive(m0, a0, answer, fuel).1;
            &&& 0 <= k <= acts.len()
            &&& forall|i: int| 0 <= i < k ==> acts[i] != ConnAction::Connect
            &&& k < acts.len() ==> acts[k] == ConnAction::Sleep(m.config.reconnect_delay_ms)
            &&& forall|j: int| k < j < acts.len() ==> acts[j] != ConnAction::Disconnect
        }),
{
    let (m0, a0) = start_disconnect(HelperModel { reconnecting: true, ..m });
    lemma_reconnect_split(m0, a0, answer, fuel)
}

} // verus!
