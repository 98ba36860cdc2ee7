//! The authenticated session: sends frames on the write channel and matches
//! each request with the next notification on the notify channel. One
//! request is outstanding at a time; a second is refused with `Busy` until
//! the first is answered, times out or the stream ends.
use vstd::prelude::*;
use crate::channels::Channel;
use crate::codec::{encode, frame_body, frame_spec, decode, decode_spec, packet_of, EncodingError};
use crate::commands::{ScooterCommand, MAX_PAYLOAD_LEN};

verus! {

/// Why a session operation failed.
#[derive(Clone, Copy, Debug, PartialEq, Eq, Structural)]
pub enum SessionError {
    /// No matching notification arrived in time; the session stays usable.
    Timeout,
    /// The notification stream ended; the session is no longer usable.
    TransportClosed,
    /// A request is already outstanding.
    Busy,
    /// A response too short or malformed for its attribute.
    MalformedResponse,
    /// The frame could not be encoded.
    Encoding(EncodingError),
}

/// Acknowledged or unacknowledged write.
#[derive(Clone, Copy, Debug, PartialEq, Eq, Structural)]
pub enum WriteMode {
    WithResponse,
    WithoutResponse,
}

/// Bytes to write to a channel, and how.
#[derive(Clone, Debug)]
pub struct OutboundWrite {
    pub channel: u128,
    pub bytes: Vec<u8>,
    pub mode: WriteMode,
}

/// The state of a session as the contracts see it.
pub struct SessionModel {
    pub key: Seq<u8>,
    pub tx: Channel,
    pub rx: Channel,
    pub pending: bool,
    pub closed: bool,
}

/// Unacknowledged writes where the channel offers them.
pub open spec fn mode_for(tx: Channel) -> WriteMode {
    if tx.properties.write_without_response {
        WriteMode::WithoutResponse
    } else {
        WriteMode::WithResponse
    }
}

/// What `send` writes for a command.
pub open spec fn send_spec(s: SessionModel, c: ScooterCommand) -> Result<(u128, Seq<u8>, WriteMode), SessionError> {
    if s.closed {
        Err(SessionError::TransportClosed)
    } else if c.payload@.len() > MAX_PAYLOAD_LEN {
        Err(SessionError::Encoding(EncodingError::PayloadTooLarge))
    } else {
        Ok((s.tx.uuid, packet_of(c), mode_for(s.tx)))
    }
}

/// A request: refused when closed or busy, else sent and outstanding.
pub open spec fn request_spec(s: SessionModel, c: ScooterCommand) -> (SessionModel, Result<(u128, Seq<u8>, WriteMode), SessionError>) {
    if s.closed {
        (s, Err(SessionError::TransportClosed))
    } else if s.pending {
        (s, Err(SessionError::Busy))
    } else if c.payload@.len() > MAX_PAYLOAD_LEN {
        (s, Err(SessionError::Encoding(EncodingError::PayloadTooLarge)))
    } else {
        (SessionModel { pending: true, ..s }, Ok((s.tx.uuid, packet_of(c), mode_for(s.tx))))
    }
}

/// A notification is a response when it comes on the notify channel and
/// its bytes decode as a packet.
pub open spec fn is_response_spec(rx: u128, channel: u128, value: Seq<u8>) -> bool {
    channel == rx && decode_spec(value) is Ok
}

/// A response answers the outstanding request; anything else (another
/// channel, bytes that do not decode, nothing outstanding) is dropped and
/// the request waits on.
pub open spec fn notify_spec(s: SessionModel, channel: u128, value: Seq<u8>) -> (SessionModel, Option<Seq<u8>>) {
    if s.pending && !s.closed && is_response_spec(s.rx.uuid, channel, value) {
        (SessionModel { pending: false, ..s }, Some(value))
    } else {
        (s, None)
    }
}

/// A timeout abandons the outstanding request.
pub open spec fn timeout_spec(s: SessionModel) -> SessionModel {
    SessionModel { pending: false, ..s }
}

/// The end of the stream closes the session.
pub open spec fn closed_spec(s: SessionModel) -> SessionModel {
    SessionModel { pending: false, closed: true, ..s }
}

pub open spec fn write_view(w: OutboundWrite) -> (u128, Seq<u8>, WriteMode) {
    (w.channel, w.bytes@, w.mode)
}

pub open spec fn result_view(r: Result<OutboundWrite, SessionError>) -> Result<(u128, Seq<u8>, WriteMode), SessionError> {
    match r {
        Ok(w) => Ok(write_view(w)),
        Err(e) => Err(e),
    }
}

/// Whether a notification is a response: it comes on the notify channel
/// `rx` and its bytes decode as a packet.
pub fn is_response(rx: u128, channel: u128, value: &[u8]) -> (r: bool)
    ensures
        r == is_response_spec(rx, channel, value@),
{
    channel == rx && decode(value).is_ok()
}

/// How writes to a channel go.
pub fn write_mode_for(tx: &Channel) -> (r: WriteMode)
    ensures
        r == mode_for(*tx),
{
    if tx.properties.write_without_response {
        WriteMode::WithoutResponse
    } else {
        WriteMode::WithResponse
    }
}

/// An authenticated conversation with one peer.
pub struct Session {
    key: Vec<u8>,
    tx: Channel,
    rx: Channel,
    pending: bool,
    closed: bool,
}

impl View for Session {
    type V = SessionModel;

    closed spec fn view(&self) -> SessionModel {
        SessionModel { key: self.key@, tx: self.tx, rx: self.rx, pending: self.pending, closed: self.closed }
    }
}

impl Session {
    /// A fresh session over a channel pair with the negotiated key; made
    /// only by a completed handshake.
    pub(crate) fn established(key: Vec<u8>, tx: Channel, rx: Channel) -> (r: Session)
        ensures
            r@ == (SessionModel { key: key@, tx, rx, pending: false, closed: false }),
    {
        Session { key, tx, rx, pending: false, closed: false }
    }

    pub fn is_pending(&self) -> (r: bool)
        ensures
            r == self@.pending,
    {
        self.pending
    }

    pub fn is_closed(&self) -> (r: bool)
        ensures
            r == self@.closed,
    {
        self.closed
    }

    /// The channel that responses come on.
    pub fn rx_channel(&self) -> (r: Channel)
        ensures
            r == self@.rx,
    {
        self.rx
    }

    /// The channel that commands go to.
    pub fn tx_channel(&self) -> (r: Channel)
        ensures
            r == self@.tx,
    {
        self.tx
    }

    /// How writes go to the write channel.
    pub fn write_mode(&self) -> (r: WriteMode)
        ensures
            r == mode_for(self@.tx),
    {
        write_mode_for(&self.tx)
    }

    /// The write that sends a command without waiting for an answer.
    pub fn send(&self, command: &ScooterCommand) -> (r: Result<OutboundWrite, SessionError>)
        ensures
            result_view(r) == send_spec(self@, *command),
    {
        if self.closed {
            return Err(SessionError::TransportClosed);
        }
        match encode(command) {
            Ok(bytes) => Ok(OutboundWrite { channel: self.tx.uuid, bytes, mode: self.write_mode() }),
            Err(e) => Err(SessionError::Encoding(e)),
        }
    }

    /// The write for raw bytes: a pre-built packet goes out as it is, a
    /// body whose payload is over the frame's limit is refused and nothing
    /// is written, anything else is wrapped.
    pub fn send_raw(&self, body: &[u8]) -> (r: Result<OutboundWrite, SessionError>)
        ensures
            self@.closed ==> r == Err::<OutboundWrite, SessionError>(SessionError::TransportClosed),
            !self@.closed ==> result_view(r) == match frame_spec(body@) {
                Ok(p) => Ok::<(u128, Seq<u8>, WriteMode), SessionError>(
                    (self@.tx.uuid, p, mode_for(self@.tx)),
                ),
                Err(e) => Err(SessionError::Encoding(e)),
            },
    {
        if self.closed {
            return Err(SessionError::TransportClosed);
        }
        match frame_body(body) {
            Ok(bytes) => Ok(OutboundWrite { channel: self.tx.uuid, bytes, mode: self.write_mode() }),
            Err(e) => Err(SessionError::Encoding(e)),
        }
    }

    /// Starts a request: gives the write to perform and marks the request
    /// outstanding until `on_notification`, `on_timeout` or `on_stream_end`.
    pub fn request(&mut self, command: &ScooterCommand) -> (r: Result<OutboundWrite, SessionError>)
        ensures
            (final(self)@, result_view(r)) == request_spec(old(self)@, *command),
    {
        if self.closed {
            return Err(SessionError::TransportClosed);
        }
        if self.pending {
            return Err(SessionError::Busy);
        }
        match encode(command) {
            Ok(bytes) => {
                self.pending = true;
                Ok(OutboundWrite { channel: self.tx.uuid, bytes, mode: self.write_mode() })
            },
            Err(e) => Err(SessionError::Encoding(e)),
        }
    }

    /// A notification from the peer: the response to the outstanding request
    /// when it comes on the notify channel and decodes; anything else is
    /// dropped and the request waits on.
    pub fn on_notification(&mut self, channel: u128, value: Vec<u8>) -> (r: Option<Vec<u8>>)
        ensures
            (final(self)@, match r {
                Some(v) => Some(v@),
                None => None::<Seq<u8>>,
            }) == notify_spec(old(self)@, channel, value@),
            decode_spec(value@) is Err ==> r is None && final(self)@ == old(self)@,
    {
        if self.pending && !self.closed && is_response(self.rx.uuid, channel, value.as_slice()) {
            self.pending = false;
            Some(value)
        } else {
            None
        }
    }

    /// The wait for a response ran out: the request is abandoned and the
    /// session stays usable.
    pub fn on_timeout(&mut self) -> (r: SessionError)
        ensures
            final(self)@ == timeout_spec(old(self)@),
            r == SessionError::Timeout,
    {
        self.pending = false;
        SessionError::Timeout
    }

    /// The notification stream ended: the session is closed for good.
    pub fn on_stream_end(&mut self) -> (r: SessionError)
        ensures
            final(self)@ == closed_spec(old(self)@),
            r == SessionError::TransportClosed,
    {
        self.pending = false;
        self.closed = true;
        SessionError::TransportClosed
    }
}

/// After a request times out the session takes the next request, and a
/// well-formed notification on the notify channel answers it.
pub proof fn lemma_usable_after_timeout(
    s: SessionModel,
    first: ScooterCommand,
    second: ScooterCommand,
    value: Seq<u8>,
)
    requires
        !s.closed,
        !s.pending,
        second.payload@.len() <= MAX_PAYLOAD_LEN,
        decode_spec(value) is Ok,
    ensures
        ({
            let s1 = request_spec(s, first).0;
            let s2 = timeout_spec(s1);
            let (s3, sent) = request_spec(s2, second);
            let (s4, answer) = notify_spec(s3, s.rx.uuid, value);
            &&& sent == Ok::<(u128, Seq<u8>, WriteMode), SessionError>(
                (s.tx.uuid, packet_of(second), mode_for(s.tx)),
            )
            &&& answer == Some(value)
            &&& !s4.pending
            &&& !s4.closed
        }),
{
}

/// A request whose payload is over the frame limit is refused with
/// `PayloadTooLarge`: nothing is written and the session is unchanged.
pub proof fn lemma_oversized_request_writes_nothing(s: SessionModel, c: ScooterCommand)
    requires
        !s.closed,
        !s.pending,
        c.payload@.len() > MAX_PAYLOAD_LEN,
    ensures
        request_spec(s, c) == (s, Err::<(u128, Seq<u8>, WriteMode), SessionError>(
            SessionError::Encoding(EncodingError::PayloadTooLarge),
        )),
{
}

} // verus!
