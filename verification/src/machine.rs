//! The client side of a Noise `XKpsk3` handshake, driven one event at a time.
//!
//! The state machine decides what to do; the messages it produces are handed
//! back as a `Delivery`, which the caller passes to one of its two callbacks.

use vstd::prelude::*;
use vstd::slice::{slice_subrange, slice_to_vec};
use crate::error::NoiseError;
use crate::channel::Channel;
use crate::setup::{SessionBuilder, SetupRecord};
use crate::snow_api::{
    DH_KEY_LEN, MAX_DH_LEN, MAX_MESSAGE_LEN, TAG_LEN, handshake_into_transport, handshake_read,
    handshake_write, snow_error_debug,
};
use crate::text::str_debug_text;

verus! {

/// The Noise protocol that the handshake client speaks.
pub const CLIENT_NOISE_NAME: &'static str = "Noise_XKpsk3_25519_ChaChaPoly_BLAKE2s";

/// The slot of the pre-shared key in the handshake pattern.
pub const PSK_LOCATION: u8 = 3;

/// The pre-shared secret both parties hold: the ASCII bytes of
/// "Random 32 characters long secret".
pub open spec fn shared_secret() -> Seq<u8> {
    seq![82u8, 97, 110, 100, 111, 109, 32, 51, 50, 32, 99, 104, 97, 114, 97, 99,
        116, 101, 114, 115, 32, 108, 111, 110, 103, 32, 115, 101, 99, 114, 101, 116]
}

/// The pre-shared secret as an array.
pub fn shared_secret_bytes() -> (r: [u8; 32])
    ensures
        r@ == shared_secret(),
{
    let r: [u8; 32] = [82u8, 97, 110, 100, 111, 109, 32, 51, 50, 32, 99, 104, 97, 114, 97, 99,
        116, 101, 114, 115, 32, 108, 111, 110, 103, 32, 115, 101, 99, 114, 101, 116];
    assert(r@ =~= shared_secret());
    r
}

/// The stages of the handshake. Only some are reached by the initiator.
#[derive(Clone, Copy, PartialEq, Eq, Structural, Debug)]
pub enum NoiseHandshake {
    WaitingForConnection,
    ReceivedPublicStaticKey,
    SentEphemeralPublicKey,
    ReceivedEphemeralPublicKey,
    SentStaticPublicKey,
    HandshakeCompleted,
}

/// Which of the two callbacks receives a message.
#[derive(Clone, Copy, PartialEq, Eq, Structural, Debug)]
pub enum Callback {
    /// Towards the application (decrypted data).
    Up,
    /// Towards the network (handshake and request messages).
    Down,
}

/// A message for a callback: bytes of the wire, or a text.
#[derive(Debug)]
pub enum Payload {
    Bytes(Vec<u8>),
    Text(String),
}

/// What one step of the state machine hands to a callback.
#[derive(Debug)]
pub struct Delivery {
    pub target: Callback,
    pub payload: Payload,
}

/// The position of a stage in the order of the handshake.
pub open spec fn stage_rank(s: NoiseHandshake) -> int {
    match s {
        NoiseHandshake::WaitingForConnection => 0,
        NoiseHandshake::ReceivedPublicStaticKey => 1,
        NoiseHandshake::SentEphemeralPublicKey => 2,
        NoiseHandshake::ReceivedEphemeralPublicKey => 3,
        NoiseHandshake::SentStaticPublicKey => 4,
        NoiseHandshake::HandshakeCompleted => 5,
    }
}

/// The stage after one call of `handle_connection`. It depends on the role,
/// the stage and nothing else: what `snow` answers does not change it.
pub open spec fn next_stage(role: bool, s: NoiseHandshake, send_mode: bool) -> NoiseHandshake {
    if !role {
        s
    } else {
        match s {
            NoiseHandshake::WaitingForConnection => NoiseHandshake::SentEphemeralPublicKey,
            NoiseHandshake::SentEphemeralPublicKey => NoiseHandshake::HandshakeCompleted,
            NoiseHandshake::ReceivedEphemeralPublicKey => NoiseHandshake::HandshakeCompleted,
            NoiseHandshake::HandshakeCompleted => NoiseHandshake::HandshakeCompleted,
            _ => s,
        }
    }
}

/// The callback that one call of `handle_connection` delivers to, if any.
pub open spec fn delivery_target(role: bool, s: NoiseHandshake, send_mode: bool) -> Option<Callback> {
    if !role {
        None
    } else {
        match s {
            NoiseHandshake::WaitingForConnection => Some(Callback::Down),
            NoiseHandshake::SentEphemeralPublicKey => Some(Callback::Down),
            NoiseHandshake::ReceivedEphemeralPublicKey => Some(Callback::Down),
            NoiseHandshake::HandshakeCompleted => if send_mode {
                Some(Callback::Down)
            } else {
                Some(Callback::Up)
            },
            _ => None,
        }
    }
}

/// The name of a stage, as its `Debug` rendering spells it.
pub open spec fn stage_name(s: NoiseHandshake) -> Seq<char> {
    match s {
        NoiseHandshake::WaitingForConnection => "WaitingForConnection"@,
        NoiseHandshake::ReceivedPublicStaticKey => "ReceivedPublicStaticKey"@,
        NoiseHandshake::SentEphemeralPublicKey => "SentEphemeralPublicKey"@,
        NoiseHandshake::ReceivedEphemeralPublicKey => "ReceivedEphemeralPublicKey"@,
        NoiseHandshake::SentStaticPublicKey => "SentStaticPublicKey"@,
        NoiseHandshake::HandshakeCompleted => "HandshakeCompleted"@,
    }
}

/// `b` is the start of the buffer `buf`.
pub open spec fn is_buffer_prefix(b: Seq<u8>, buf: Seq<u8>) -> bool {
    b.len() <= buf.len() && b == buf.subrange(0, b.len() as int)
}

/// "Error: " and the `Debug` rendering of a `NoiseError::SnowError` whose
/// `snow` error renders as `d`.
pub open spec fn snow_failure_debug(d: Seq<char>) -> Seq<char> {
    "Error: "@ + "SnowError("@ + d + ")"@
}

/// The text sent in place of a handshake message that `snow` refused to produce.
pub open spec fn is_initiation_failure_text(t: Seq<char>) -> bool {
    exists|d: Seq<char>| t == "Initiation error: "@ + str_debug_text(#[trigger] snow_failure_debug(d))
}

/// The text sent in place of a transport message that `snow` refused to handle.
pub open spec fn is_other_failure_text(t: Seq<char>) -> bool {
    exists|d: Seq<char>| t == "Other error: "@ + #[trigger] snow_failure_debug(d)
}

/// What the handshaker's step gives back: a message that starts its buffer,
/// or a refusal of `snow`.
pub open spec fn is_written_outcome(r: Result<Payload, NoiseError>, buf: Seq<u8>) -> bool {
    match r {
        Ok(Payload::Bytes(b)) => is_buffer_prefix(b@, buf),
        Ok(Payload::Text(_)) => false,
        Err(e) => e is SnowError,
    }
}

/// The bytes that a send-mode call encrypts: the given message, or nothing.
pub open spec fn outgoing_bytes(msg: Option<Seq<u8>>) -> Seq<u8> {
    match msg {
        Some(m) => m,
        None => Seq::empty(),
    }
}

/// The bytes that a call reads: the received message, or, when none came,
/// the UTF-8 message of an `OtherError` with the given reason.
pub open spec fn incoming_bytes(msg: Option<Seq<u8>>, reason: Seq<char>) -> Seq<u8> {
    match msg {
        Some(m) => m,
        None => vstd::utf8::encode_utf8("Other error: "@ + reason),
    }
}

/// What one call of `handle_connection` delivers, given the role, the stage,
/// the send mode and the message it was called with, the session held before
/// it, and the handshaker's buffer after it.
///
/// During the handshake: a handshake message at the start of the buffer, or
/// the text of an `InitiationSendError`. After it, in send mode: the given
/// message encrypted (its length plus the tag), or the text of an
/// `OtherError`; in receive mode: the plaintext of the received message (its
/// length less the tag), or the text of an `OtherError`. Only a transport
/// session yields bytes after the handshake.
pub open spec fn delivery_matches(
    r: Option<Delivery>,
    role: bool,
    s: NoiseHandshake,
    send_mode: bool,
    msg: Option<Seq<u8>>,
    session: SessionKind,
    buf: Seq<u8>,
) -> bool {
    match delivery_target(role, s, send_mode) {
        None => r is None,
        Some(target) => match r {
            None => false,
            Some(d) => {
                &&& d.target == target
                &&& if s == NoiseHandshake::HandshakeCompleted {
                    match d.payload {
                        Payload::Bytes(b) => {
                            &&& session == SessionKind::Transport
                            &&& is_buffer_prefix(b@, buf)
                            &&& if send_mode {
                                b@.len() == outgoing_bytes(msg).len() + TAG_LEN
                            } else {
                                b@.len() + TAG_LEN == incoming_bytes(msg, "No message received$"@).len()
                            }
                        },
                        Payload::Text(t) => is_other_failure_text(t@),
                    }
                } else {
                    match d.payload {
                        Payload::Bytes(b) => is_buffer_prefix(b@, buf),
                        Payload::Text(t) => is_initiation_failure_text(t@),
                    }
                }
            },
        },
    }
}

/// The session held after one call of `handle_connection`: a client's last
/// handshake step leaves the handshake state (for a transport session or a
/// kept refusal); every other call keeps the session.
pub open spec fn session_after(role: bool, s: NoiseHandshake, session: SessionKind, after: SessionKind) -> bool {
    if role && (s == NoiseHandshake::SentEphemeralPublicKey || s == NoiseHandshake::ReceivedEphemeralPublicKey) {
        after != SessionKind::Handshake
    } else {
        after == session
    }
}

/// Turns the count of bytes that `snow` wrote into `buf` into the message to
/// deliver, or its refusal into a `NoiseError`.
pub fn written_payload(buf: &Vec<u8>, outcome: Result<usize, snow::Error>) -> (r: Result<Payload, NoiseError>)
    requires
        outcome matches Ok(n) ==> n <= buf@.len(),
    ensures
        match outcome {
            Ok(n) => r matches Ok(Payload::Bytes(b)) && b@ == buf@.subrange(0, n as int),
            Err(e) => r == Err::<Payload, NoiseError>(NoiseError::SnowError(e)),
        },
{
    match outcome {
        Ok(n) => {
            let b = slice_to_vec(slice_subrange(buf.as_slice(), 0, n));
            Ok(Payload::Bytes(b))
        },
        Err(e) => Err(NoiseError::from(e)),
    }
}

/// The bytes to read: the received message, or, when none came, the message
/// of an `OtherError` with the given reason.
pub fn message_or_missing(msg: Option<Vec<u8>>, reason: &str) -> (r: Vec<u8>)
    ensures
        match msg {
            Some(m) => r == m,
            None => r@ == vstd::utf8::encode_utf8("Other error: "@ + reason@),
        },
{
    match msg {
        Some(m) => m,
        None => NoiseError::OtherError(String::from_str(reason)).into_bytes(),
    }
}

/// "Error: " followed by the `Debug` rendering of the error.
fn error_debug_line(e: &NoiseError) -> (r: String)
    ensures
        match e {
            NoiseError::SnowError(_) => exists|d: Seq<char>| r@ == #[trigger] snow_failure_debug(d),
            _ => r@ == "Error: "@ + e.plain_debug(),
        },
{
    let mut r = String::from_str("Error: ");
    let d = e.debug_text();
    r.append(d.as_str());
    proof {
        if e is SnowError {
            let t = choose|t: Seq<char>| d@ == "SnowError("@ + t + ")"@;
            assert(r@ =~= snow_failure_debug(t));
        }
    }
    r
}

/// The payload of a handshake step: the message, or, when `snow` refused, the
/// message of an `InitiationSendError` that renders the refusal.
pub fn initiation_payload(outcome: Result<Payload, NoiseError>) -> (r: Payload)
    ensures
        match outcome {
            Ok(p) => r == p,
            Err(NoiseError::SnowError(_)) => r matches Payload::Text(t) && is_initiation_failure_text(t@),
            Err(e) => r matches Payload::Text(t) && t@ == "Initiation error: "@ + str_debug_text("Error: "@ + e.plain_debug()),
        },
{
    match outcome {
        Ok(p) => p,
        Err(e) => {
            let line = error_debug_line(&e);
            let t = NoiseError::InitiationSendError(line).to_message();
            proof {
                if e is SnowError {
                    let d = choose|d: Seq<char>| line@ == #[trigger] snow_failure_debug(d);
                    assert(t@ == "Initiation error: "@ + str_debug_text(snow_failure_debug(d)));
                }
            }
            Payload::Text(t)
        },
    }
}

/// The payload of a transport step: the message, or, when `snow` refused, the
/// message of an `OtherError` that renders the refusal.
pub fn other_payload(outcome: Result<Payload, NoiseError>) -> (r: Payload)
    ensures
        match outcome {
            Ok(p) => r == p,
            Err(NoiseError::SnowError(_)) => r matches Payload::Text(t) && is_other_failure_text(t@),
            Err(e) => r matches Payload::Text(t) && t@ == "Other error: "@ + "Error: "@ + e.plain_debug(),
        },
{
    match outcome {
        Ok(p) => p,
        Err(e) => {
            let line = error_debug_line(&e);
            let t = NoiseError::OtherError(line).to_message();
            proof {
                if e is SnowError {
                    let d = choose|d: Seq<char>| line@ == #[trigger] snow_failure_debug(d);
                    assert(t@ == "Other error: "@ + snow_failure_debug(d));
                }
            }
            Payload::Text(t)
        },
    }
}


/// A machine in the server role never changes its stage and never delivers.
pub proof fn lemma_server_role_is_inert(s: NoiseHandshake, send_mode: bool)
    ensures
        next_stage(false, s, send_mode) == s,
        delivery_target(false, s, send_mode) is None,
{
}

/// The stage never moves backwards in the handshake.
pub proof fn lemma_stage_never_moves_back(role: bool, s: NoiseHandshake, send_mode: bool)
    ensures
        stage_rank(next_stage(role, s, send_mode)) >= stage_rank(s),
{
}

/// Once the handshake is complete it stays complete.
pub proof fn lemma_completion_is_final(role: bool, send_mode: bool)
    ensures
        next_stage(role, NoiseHandshake::HandshakeCompleted, send_mode) == NoiseHandshake::HandshakeCompleted,
{
}

/// A client that waits for a connection completes the handshake in two calls,
/// whatever the send modes and whatever `snow` answers.
pub proof fn lemma_handshake_completes_in_two_calls(first_mode: bool, second_mode: bool)
    ensures
        next_stage(true, next_stage(true, NoiseHandshake::WaitingForConnection, first_mode), second_mode)
            == NoiseHandshake::HandshakeCompleted,
{
}

/// Every call of a client in a stage it reaches delivers exactly one message;
/// during the handshake it goes to the network, after it the send mode picks
/// the direction: towards the server when sending, towards the application
/// when receiving.
pub proof fn lemma_client_delivery_direction(s: NoiseHandshake, send_mode: bool)
    requires
        s != NoiseHandshake::ReceivedPublicStaticKey,
        s != NoiseHandshake::SentStaticPublicKey,
    ensures
        s != NoiseHandshake::HandshakeCompleted ==> delivery_target(true, s, send_mode) == Some(Callback::Down),
        s == NoiseHandshake::HandshakeCompleted ==> delivery_target(true, s, send_mode) == Some(
            if send_mode { Callback::Down } else { Callback::Up },
        ),
{
}

/// The stages that a caller of `new_init` and `handle_connection` can observe.
pub open spec fn is_observable_stage(s: NoiseHandshake) -> bool {
    s == NoiseHandshake::WaitingForConnection || s == NoiseHandshake::SentEphemeralPublicKey
        || s == NoiseHandshake::HandshakeCompleted
}

/// The stage after a sequence of `handle_connection` calls with the given send
/// modes, starting from stage `s`.
pub open spec fn stage_after_calls(role: bool, s: NoiseHandshake, modes: Seq<bool>) -> NoiseHandshake
    decreases modes.len(),
{
    if modes.len() == 0 {
        s
    } else {
        stage_after_calls(role, next_stage(role, s, modes[0]), modes.drop_first())
    }
}

/// One call keeps the stage among the observable ones.
pub proof fn lemma_observable_stage_is_kept(role: bool, s: NoiseHandshake, send_mode: bool)
    requires
        is_observable_stage(s),
    ensures
        is_observable_stage(next_stage(role, s, send_mode)),
{
}

/// Any sequence of calls from an observable stage ends in an observable stage.
pub proof fn lemma_calls_keep_observable_stage(role: bool, s: NoiseHandshake, modes: Seq<bool>)
    requires
        is_observable_stage(s),
    ensures
        is_observable_stage(stage_after_calls(role, s, modes)),
    decreases modes.len(),
{
    if modes.len() > 0 {
        lemma_observable_stage_is_kept(role, s, modes[0]);
        lemma_calls_keep_observable_stage(role, next_stage(role, s, modes[0]), modes.drop_first());
    }
}

/// A machine made by `new_init` and driven by any sequence of
/// `handle_connection` calls is only ever waiting for a connection, past its
/// first handshake message, or done with the handshake: the stages
/// `ReceivedPublicStaticKey`, `ReceivedEphemeralPublicKey` and
/// `SentStaticPublicKey` are never observed.
pub proof fn lemma_only_three_stages_are_observed(role: bool, modes: Seq<bool>)
    ensures
        is_observable_stage(stage_after_calls(role, NoiseHandshake::WaitingForConnection, modes)),
        stage_after_calls(role, NoiseHandshake::WaitingForConnection, modes)
            != NoiseHandshake::ReceivedPublicStaticKey,
        stage_after_calls(role, NoiseHandshake::WaitingForConnection, modes)
            != NoiseHandshake::ReceivedEphemeralPublicKey,
        stage_after_calls(role, NoiseHandshake::WaitingForConnection, modes)
            != NoiseHandshake::SentStaticPublicKey,
{
    lemma_calls_keep_observable_stage(role, NoiseHandshake::WaitingForConnection, modes);
}

/// The stages that the client never enters are left alone, with nothing
/// delivered.
pub proof fn lemma_unreached_stages_are_inert(role: bool, send_mode: bool)
    ensures
        next_stage(role, NoiseHandshake::ReceivedPublicStaticKey, send_mode) == NoiseHandshake::ReceivedPublicStaticKey,
        next_stage(role, NoiseHandshake::SentStaticPublicKey, send_mode) == NoiseHandshake::SentStaticPublicKey,
        delivery_target(role, NoiseHandshake::ReceivedPublicStaticKey, send_mode) is None,
        delivery_target(role, NoiseHandshake::SentStaticPublicKey, send_mode) is None,
{
}

/// The `snow` session that the handshaker holds.
enum Session {
    /// The handshake is in progress.
    Handshake(snow::HandshakeState),
    /// The handshake is over and messages are encrypted.
    Transport(Channel),
    /// Turning the handshake into a transport session failed with this error.
    Broken(snow::Error),
    /// Only while one session is being replaced by the next.
    Gone,
}

/// Which session the handshaker holds.
#[derive(Clone, Copy, PartialEq, Eq, Structural, Debug)]
pub enum SessionKind {
    Handshake,
    Transport,
    Broken,
}

/// The `snow` session of the client and its message buffer.
pub struct Handshaker {
    session: Session,
    buf: Vec<u8>,
}

impl Handshaker {
    /// Well-formedness: the buffer has room for the longest Noise message, and
    /// a session is held.
    pub closed spec fn wf(&self) -> bool {
        &&& self.buf@.len() == MAX_MESSAGE_LEN
        &&& !(self.session is Gone)
    }

    /// The bytes of the message buffer.
    pub closed spec fn buffer(&self) -> Seq<u8> {
        self.buf@
    }

    /// The plaintexts that the transport session encrypted; none before it.
    pub closed spec fn sealed(&self) -> Seq<Seq<u8>> {
        match self.session {
            Session::Transport(ch) => ch.sealed(),
            _ => Seq::empty(),
        }
    }

    /// The plaintexts that the transport session decrypted; none before it.
    pub closed spec fn opened(&self) -> Seq<Seq<u8>> {
        match self.session {
            Session::Transport(ch) => ch.opened(),
            _ => Seq::empty(),
        }
    }

    /// Which session is held.
    pub closed spec fn kind(&self) -> SessionKind {
        match self.session {
            Session::Handshake(_) => SessionKind::Handshake,
            Session::Transport(_) => SessionKind::Transport,
            _ => SessionKind::Broken,
        }
    }

    /// Wraps a handshake state with a zeroed buffer of `MAX_MESSAGE_LEN` bytes.
    pub fn new(noise: snow::HandshakeState) -> (r: Handshaker)
        ensures
            r.wf(),
            r.kind() == SessionKind::Handshake,
            r.buffer() == Seq::new(MAX_MESSAGE_LEN as nat, |i: int| 0u8),
    {
        let buf: Vec<u8> = vec![0u8; MAX_MESSAGE_LEN];
        assert(buf@ =~= Seq::new(MAX_MESSAGE_LEN as nat, |i: int| 0u8));
        Handshaker { session: Session::Handshake(noise), buf }
    }

    /// Which session is held.
    pub fn session_kind(&self) -> (r: SessionKind)
        ensures
            r == self.kind(),
    {
        match self.session {
            Session::Handshake(_) => SessionKind::Handshake,
            Session::Transport(_) => SessionKind::Transport,
            _ => SessionKind::Broken,
        }
    }

    /// Writes the next handshake message with an empty payload.
    fn write_step(&mut self) -> (r: Result<Payload, NoiseError>)
        requires
            old(self).wf(),
            old(self).kind() == SessionKind::Handshake,
        ensures
            final(self).wf(),
            final(self).kind() == SessionKind::Handshake,
            is_written_outcome(r, final(self).buffer()),
    {
        let outcome = match &mut self.session {
            Session::Handshake(hs) => handshake_write(hs, &[], &mut self.buf),
            _ => {
                assert(false);
                return Ok(Payload::Bytes(Vec::new()));
            },
        };
        written_payload(&self.buf, outcome)
    }

    /// `-> e, es`: the first handshake message.
    pub fn initiator_start_handshake(&mut self) -> (r: Result<Payload, NoiseError>)
        requires
            old(self).wf(),
            old(self).kind() == SessionKind::Handshake,
        ensures
            final(self).wf(),
            final(self).kind() == SessionKind::Handshake,
            is_written_outcome(r, final(self).buffer()),
    {
        self.write_step()
    }

    /// `<- e, ee`: reads the responder's answer; gives back an empty text.
    /// A message longer than any Noise message is refused by `snow`.
    pub fn initiator_second_phase(&mut self, msg: Vec<u8>) -> (r: Result<Payload, NoiseError>)
        requires
            old(self).wf(),
            old(self).kind() == SessionKind::Handshake,
        ensures
            final(self).wf(),
            final(self).kind() == SessionKind::Handshake,
            msg@.len() > MAX_MESSAGE_LEN ==> r is Err,
            match r {
                Ok(Payload::Text(t)) => t@ == Seq::<char>::empty(),
                Ok(Payload::Bytes(_)) => false,
                Err(e) => e is SnowError,
            },
    {
        let outcome = match &mut self.session {
            Session::Handshake(hs) => handshake_read(hs, msg.as_slice(), &mut self.buf),
            _ => {
                assert(false);
                return Ok(Payload::Text(String::new()));
            },
        };
        match outcome {
            Ok(_) => Ok(Payload::Text(String::new())),
            Err(e) => Err(NoiseError::from(e)),
        }
    }

    /// `-> s, se, psk`: the last handshake message; then the handshake state
    /// becomes a transport session, or, when `snow` refuses that, the refusal
    /// is kept.
    pub fn initiator_third_phase(&mut self) -> (r: Result<Payload, NoiseError>)
        requires
            old(self).wf(),
            old(self).kind() == SessionKind::Handshake,
        ensures
            final(self).wf(),
            final(self).kind() != SessionKind::Handshake,
            is_written_outcome(r, final(self).buffer()),
    {
        let outcome = self.write_step();
        let mut session = Session::Gone;
        std::mem::swap(&mut session, &mut self.session);
        self.session = match session {
            Session::Handshake(hs) => match handshake_into_transport(hs) {
                Ok(ts) => Session::Transport(Channel::new(ts)),
                Err(e) => Session::Broken(e),
            },
            other => {
                assert(false);
                other
            },
        };
        outcome
    }

    /// Encrypts a message for the server.
    pub fn initiator_send_request(&mut self, payload: &[u8]) -> (r: Result<Payload, NoiseError>)
        requires
            old(self).wf(),
            old(self).kind() == SessionKind::Transport,
        ensures
            final(self).wf(),
            final(self).kind() == SessionKind::Transport,
            is_written_outcome(r, final(self).buffer()),
            r matches Ok(Payload::Bytes(b)) ==> b@.len() == payload@.len() + TAG_LEN,
            payload@.len() + TAG_LEN > MAX_MESSAGE_LEN ==> r is Err,
            final(self).opened() == old(self).opened(),
            r is Ok ==> final(self).sealed() == old(self).sealed().push(payload@),
            r is Err ==> final(self).sealed() == old(self).sealed(),
    {
        let outcome = match &mut self.session {
            Session::Transport(ch) => ch.seal(payload, &mut self.buf),
            _ => {
                assert(false);
                return Ok(Payload::Bytes(Vec::new()));
            },
        };
        written_payload(&self.buf, outcome)
    }

    /// Decrypts a message from the server and gives back its plaintext.
    pub fn initiator_handle_response(&mut self, msg: Vec<u8>) -> (r: Result<Payload, NoiseError>)
        requires
            old(self).wf(),
            old(self).kind() == SessionKind::Transport,
        ensures
            final(self).wf(),
            final(self).kind() == SessionKind::Transport,
            is_written_outcome(r, final(self).buffer()),
            r matches Ok(Payload::Bytes(b)) ==> b@.len() + TAG_LEN == msg@.len(),
            msg@.len() > MAX_MESSAGE_LEN ==> r is Err,
            final(self).sealed() == old(self).sealed(),
            r matches Ok(Payload::Bytes(b)) ==> final(self).opened() == old(self).opened().push(b@),
            r is Err ==> final(self).opened() == old(self).opened(),
    {
        let outcome = match &mut self.session {
            Session::Transport(ch) => ch.open(msg.as_slice(), &mut self.buf),
            _ => {
                assert(false);
                return Ok(Payload::Bytes(Vec::new()));
            },
        };
        written_payload(&self.buf, outcome)
    }

    /// The text delivered in place of a transport message when the handshake
    /// never became a transport session: the message of an `OtherError` that
    /// renders the kept refusal.
    pub fn broken_payload(&self) -> (r: Payload)
        requires
            self.wf(),
            self.kind() == SessionKind::Broken,
        ensures
            r matches Payload::Text(t) && is_other_failure_text(t@),
    {
        match &self.session {
            Session::Broken(e) => {
                let d = snow_error_debug(e);
                let mut line = String::from_str("Error: ");
                line.append("SnowError(");
                line.append(d.as_str());
                line.append(")");
                assert(line@ =~= snow_failure_debug(d@));
                let t = NoiseError::OtherError(line).to_message();
                assert(t@ == "Other error: "@ + snow_failure_debug(d@));
                Payload::Text(t)
            },
            _ => {
                assert(false);
                Payload::Text(String::new())
            },
        }
    }
}

/// The handshake client: its role, its stage and its `snow` handshake state.
pub struct NoiseStateMachine {
    role: bool,
    state: NoiseHandshake,
    handshaker: Handshaker,
    setup: Ghost<SetupRecord>,
}

/// The configuration of the client's session: the client's protocol, the
/// server's static key, a generated static key of the 25519 length, the
/// shared secret in slot 3, and the initiator's role in the handshake.
pub open spec fn is_client_setup(rec: SetupRecord, server_key: Seq<u8>) -> bool {
    &&& rec.name == CLIENT_NOISE_NAME@
    &&& rec.remote_key == Some(server_key)
    &&& rec.local_key matches Some(k) && k.len() == DH_KEY_LEN
    &&& rec.psk == Some((PSK_LOCATION, shared_secret()))
    &&& rec.initiator == Some(true)
}

/// The model of a `NoiseStateMachine`: its role (`true` for the client), its
/// stage, which `snow` session it holds, the bytes of its message buffer, and
/// what its session was configured with.
pub struct MachineView {
    pub role: bool,
    pub state: NoiseHandshake,
    pub session: SessionKind,
    pub buffer: Seq<u8>,
    pub setup: SetupRecord,
    pub sealed: Seq<Seq<u8>>,
    pub opened: Seq<Seq<u8>>,
}

impl View for NoiseStateMachine {
    type V = MachineView;

    closed spec fn view(&self) -> MachineView {
        MachineView {
            role: self.role,
            state: self.state,
            session: self.handshaker.kind(),
            buffer: self.handshaker.buffer(),
            setup: self.setup@,
            sealed: self.handshaker.sealed(),
            opened: self.handshaker.opened(),
        }
    }
}

impl NoiseStateMachine {
    /// Well-formedness: the handshaker's buffer has its full size, and the
    /// handshake state is held exactly until the handshake is complete.
    pub closed spec fn wf(&self) -> bool {
        &&& self.handshaker.wf()
        &&& (self.state == NoiseHandshake::HandshakeCompleted) == (self.handshaker.kind()
            != SessionKind::Handshake)
    }

    /// Builds a client for the `XKpsk3` handshake with the server's static
    /// public key, a freshly generated static key of its own and the shared
    /// secret in slot 3. It starts waiting for a connection. Any refusal of
    /// `snow` comes back as a `SnowError`.
    pub fn new_init(role: bool, server_static_key: Vec<u8>) -> (r: Result<NoiseStateMachine, NoiseError>)
        requires
            server_static_key@.len() <= MAX_DH_LEN,
        ensures
            match r {
                Ok(m) => {
                    &&& m.wf()
                    &&& m@.role == role
                    &&& m@.state == NoiseHandshake::WaitingForConnection
                    &&& m@.session == SessionKind::Handshake
                    &&& is_client_setup(m@.setup, server_static_key@)
                    &&& m@.buffer == Seq::new(MAX_MESSAGE_LEN as nat, |i: int| 0u8)
                },
                Err(e) => e is SnowError,
            },
    {
        let builder = match SessionBuilder::new(CLIENT_NOISE_NAME) {
            Ok(b) => b,
            Err(e) => return Err(NoiseError::from(e)),
        };
        let builder = match builder.remote_public_key(server_static_key.as_slice()) {
            Ok(b) => b,
            Err(e) => return Err(NoiseError::from(e)),
        };
        let (static_key, _public_key) = match builder.generate_keypair() {
            Ok(k) => k,
            Err(e) => return Err(NoiseError::from(e)),
        };
        let secret = shared_secret_bytes();
        let builder = match builder.local_private_key(static_key.as_slice()) {
            Ok(b) => b,
            Err(e) => return Err(NoiseError::from(e)),
        };
        let builder = match builder.psk(PSK_LOCATION, &secret) {
            Ok(b) => b,
            Err(e) => return Err(NoiseError::from(e)),
        };
        let (noise, setup) = match builder.build(true) {
            Ok(built) => built,
            Err(e) => return Err(NoiseError::from(e)),
        };
        Ok(NoiseStateMachine {
            role,
            state: NoiseHandshake::WaitingForConnection,
            handshaker: Handshaker::new(noise),
            setup,
        })
    }

    /// `-> s, se, psk` and the handshake is complete.
    fn finish_handshake(&mut self) -> (r: Option<Delivery>)
        requires
            old(self).handshaker.wf(),
            old(self).handshaker.kind() == SessionKind::Handshake,
        ensures
            final(self).wf(),
            final(self)@.session != SessionKind::Handshake,
            final(self)@.role == old(self)@.role,
            final(self)@.setup == old(self)@.setup,
            final(self)@.state == NoiseHandshake::HandshakeCompleted,
            r matches Some(d) && d.target == Callback::Down && match d.payload {
                Payload::Bytes(b) => is_buffer_prefix(b@, final(self)@.buffer),
                Payload::Text(t) => is_initiation_failure_text(t@),
            },
    {
        let outcome = self.handshaker.initiator_third_phase();
        let payload = initiation_payload(outcome);
        self.state = NoiseHandshake::HandshakeCompleted;
        Some(Delivery { target: Callback::Down, payload })
    }

    /// Advances the handshake by one event and gives back what to hand to a
    /// callback. `msg` is what arrived from the server, if anything; after the
    /// handshake, in send mode, it is the message to send to the server.
    /// `send_mode` is true when, after the handshake, a message is to go to
    /// the server, false when one arrived from it. The server role does
    /// nothing.
    pub fn handle_connection(&mut self, msg: Option<Vec<u8>>, send_mode: bool) -> (r: Option<Delivery>)
        requires
            old(self).wf(),
        ensures
            final(self).wf(),
            final(self)@.role == old(self)@.role,
            final(self)@.setup == old(self)@.setup,
            final(self)@.state == next_stage(old(self)@.role, old(self)@.state, send_mode),
            session_after(old(self)@.role, old(self)@.state, old(self)@.session, final(self)@.session),
            delivery_matches(
                r,
                old(self)@.role,
                old(self)@.state,
                send_mode,
                msg.deep_view(),
                old(self)@.session,
                final(self)@.buffer,
            ),
            old(self)@.role && old(self)@.state == NoiseHandshake::HandshakeCompleted && send_mode
                && outgoing_bytes(msg.deep_view()).len() + TAG_LEN > MAX_MESSAGE_LEN ==> (r matches Some(
                d,
            ) && d.payload is Text),
            !old(self)@.role ==> final(self)@ == old(self)@,
            old(self)@.role && old(self)@.state == NoiseHandshake::HandshakeCompleted ==> match r {
                Some(d) => match d.payload {
                    Payload::Bytes(b) => if send_mode {
                        &&& final(self)@.sealed == old(self)@.sealed.push(outgoing_bytes(msg.deep_view()))
                        &&& final(self)@.opened == old(self)@.opened
                    } else {
                        &&& final(self)@.opened == old(self)@.opened.push(b@)
                        &&& final(self)@.sealed == old(self)@.sealed
                    },
                    Payload::Text(_) => true,
                },
                None => true,
            },
    {
        if self.role {
            match self.state {
                NoiseHandshake::WaitingForConnection => {
                    let outcome = self.handshaker.initiator_start_handshake();
                    let payload = initiation_payload(outcome);
                    self.state = NoiseHandshake::SentEphemeralPublicKey;
                    Some(Delivery { target: Callback::Down, payload })
                },
                NoiseHandshake::SentEphemeralPublicKey => {
                    let bytes = message_or_missing(msg, "No message received");
                    let _ignored = self.handshaker.initiator_second_phase(bytes);
                    self.state = NoiseHandshake::ReceivedEphemeralPublicKey;
                    self.finish_handshake()
                },
                NoiseHandshake::ReceivedEphemeralPublicKey => self.finish_handshake(),
                NoiseHandshake::HandshakeCompleted => {
                    let in_transport = self.handshaker.session_kind() == SessionKind::Transport;
                    if send_mode {
                        let ghost sent = msg.deep_view();
                        let payload = if in_transport {
                            let plaintext = match msg {
                                Some(m) => m,
                                None => Vec::new(),
                            };
                            assert(plaintext@ =~= outgoing_bytes(sent));
                            let outcome = self.handshaker.initiator_send_request(plaintext.as_slice());
                            other_payload(outcome)
                        } else {
                            self.handshaker.broken_payload()
                        };
                        Some(Delivery { target: Callback::Down, payload })
                    } else {
                        let bytes = message_or_missing(msg, "No message received$");
                        let payload = if in_transport {
                            let outcome = self.handshaker.initiator_handle_response(bytes);
                            other_payload(outcome)
                        } else {
                            self.handshaker.broken_payload()
                        };
                        Some(Delivery { target: Callback::Up, payload })
                    }
                },
                _ => None,
            }
        } else {
            None
        }
    }

    /// The name of the current stage.
    #[allow(non_snake_case)]
    pub fn getHandshakestate(&self) -> (r: String)
        ensures
            r@ == stage_name(self@.state),
    {
        match self.state {
            NoiseHandshake::WaitingForConnection => String::from_str("WaitingForConnection"),
            NoiseHandshake::ReceivedPublicStaticKey => String::from_str("ReceivedPublicStaticKey"),
            NoiseHandshake::SentEphemeralPublicKey => String::from_str("SentEphemeralPublicKey"),
            NoiseHandshake::ReceivedEphemeralPublicKey => String::from_str("ReceivedEphemeralPublicKey"),
            NoiseHandshake::SentStaticPublicKey => String::from_str("SentStaticPublicKey"),
            NoiseHandshake::HandshakeCompleted => String::from_str("HandshakeCompleted"),
        }
    }

    /// Whether this machine plays the client.
    pub fn role(&self) -> (r: bool)
        ensures
            r == self@.role,
    {
        self.role
    }

    /// The current stage.
    pub fn state(&self) -> (r: NoiseHandshake)
        ensures
            r == self@.state,
    {
        self.state
    }
}

} // verus!
