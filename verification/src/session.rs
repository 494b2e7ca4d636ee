//! The two ends of the Noise `XXpsk3` relay: a server that answers the
//! handshake and forwards decrypted requests, and a client that starts the
//! handshake and sends requests until told to exit. Each end is a state
//! machine that is fed the events of its WebSocket stream and answers with the
//! action to take.

use vstd::prelude::*;
use vstd::slice::{slice_subrange, slice_to_vec};
use crate::machine::{PSK_LOCATION, is_buffer_prefix, shared_secret, shared_secret_bytes};
use crate::setup::{SessionBuilder, SetupRecord};
use crate::rpc::{create_json, json_reply};
use crate::snow_api::{
    DH_KEY_LEN, MAX_MESSAGE_LEN, TAG_LEN, handshake_into_transport, handshake_read,
    handshake_write, noise_name_parses,
};
use crate::json::{json_parses, json_string_member, reply_result};
use crate::channel::Channel;
use crate::text::{decode_lossy, utf8_lossy_text};

verus! {

/// The Noise protocol of the relay.
pub const RELAY_NOISE_NAME: &'static str = "Noise_XXpsk3_25519_ChaChaPoly_BLAKE2s";

/// The configuration of one end of the relay: the relay's protocol, no
/// remote key, a generated static key of the 25519 length, the shared secret
/// in slot 3, and the given role in the handshake.
pub open spec fn is_relay_setup(rec: SetupRecord, initiator: bool) -> bool {
    &&& rec.name == RELAY_NOISE_NAME@
    &&& rec.remote_key is None
    &&& rec.local_key matches Some(k) && k.len() == DH_KEY_LEN
    &&& rec.psk == Some((PSK_LOCATION, shared_secret()))
    &&& rec.initiator == Some(initiator)
}

/// Builds one party of the relay handshake: a fresh static key of its own
/// and the shared secret in slot 3. It fails when `snow` does not accept the
/// relay's protocol name.
fn build_relay_party(initiator: bool) -> (r: Result<(snow::HandshakeState, Ghost<SetupRecord>), snow::Error>)
    ensures
        !noise_name_parses(RELAY_NOISE_NAME@) ==> r is Err,
        r matches Ok((_, rec)) ==> is_relay_setup(rec@, initiator),
{
    let builder = match SessionBuilder::new(RELAY_NOISE_NAME) {
        Ok(b) => b,
        Err(e) => return Err(e),
    };
    let (static_key, _public_key) = match builder.generate_keypair() {
        Ok(k) => k,
        Err(e) => return Err(e),
    };
    let secret = shared_secret_bytes();
    let builder = match builder.local_private_key(static_key.as_slice()) {
        Ok(b) => b,
        Err(e) => return Err(e),
    };
    let builder = match builder.psk(PSK_LOCATION, &secret) {
        Ok(b) => b,
        Err(e) => return Err(e),
    };
    builder.build(initiator)
}

/// The `snow` session of one end: in the handshake, in transport, or gone.
enum Link {
    Handshake(snow::HandshakeState),
    Transport(Channel),
    Gone,
}

/// The plaintexts that a link's channel encrypted; none before the transport.
spec fn link_sealed(link: Link) -> Seq<Seq<u8>> {
    match link {
        Link::Transport(ch) => ch.sealed(),
        _ => Seq::empty(),
    }
}

/// The plaintexts that a link's channel decrypted; none before the transport.
spec fn link_opened(link: Link) -> Seq<Seq<u8>> {
    match link {
        Link::Transport(ch) => ch.opened(),
        _ => Seq::empty(),
    }
}

/// What the WebSocket stream produced.
#[derive(Debug)]
pub enum StreamEvent {
    /// A message arrived.
    Message(Vec<u8>),
    /// The stream reported an error.
    Error,
    /// The stream ended.
    End,
}

/// Why an end of the relay gives up.
#[derive(Debug)]
pub enum RelayFailure {
    /// `snow` refused an operation.
    Snow(snow::Error),
    /// The stream reported an error during the handshake.
    StreamError,
    /// The stream ended during the handshake.
    HandshakeInterrupted,
    /// The server's reply is not JSON.
    Json(serde_json::Error),
}

/// `new` is `old` with one more record at its end.
pub open spec fn one_more(old: Seq<Seq<u8>>, new: Seq<Seq<u8>>) -> bool {
    new.len() > 0 && new == old.push(new.last())
}

/// Decrypts a transport message into `buf` and decodes its plaintext: the
/// text is the decoding of exactly what the channel decrypted.
fn open_message(ch: &mut Channel, buf: &mut Vec<u8>, msg: &[u8]) -> (r: Result<String, snow::Error>)
    requires
        old(buf)@.len() == MAX_MESSAGE_LEN,
    ensures
        final(buf)@.len() == MAX_MESSAGE_LEN,
        msg@.len() > MAX_MESSAGE_LEN ==> r is Err,
        final(ch).sealed() == old(ch).sealed(),
        r matches Ok(t) ==> msg@.len() >= TAG_LEN && t@ == utf8_lossy_text(
            final(buf)@.subrange(0, msg@.len() - TAG_LEN),
        ),
        r matches Ok(t) ==> one_more(old(ch).opened(), final(ch).opened()) && t@ == utf8_lossy_text(
            final(ch).opened().last(),
        ),
        r is Err ==> final(ch).opened() == old(ch).opened(),
{
    match ch.open(msg, buf) {
        Ok(n) => Ok(decode_lossy(slice_subrange(buf.as_slice(), 0, n))),
        Err(e) => Err(e),
    }
}

/// Encrypts `plaintext` into `buf` and copies the message out: on success the
/// channel encrypted exactly `plaintext`.
fn seal_message(ch: &mut Channel, buf: &mut Vec<u8>, plaintext: &[u8]) -> (r: Result<Vec<u8>, snow::Error>)
    requires
        old(buf)@.len() == MAX_MESSAGE_LEN,
    ensures
        final(buf)@.len() == MAX_MESSAGE_LEN,
        plaintext@.len() + TAG_LEN > MAX_MESSAGE_LEN ==> r is Err,
        r matches Ok(v) ==> v@.len() == plaintext@.len() + TAG_LEN && is_buffer_prefix(v@, final(buf)@),
        final(ch).opened() == old(ch).opened(),
        r is Ok ==> final(ch).sealed() == old(ch).sealed().push(plaintext@),
        r is Err ==> final(ch).sealed() == old(ch).sealed(),
{
    match ch.seal(plaintext, buf) {
        Ok(n) => Ok(slice_to_vec(slice_subrange(buf.as_slice(), 0, n))),
        Err(e) => Err(e),
    }
}

/// Writes the next handshake message with an empty payload and copies it out.
fn write_handshake_message(hs: &mut snow::HandshakeState, buf: &mut Vec<u8>) -> (r: Result<Vec<u8>, snow::Error>)
    requires
        old(buf)@.len() == MAX_MESSAGE_LEN,
    ensures
        final(buf)@.len() == MAX_MESSAGE_LEN,
        r matches Ok(v) ==> is_buffer_prefix(v@, final(buf)@),
{
    match handshake_write(hs, &[], buf) {
        Ok(n) => Ok(slice_to_vec(slice_subrange(buf.as_slice(), 0, n))),
        Err(e) => Err(e),
    }
}


/// The stages of the relay server.
#[derive(Clone, Copy, PartialEq, Eq, Structural, Debug)]
pub enum ServerPhase {
    /// Waiting for `-> e`.
    AwaitingEphemeral,
    /// `<- e, ee, s, es` was sent; waiting for `-> s, se`.
    AwaitingStatic,
    /// The session is established; waiting for a request.
    Established,
    /// A request was forwarded; waiting for its answer.
    Relaying,
    /// The connection is over.
    Closed,
}

/// What the relay server asks its caller to do.
#[derive(Debug)]
pub enum ServerAction {
    /// Send these bytes to the client.
    Send(Vec<u8>),
    /// The handshake is complete; keep reading.
    Established,
    /// Forward this decrypted request to the local JSON-RPC server and hand
    /// its answer to `on_answer`.
    Forward(String),
    /// Give up with this failure.
    Fail(RelayFailure),
    /// Close the connection normally.
    Close,
}

/// How a server step relates its phase before, the event, its action, its
/// phase after and its buffer after.
pub open spec fn server_step(p: ServerPhase, ev: StreamEvent, r: ServerAction, q: ServerPhase, buf: Seq<u8>) -> bool {
    match p {
        ServerPhase::AwaitingEphemeral => match ev {
            StreamEvent::Message(_) => match r {
                ServerAction::Send(v) => q == ServerPhase::AwaitingStatic && is_buffer_prefix(v@, buf),
                ServerAction::Fail(RelayFailure::Snow(_)) => q == ServerPhase::Closed,
                _ => false,
            },
            StreamEvent::Error => r matches ServerAction::Fail(RelayFailure::StreamError) && q == ServerPhase::Closed,
            StreamEvent::End => r matches ServerAction::Fail(RelayFailure::HandshakeInterrupted) && q == ServerPhase::Closed,
        },
        ServerPhase::AwaitingStatic => match ev {
            StreamEvent::Message(_) => match r {
                ServerAction::Established => q == ServerPhase::Established,
                ServerAction::Fail(RelayFailure::Snow(_)) => q == ServerPhase::Closed,
                _ => false,
            },
            StreamEvent::Error => r matches ServerAction::Fail(RelayFailure::StreamError) && q == ServerPhase::Closed,
            StreamEvent::End => r matches ServerAction::Fail(RelayFailure::HandshakeInterrupted) && q == ServerPhase::Closed,
        },
        ServerPhase::Established => match ev {
            StreamEvent::Message(m) => match r {
                ServerAction::Forward(t) => {
                    &&& q == ServerPhase::Relaying
                    &&& m@.len() >= TAG_LEN
                    &&& t@ == utf8_lossy_text(buf.subrange(0, m@.len() - TAG_LEN))
                },
                ServerAction::Fail(RelayFailure::Snow(_)) => q == ServerPhase::Closed,
                _ => false,
            },
            _ => r is Close && q == ServerPhase::Closed,
        },
        ServerPhase::Relaying => false,
        ServerPhase::Closed => r is Close && q == ServerPhase::Closed,
    }
}

/// Once the server has closed, it stays closed.
pub proof fn lemma_server_closed_is_final(ev: StreamEvent, r: ServerAction, q: ServerPhase, buf: Seq<u8>)
    requires
        server_step(ServerPhase::Closed, ev, r, q, buf),
    ensures
        q == ServerPhase::Closed,
{
}

/// An established server session never goes back to the handshake.
pub proof fn lemma_server_stays_out_of_handshake(ev: StreamEvent, r: ServerAction, q: ServerPhase, buf: Seq<u8>)
    requires
        server_step(ServerPhase::Established, ev, r, q, buf),
    ensures
        q == ServerPhase::Relaying || q == ServerPhase::Closed,
{
}

/// While the handshake is in progress, an error or the end of the stream is a
/// failure; afterwards it closes the connection normally.
pub proof fn lemma_server_stream_trouble(p: ServerPhase, ev: StreamEvent, r: ServerAction, q: ServerPhase, buf: Seq<u8>)
    requires
        server_step(p, ev, r, q, buf),
        !(ev is Message),
    ensures
        q == ServerPhase::Closed,
        (p == ServerPhase::AwaitingEphemeral || p == ServerPhase::AwaitingStatic) ==> r is Fail,
        (p == ServerPhase::Established || p == ServerPhase::Closed) ==> r is Close,
{
}

/// The server end of the relay.
pub struct RelayServer {
    phase: ServerPhase,
    link: Link,
    buf: Vec<u8>,
    setup: Ghost<SetupRecord>,
}

/// The model of a `RelayServer`: its phase and the bytes of its buffer.
pub struct RelayServerView {
    pub phase: ServerPhase,
    pub buffer: Seq<u8>,
    pub setup: SetupRecord,
    pub sealed: Seq<Seq<u8>>,
    pub opened: Seq<Seq<u8>>,
}

impl View for RelayServer {
    type V = RelayServerView;

    closed spec fn view(&self) -> RelayServerView {
        RelayServerView {
            phase: self.phase,
            buffer: self.buf@,
            setup: self.setup@,
            sealed: link_sealed(self.link),
            opened: link_opened(self.link),
        }
    }
}

impl RelayServer {
    /// Well-formedness: the buffer has room for the longest Noise message, and
    /// the session is in the handshake before the session is established and
    /// in transport after.
    pub closed spec fn wf(&self) -> bool {
        &&& self.buf@.len() == MAX_MESSAGE_LEN
        &&& match self.phase {
            ServerPhase::AwaitingEphemeral | ServerPhase::AwaitingStatic => self.link is Handshake,
            ServerPhase::Established | ServerPhase::Relaying => self.link is Transport,
            ServerPhase::Closed => true,
        }
    }

    /// A server that waits for the client's first handshake message, with a
    /// fresh static key and the shared secret.
    pub fn new() -> (r: Result<RelayServer, snow::Error>)
        ensures
            r matches Ok(s) ==> s.wf() && s@.phase == ServerPhase::AwaitingEphemeral && is_relay_setup(s@.setup, false),
    {
        let (hs, setup) = match build_relay_party(false) {
            Ok(built) => built,
            Err(e) => return Err(e),
        };
        let buf: Vec<u8> = vec![0u8; MAX_MESSAGE_LEN];
        Ok(RelayServer { phase: ServerPhase::AwaitingEphemeral, link: Link::Handshake(hs), buf, setup })
    }

    /// Closes the connection and gives up with a failure.
    fn fail(&mut self, failure: RelayFailure) -> (r: ServerAction)
        requires
            old(self).buf@.len() == MAX_MESSAGE_LEN,
        ensures
            final(self).wf(),
            final(self)@ == (RelayServerView { phase: ServerPhase::Closed, ..old(self)@ }),
            r == ServerAction::Fail(failure),
    {
        self.phase = ServerPhase::Closed;
        ServerAction::Fail(failure)
    }

    /// Takes the next event of the stream and decides what to do.
    pub fn on_stream_event(&mut self, event: StreamEvent) -> (r: ServerAction)
        requires
            old(self).wf(),
            old(self)@.phase != ServerPhase::Relaying,
        ensures
            final(self).wf(),
            final(self)@.setup == old(self)@.setup,
            server_step(old(self)@.phase, event, r, final(self)@.phase, final(self)@.buffer),
            r matches ServerAction::Forward(t) ==> {
                &&& one_more(old(self)@.opened, final(self)@.opened)
                &&& t@ == utf8_lossy_text(final(self)@.opened.last())
                &&& final(self)@.sealed == old(self)@.sealed
            },
    {
        match self.phase {
            ServerPhase::AwaitingEphemeral | ServerPhase::AwaitingStatic => {
                let msg = match event {
                    StreamEvent::Message(m) => m,
                    StreamEvent::Error => return self.fail(RelayFailure::StreamError),
                    StreamEvent::End => return self.fail(RelayFailure::HandshakeInterrupted),
                };
                let mut link = Link::Gone;
                std::mem::swap(&mut link, &mut self.link);
                let mut hs = match link {
                    Link::Handshake(hs) => hs,
                    _ => {
                        assert(false);
                        return self.fail(RelayFailure::HandshakeInterrupted);
                    },
                };
                match handshake_read(&mut hs, msg.as_slice(), &mut self.buf) {
                    Ok(_) => {},
                    Err(e) => return self.fail(RelayFailure::Snow(e)),
                }
                if self.phase == ServerPhase::AwaitingEphemeral {
                    match write_handshake_message(&mut hs, &mut self.buf) {
                        Ok(v) => {
                            self.link = Link::Handshake(hs);
                            self.phase = ServerPhase::AwaitingStatic;
                            ServerAction::Send(v)
                        },
                        Err(e) => self.fail(RelayFailure::Snow(e)),
                    }
                } else {
                    match handshake_into_transport(hs) {
                        Ok(ts) => {
                            self.link = Link::Transport(Channel::new(ts));
                            self.phase = ServerPhase::Established;
                            ServerAction::Established
                        },
                        Err(e) => self.fail(RelayFailure::Snow(e)),
                    }
                }
            },
            ServerPhase::Established => {
                let msg = match event {
                    StreamEvent::Message(m) => m,
                    _ => {
                        self.phase = ServerPhase::Closed;
                        return ServerAction::Close;
                    },
                };
                let mut link = Link::Gone;
                std::mem::swap(&mut link, &mut self.link);
                let mut ch = match link {
                    Link::Transport(ch) => ch,
                    _ => {
                        assert(false);
                        return self.fail(RelayFailure::HandshakeInterrupted);
                    },
                };
                match open_message(&mut ch, &mut self.buf, msg.as_slice()) {
                    Ok(text) => {
                        self.link = Link::Transport(ch);
                        self.phase = ServerPhase::Relaying;
                        ServerAction::Forward(text)
                    },
                    Err(e) => self.fail(RelayFailure::Snow(e)),
                }
            },
            _ => {
                self.phase = ServerPhase::Closed;
                ServerAction::Close
            },
        }
    }

    /// Takes the local server's answer to the forwarded request, wraps it in a
    /// JSON-RPC reply under the request's id, and encrypts the reply.
    pub fn on_answer(&mut self, response: String, msg_id: &str) -> (r: ServerAction)
        requires
            old(self).wf(),
            old(self)@.phase == ServerPhase::Relaying,
        ensures
            final(self).wf(),
            final(self)@.setup == old(self)@.setup,
            match r {
                ServerAction::Send(v) => {
                    &&& final(self)@.phase == ServerPhase::Established
                    &&& is_buffer_prefix(v@, final(self)@.buffer)
                    &&& v@.len() == vstd::utf8::encode_utf8(json_reply(response@, msg_id@)).len() + TAG_LEN
                    &&& final(self)@.sealed == old(self)@.sealed.push(
                        vstd::utf8::encode_utf8(json_reply(response@, msg_id@)),
                    )
                    &&& final(self)@.opened == old(self)@.opened
                },
                ServerAction::Fail(RelayFailure::Snow(_)) => final(self)@.phase == ServerPhase::Closed,
                _ => false,
            },
            vstd::utf8::encode_utf8(json_reply(response@, msg_id@)).len() + TAG_LEN > MAX_MESSAGE_LEN
                ==> r is Fail,
    {
        let reply = create_json(response, msg_id);
        let mut link = Link::Gone;
        std::mem::swap(&mut link, &mut self.link);
        let mut ch = match link {
            Link::Transport(ch) => ch,
            _ => {
                assert(false);
                return self.fail(RelayFailure::HandshakeInterrupted);
            },
        };
        match seal_message(&mut ch, &mut self.buf, reply.as_str().as_bytes()) {
            Ok(v) => {
                self.link = Link::Transport(ch);
                self.phase = ServerPhase::Established;
                ServerAction::Send(v)
            },
            Err(e) => self.fail(RelayFailure::Snow(e)),
        }
    }

    /// The current phase.
    pub fn phase(&self) -> (r: ServerPhase)
        ensures
            r == self@.phase,
    {
        self.phase
    }
}


/// The stages of the relay client.
#[derive(Clone, Copy, PartialEq, Eq, Structural, Debug)]
pub enum ClientPhase {
    /// Nothing was sent yet.
    Start,
    /// `-> e` was sent; waiting for `<- e, ee, s, es`.
    AwaitingResponderKeys,
    /// `-> s, se` was handed out; the session is to be established.
    Finishing,
    /// The session is established; waiting for a request to send.
    AwaitingPayload,
    /// A request was sent; waiting for the reply.
    AwaitingReply,
    /// A reply was shown; waiting for its `result` member.
    Judging,
    /// The connection is over.
    Closed,
}

/// What the relay client asks its caller to do.
#[derive(Debug)]
pub enum ClientAction {
    /// Send these bytes to the server.
    Send(Vec<u8>),
    /// Send these bytes, the last handshake message, to the server, then call
    /// `finish`.
    SendThenFinish(Vec<u8>),
    /// The session is established; read a request and hand it to `on_payload`.
    Established,
    /// Read the next request and hand it to `on_payload`.
    AskPayload,
    /// Show this decrypted reply, and hand it to `on_reply`.
    ShowReply(String),
    /// Give up with this failure.
    Fail(RelayFailure),
    /// Close the connection normally.
    Close,
}

/// How a client step on a stream event relates its phase before, the event,
/// its action, its phase after and its buffer after.
pub open spec fn client_stream_step(p: ClientPhase, ev: StreamEvent, r: ClientAction, q: ClientPhase, buf: Seq<u8>) -> bool {
    match p {
        ClientPhase::AwaitingResponderKeys => match ev {
            StreamEvent::Message(_) => match r {
                ClientAction::SendThenFinish(v) => q == ClientPhase::Finishing && is_buffer_prefix(v@, buf),
                ClientAction::Fail(RelayFailure::Snow(_)) => q == ClientPhase::Closed,
                _ => false,
            },
            StreamEvent::Error => r matches ClientAction::Fail(RelayFailure::StreamError) && q == ClientPhase::Closed,
            StreamEvent::End => r matches ClientAction::Fail(RelayFailure::HandshakeInterrupted) && q == ClientPhase::Closed,
        },
        ClientPhase::AwaitingReply => match ev {
            StreamEvent::Message(m) => match r {
                ClientAction::ShowReply(t) => {
                    &&& q == ClientPhase::Judging
                    &&& m@.len() >= TAG_LEN
                    &&& t@ == utf8_lossy_text(buf.subrange(0, m@.len() - TAG_LEN))
                },
                ClientAction::Fail(RelayFailure::Snow(_)) => q == ClientPhase::Closed,
                _ => false,
            },
            _ => r is Close && q == ClientPhase::Closed,
        },
        ClientPhase::Closed => r is Close && q == ClientPhase::Closed,
        _ => false,
    }
}

/// Once the client has closed, it stays closed.
pub proof fn lemma_client_closed_is_final(ev: StreamEvent, r: ClientAction, q: ClientPhase, buf: Seq<u8>)
    requires
        client_stream_step(ClientPhase::Closed, ev, r, q, buf),
    ensures
        q == ClientPhase::Closed,
{
}

/// While the handshake is in progress, an error or the end of the stream is a
/// failure; while a reply is awaited it closes the connection normally.
pub proof fn lemma_client_stream_trouble(p: ClientPhase, ev: StreamEvent, r: ClientAction, q: ClientPhase, buf: Seq<u8>)
    requires
        client_stream_step(p, ev, r, q, buf),
        !(ev is Message),
    ensures
        q == ClientPhase::Closed,
        p == ClientPhase::AwaitingResponderKeys ==> r is Fail,
        p != ClientPhase::AwaitingResponderKeys ==> r is Close,
{
}

/// The client end of the relay.
pub struct RelayClient {
    phase: ClientPhase,
    link: Link,
    buf: Vec<u8>,
    setup: Ghost<SetupRecord>,
}

/// The model of a `RelayClient`: its phase and the bytes of its buffer.
pub struct RelayClientView {
    pub phase: ClientPhase,
    pub buffer: Seq<u8>,
    pub setup: SetupRecord,
    pub sealed: Seq<Seq<u8>>,
    pub opened: Seq<Seq<u8>>,
}

impl View for RelayClient {
    type V = RelayClientView;

    closed spec fn view(&self) -> RelayClientView {
        RelayClientView {
            phase: self.phase,
            buffer: self.buf@,
            setup: self.setup@,
            sealed: link_sealed(self.link),
            opened: link_opened(self.link),
        }
    }
}

impl RelayClient {
    /// Well-formedness: the buffer has room for the longest Noise message, and
    /// the session is in the handshake until it is established and in
    /// transport after.
    pub closed spec fn wf(&self) -> bool {
        &&& self.buf@.len() == MAX_MESSAGE_LEN
        &&& match self.phase {
            ClientPhase::Start | ClientPhase::AwaitingResponderKeys | ClientPhase::Finishing => self.link is Handshake,
            ClientPhase::AwaitingPayload | ClientPhase::AwaitingReply | ClientPhase::Judging => self.link is Transport,
            ClientPhase::Closed => true,
        }
    }

    /// A client about to start the handshake, with a fresh static key and the
    /// shared secret.
    pub fn new() -> (r: Result<RelayClient, snow::Error>)
        ensures
            r matches Ok(c) ==> c.wf() && c@.phase == ClientPhase::Start && is_relay_setup(c@.setup, true),
    {
        let (hs, setup) = match build_relay_party(true) {
            Ok(built) => built,
            Err(e) => return Err(e),
        };
        let buf: Vec<u8> = vec![0u8; MAX_MESSAGE_LEN];
        Ok(RelayClient { phase: ClientPhase::Start, link: Link::Handshake(hs), buf, setup })
    }

    /// Closes the connection and gives up with a failure.
    fn fail(&mut self, failure: RelayFailure) -> (r: ClientAction)
        requires
            old(self).buf@.len() == MAX_MESSAGE_LEN,
        ensures
            final(self).wf(),
            final(self)@ == (RelayClientView { phase: ClientPhase::Closed, ..old(self)@ }),
            r == ClientAction::Fail(failure),
    {
        self.phase = ClientPhase::Closed;
        ClientAction::Fail(failure)
    }

    /// `-> e`: the first handshake message.
    pub fn start(&mut self) -> (r: ClientAction)
        requires
            old(self).wf(),
            old(self)@.phase == ClientPhase::Start,
        ensures
            final(self).wf(),
            final(self)@.setup == old(self)@.setup,
            match r {
                ClientAction::Send(v) => final(self)@.phase == ClientPhase::AwaitingResponderKeys
                    && is_buffer_prefix(v@, final(self)@.buffer),
                ClientAction::Fail(RelayFailure::Snow(_)) => final(self)@.phase == ClientPhase::Closed,
                _ => false,
            },
    {
        let mut link = Link::Gone;
        std::mem::swap(&mut link, &mut self.link);
        let mut hs = match link {
            Link::Handshake(hs) => hs,
            _ => {
                assert(false);
                return self.fail(RelayFailure::HandshakeInterrupted);
            },
        };
        match write_handshake_message(&mut hs, &mut self.buf) {
            Ok(v) => {
                self.link = Link::Handshake(hs);
                self.phase = ClientPhase::AwaitingResponderKeys;
                ClientAction::Send(v)
            },
            Err(e) => self.fail(RelayFailure::Snow(e)),
        }
    }

    /// Takes the next event of the stream and decides what to do.
    pub fn on_stream_event(&mut self, event: StreamEvent) -> (r: ClientAction)
        requires
            old(self).wf(),
            old(self)@.phase == ClientPhase::AwaitingResponderKeys || old(self)@.phase
                == ClientPhase::AwaitingReply || old(self)@.phase == ClientPhase::Closed,
        ensures
            final(self).wf(),
            final(self)@.setup == old(self)@.setup,
            client_stream_step(old(self)@.phase, event, r, final(self)@.phase, final(self)@.buffer),
            r matches ClientAction::ShowReply(t) ==> {
                &&& one_more(old(self)@.opened, final(self)@.opened)
                &&& t@ == utf8_lossy_text(final(self)@.opened.last())
                &&& final(self)@.sealed == old(self)@.sealed
            },
    {
        match self.phase {
            ClientPhase::AwaitingResponderKeys => {
                let msg = match event {
                    StreamEvent::Message(m) => m,
                    StreamEvent::Error => return self.fail(RelayFailure::StreamError),
                    StreamEvent::End => return self.fail(RelayFailure::HandshakeInterrupted),
                };
                let mut link = Link::Gone;
                std::mem::swap(&mut link, &mut self.link);
                let mut hs = match link {
                    Link::Handshake(hs) => hs,
                    _ => {
                        assert(false);
                        return self.fail(RelayFailure::HandshakeInterrupted);
                    },
                };
                match handshake_read(&mut hs, msg.as_slice(), &mut self.buf) {
                    Ok(_) => {},
                    Err(e) => return self.fail(RelayFailure::Snow(e)),
                }
                match write_handshake_message(&mut hs, &mut self.buf) {
                    Ok(v) => {
                        self.link = Link::Handshake(hs);
                        self.phase = ClientPhase::Finishing;
                        ClientAction::SendThenFinish(v)
                    },
                    Err(e) => self.fail(RelayFailure::Snow(e)),
                }
            },
            ClientPhase::AwaitingReply => {
                let msg = match event {
                    StreamEvent::Message(m) => m,
                    _ => {
                        self.phase = ClientPhase::Closed;
                        return ClientAction::Close;
                    },
                };
                let mut link = Link::Gone;
                std::mem::swap(&mut link, &mut self.link);
                let mut ch = match link {
                    Link::Transport(ch) => ch,
                    _ => {
                        assert(false);
                        return self.fail(RelayFailure::HandshakeInterrupted);
                    },
                };
                match open_message(&mut ch, &mut self.buf, msg.as_slice()) {
                    Ok(text) => {
                        self.link = Link::Transport(ch);
                        self.phase = ClientPhase::Judging;
                        ClientAction::ShowReply(text)
                    },
                    Err(e) => self.fail(RelayFailure::Snow(e)),
                }
            },
            _ => {
                self.phase = ClientPhase::Closed;
                ClientAction::Close
            },
        }
    }

    /// Establishes the session once the last handshake message was sent.
    pub fn finish(&mut self) -> (r: ClientAction)
        requires
            old(self).wf(),
            old(self)@.phase == ClientPhase::Finishing,
        ensures
            final(self).wf(),
            final(self)@.setup == old(self)@.setup,
            final(self)@.buffer == old(self)@.buffer,
            match r {
                ClientAction::Established => final(self)@.phase == ClientPhase::AwaitingPayload,
                ClientAction::Fail(RelayFailure::Snow(_)) => final(self)@.phase == ClientPhase::Closed,
                _ => false,
            },
    {
        let mut link = Link::Gone;
        std::mem::swap(&mut link, &mut self.link);
        let hs = match link {
            Link::Handshake(hs) => hs,
            _ => {
                assert(false);
                return self.fail(RelayFailure::HandshakeInterrupted);
            },
        };
        match handshake_into_transport(hs) {
            Ok(ts) => {
                self.link = Link::Transport(Channel::new(ts));
                self.phase = ClientPhase::AwaitingPayload;
                ClientAction::Established
            },
            Err(e) => self.fail(RelayFailure::Snow(e)),
        }
    }

    /// Encrypts a request typed by the user.
    pub fn on_payload(&mut self, payload: &str) -> (r: ClientAction)
        requires
            old(self).wf(),
            old(self)@.phase == ClientPhase::AwaitingPayload,
        ensures
            final(self).wf(),
            final(self)@.setup == old(self)@.setup,
            match r {
                ClientAction::Send(v) => {
                    &&& final(self)@.phase == ClientPhase::AwaitingReply
                    &&& is_buffer_prefix(v@, final(self)@.buffer)
                    &&& v@.len() == vstd::utf8::encode_utf8(payload@).len() + TAG_LEN
                    &&& final(self)@.sealed == old(self)@.sealed.push(vstd::utf8::encode_utf8(payload@))
                    &&& final(self)@.opened == old(self)@.opened
                },
                ClientAction::Fail(RelayFailure::Snow(_)) => final(self)@.phase == ClientPhase::Closed,
                _ => false,
            },
            vstd::utf8::encode_utf8(payload@).len() + TAG_LEN > MAX_MESSAGE_LEN ==> r is Fail,
    {
        let mut link = Link::Gone;
        std::mem::swap(&mut link, &mut self.link);
        let mut ch = match link {
            Link::Transport(ch) => ch,
            _ => {
                assert(false);
                return self.fail(RelayFailure::HandshakeInterrupted);
            },
        };
        match seal_message(&mut ch, &mut self.buf, payload.as_bytes()) {
            Ok(v) => {
                self.link = Link::Transport(ch);
                self.phase = ClientPhase::AwaitingReply;
                ClientAction::Send(v)
            },
            Err(e) => self.fail(RelayFailure::Snow(e)),
        }
    }

    /// Decides on the `result` member of the reply: the string "exit" ends
    /// the session; anything else, a missing or non-string result included,
    /// asks for the next request.
    pub fn on_reply_result(&mut self, result: Option<String>) -> (r: ClientAction)
        requires
            old(self).wf(),
            old(self)@.phase == ClientPhase::Judging,
        ensures
            final(self).wf(),
            final(self)@.setup == old(self)@.setup,
            final(self)@.buffer == old(self)@.buffer,
            if result.deep_view() == Some("exit"@) {
                r is Close && final(self)@.phase == ClientPhase::Closed
            } else {
                r is AskPayload && final(self)@.phase == ClientPhase::AwaitingPayload
            },
    {
        let exit = match &result {
            Some(s) => *s == String::from_str("exit"),
            None => false,
        };
        if exit {
            self.phase = ClientPhase::Closed;
            ClientAction::Close
        } else {
            self.phase = ClientPhase::AwaitingPayload;
            ClientAction::AskPayload
        }
    }

    /// Reads the reply shown to the user as JSON and decides on its `result`
    /// member, as `on_reply_result` does; a reply that is not JSON is a
    /// failure.
    pub fn on_reply(&mut self, reply: &str) -> (r: ClientAction)
        requires
            old(self).wf(),
            old(self)@.phase == ClientPhase::Judging,
        ensures
            final(self).wf(),
            final(self)@.setup == old(self)@.setup,
            final(self)@.buffer == old(self)@.buffer,
            !json_parses(reply@) ==> (r matches ClientAction::Fail(RelayFailure::Json(_))
                && final(self)@.phase == ClientPhase::Closed),
            json_parses(reply@) ==> if json_string_member(reply@, "result"@) == Some("exit"@) {
                r is Close && final(self)@.phase == ClientPhase::Closed
            } else {
                r is AskPayload && final(self)@.phase == ClientPhase::AwaitingPayload
            },
    {
        match reply_result(reply) {
            Ok(result) => self.on_reply_result(result),
            Err(e) => self.fail(RelayFailure::Json(e)),
        }
    }

    /// The current phase.
    pub fn phase(&self) -> (r: ClientPhase)
        ensures
            r == self@.phase,
    {
        self.phase
    }
}

} // verus!
