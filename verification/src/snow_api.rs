//! The calls into `snow` that the library makes, each behind a trusted item.

use vstd::prelude::*;

verus! {

/// `snow`'s error type, carried through the library as an opaque value.
#[verifier::external_type_specification]
#[verifier::external_body]
pub struct ExSnowError(snow::Error);

/// `snow`'s handshake state, opaque to the library.
#[verifier::external_type_specification]
#[verifier::external_body]
pub struct ExHandshakeState(snow::HandshakeState);

/// `snow`'s transport state, opaque to the library.
#[verifier::external_type_specification]
#[verifier::external_body]
pub struct ExTransportState(snow::TransportState);

/// `snow`'s parsed protocol name, opaque to the library.
#[verifier::external_type_specification]
#[verifier::external_body]
pub struct ExNoiseParams(snow::params::NoiseParams);

/// `snow`'s session builder, opaque to the library.
#[verifier::external_type_specification]
#[verifier::external_body]
pub struct ExBuilder<'builder>(snow::Builder<'builder>);

/// Whether `<NoiseParams as FromStr>::from_str` accepts the given protocol name.
pub uninterp spec fn noise_name_parses(name: Seq<char>) -> bool;

/// Parses a Noise protocol name with `snow`'s `FromStr` for `NoiseParams`.
/// The call succeeds exactly on the names for which `noise_name_parses`
/// holds, a function of the name alone.
#[verifier::external_body]
pub(crate) fn parse_noise_params(name: &str) -> (r: Result<snow::params::NoiseParams, snow::Error>)
    ensures
        r is Ok <==> noise_name_parses(name@),
{
    name.parse()
}


/// The longest message the Noise protocol allows, in bytes; `snow` refuses to
/// write or read anything longer.
pub const MAX_MESSAGE_LEN: usize = 65535;

/// The length of an authentication tag that `snow`'s ciphers append.
pub const TAG_LEN: usize = 16;

/// The longest public key that `snow`'s builder can hold for the remote party.
pub const MAX_DH_LEN: usize = 56;

/// The length of a key of the one Diffie-Hellman function (25519) that
/// `snow`'s default resolver provides.
pub const DH_KEY_LEN: usize = 32;

/// Starts a `snow::Builder` with `Builder::new` and the default crypto resolver.
/// No claim is made of the builder, which is opaque.
#[verifier::external_body]
pub(crate) fn builder_new<'b>(params: snow::params::NoiseParams) -> (r: snow::Builder<'b>) {
    snow::Builder::new(params)
}

/// Sets the remote static public key with `Builder::remote_public_key`.
/// `Builder::build` later copies the key into a buffer of `MAX_DH_LEN` bytes
/// and panics on a longer key, so a longer key is refused here already.
/// Whether the call fails (only when the key was set before) is not stated:
/// the builder is opaque.
#[verifier::external_body]
pub(crate) fn builder_remote_public_key<'b>(builder: snow::Builder<'b>, key: &'b [u8]) -> (r: Result<snow::Builder<'b>, snow::Error>)
    requires
        key@.len() <= MAX_DH_LEN,
{
    builder.remote_public_key(key)
}

/// Generates a static key pair with `Builder::generate_keypair`, handing back
/// its private and public halves. The default resolver provides only the
/// 25519 function, so both halves of a generated pair are `DH_KEY_LEN` bytes
/// long; their bytes come from the random number generator and are not stated.
#[verifier::external_body]
pub(crate) fn builder_generate_keypair(builder: &snow::Builder<'_>) -> (r: Result<(Vec<u8>, Vec<u8>), snow::Error>)
    ensures
        r matches Ok((private, public)) ==> private@.len() == DH_KEY_LEN && public@.len() == DH_KEY_LEN,
{
    match builder.generate_keypair() {
        Ok(keypair) => Ok((keypair.private, keypair.public)),
        Err(e) => Err(e),
    }
}

/// Sets the local static private key with `Builder::local_private_key`.
/// `Builder::build` later copies the key into a 25519 key of `DH_KEY_LEN`
/// bytes and panics on a longer key, so a longer key is refused here already.
/// Whether the call fails (only when the key was set before) is not stated:
/// the builder is opaque.
#[verifier::external_body]
pub(crate) fn builder_local_private_key<'b>(builder: snow::Builder<'b>, key: &'b [u8]) -> (r: Result<snow::Builder<'b>, snow::Error>)
    requires
        key@.len() <= DH_KEY_LEN,
{
    builder.local_private_key(key)
}

/// Sets a pre-shared key with `Builder::psk`. `snow` holds ten slots and
/// refuses a location of 10 or more.
#[verifier::external_body]
pub(crate) fn builder_psk<'b>(builder: snow::Builder<'b>, location: u8, key: &'b [u8; 32]) -> (r: Result<snow::Builder<'b>, snow::Error>)
    ensures
        location >= 10 ==> r is Err,
{
    builder.psk(location, key)
}

/// Builds the initiator's handshake state with `Builder::build_initiator`.
/// Its outcome depends on the opaque builder and the random number generator,
/// so nothing is claimed of it.
#[verifier::external_body]
pub(crate) fn builder_build_initiator(builder: snow::Builder<'_>) -> (r: Result<snow::HandshakeState, snow::Error>) {
    builder.build_initiator()
}

/// Builds the responder's handshake state with `Builder::build_responder`.
/// Its outcome depends on the opaque builder and the random number generator,
/// so nothing is claimed of it.
#[verifier::external_body]
pub(crate) fn builder_build_responder(builder: snow::Builder<'_>) -> (r: Result<snow::HandshakeState, snow::Error>) {
    builder.build_responder()
}

/// Writes the next handshake message into `buf` with
/// `HandshakeState::write_message`. `snow` writes into the buffer without
/// resizing it, refuses a payload that leaves no room for a tag, and on
/// success reports a count of written bytes that fits the buffer. The bytes themselves
/// hold fresh random key material and are not stated. A buffer of
/// `MAX_MESSAGE_LEN` bytes is required: with a shorter one `snow` can panic
/// while it writes a static key.
#[verifier::external_body]
pub(crate) fn handshake_write(hs: &mut snow::HandshakeState, payload: &[u8], buf: &mut Vec<u8>) -> (r: Result<usize, snow::Error>)
    requires
        old(buf)@.len() == MAX_MESSAGE_LEN,
    ensures
        final(buf)@.len() == old(buf)@.len(),
        payload@.len() + TAG_LEN > old(buf)@.len() ==> r is Err,
        r matches Ok(n) ==> n <= final(buf)@.len(),
{
    hs.write_message(payload, buf.as_mut_slice())
}

/// Reads a handshake message with `HandshakeState::read_message`, writing its
/// payload into `buf`. `snow` writes into the buffer without resizing it,
/// refuses a message longer than `MAX_MESSAGE_LEN`, and on success reports a
/// payload no longer than the message. Whether it succeeds and what it
/// writes depend on the opaque handshake state and are not stated.
#[verifier::external_body]
pub(crate) fn handshake_read(hs: &mut snow::HandshakeState, message: &[u8], buf: &mut Vec<u8>) -> (r: Result<usize, snow::Error>)
    requires
        old(buf)@.len() == MAX_MESSAGE_LEN,
    ensures
        final(buf)@.len() == old(buf)@.len(),
        message@.len() > MAX_MESSAGE_LEN ==> r is Err,
        r matches Ok(n) ==> n <= message@.len(),
{
    hs.read_message(message, buf.as_mut_slice())
}

/// Turns a finished handshake into a transport session with
/// `HandshakeState::into_transport_mode`. It fails when the handshake is not
/// finished, which the opaque state decides; nothing is claimed.
#[verifier::external_body]
pub(crate) fn handshake_into_transport(hs: snow::HandshakeState) -> (r: Result<snow::TransportState, snow::Error>) {
    hs.into_transport_mode()
}

/// Encrypts `payload` into `buf` with `TransportState::write_message`.
/// `snow` writes into the buffer without resizing it, refuses a payload that
/// leaves no room for the tag, and on success writes exactly the payload's
/// length plus the tag. The ciphertext bytes are not stated.
#[verifier::external_body]
pub(crate) fn transport_write(ts: &mut snow::TransportState, payload: &[u8], buf: &mut Vec<u8>) -> (r: Result<usize, snow::Error>)
    requires
        old(buf)@.len() == MAX_MESSAGE_LEN,
    ensures
        final(buf)@.len() == old(buf)@.len(),
        payload@.len() + TAG_LEN > old(buf)@.len() ==> r is Err,
        r matches Ok(n) ==> n == payload@.len() + TAG_LEN,
{
    ts.write_message(payload, buf.as_mut_slice())
}

/// Decrypts `message` into `buf` with `TransportState::read_message`.
/// `snow` writes into the buffer without resizing it, refuses a message longer
/// than `MAX_MESSAGE_LEN`, and on success reports a plaintext as long as the
/// message without its tag. Whether the tag verifies, and the plaintext bytes, depend
/// on the session keys and are not stated.
#[verifier::external_body]
pub(crate) fn transport_read(ts: &mut snow::TransportState, message: &[u8], buf: &mut Vec<u8>) -> (r: Result<usize, snow::Error>)
    requires
        old(buf)@.len() == MAX_MESSAGE_LEN,
    ensures
        final(buf)@.len() == old(buf)@.len(),
        message@.len() > MAX_MESSAGE_LEN ==> r is Err,
        r matches Ok(n) ==> n + TAG_LEN == message@.len(),
{
    ts.read_message(message, buf.as_mut_slice())
}

/// The `Debug` rendering of a `snow::Error` (its variant names). The error is
/// opaque to the library, so the text is not stated.
#[verifier::external_body]
pub(crate) fn snow_error_debug(e: &snow::Error) -> (r: String) {
    format!("{:?}", e)
}

/// The `Display` rendering of a `snow::Error` (such as "decrypt error"). The
/// error is opaque to the library, so the text is not stated.
#[verifier::external_body]
pub(crate) fn snow_error_display(e: &snow::Error) -> (r: String) {
    format!("{}", e)
}

} // verus!
