//! The configuration of a `snow` session, with a record of what was handed to
//! `snow`'s builder.

use vstd::prelude::*;
use crate::snow_api::{
    DH_KEY_LEN, MAX_DH_LEN, builder_build_initiator, builder_build_responder,
    builder_generate_keypair, builder_local_private_key, builder_new, builder_psk,
    builder_remote_public_key, noise_name_parses, parse_noise_params,
};

verus! {

/// What a session was configured with: the protocol name, the remote static
/// public key, the local static private key, the pre-shared key with its
/// slot, and the role.
pub struct SetupRecord {
    pub name: Seq<char>,
    pub remote_key: Option<Seq<u8>>,
    pub local_key: Option<Seq<u8>>,
    pub psk: Option<(u8, Seq<u8>)>,
    pub initiator: Option<bool>,
}

/// A `snow` builder together with the record of what it was given.
pub struct SessionBuilder<'b> {
    inner: snow::Builder<'b>,
    record: Ghost<SetupRecord>,
}

impl<'b> SessionBuilder<'b> {
    /// What the builder was given so far.
    pub closed spec fn record(&self) -> SetupRecord {
        self.record@
    }

    /// A builder for the named protocol; it fails when `snow` does not accept
    /// the name.
    pub fn new(name: &str) -> (r: Result<SessionBuilder<'b>, snow::Error>)
        ensures
            r is Ok <==> noise_name_parses(name@),
            r matches Ok(b) ==> b.record() == (SetupRecord {
                name: name@,
                remote_key: None,
                local_key: None,
                psk: None,
                initiator: None,
            }),
    {
        match parse_noise_params(name) {
            Ok(params) => Ok(SessionBuilder {
                inner: builder_new(params),
                record: Ghost(
                    SetupRecord { name: name@, remote_key: None, local_key: None, psk: None, initiator: None },
                ),
            }),
            Err(e) => Err(e),
        }
    }

    /// Sets the remote party's static public key.
    pub fn remote_public_key(self, key: &'b [u8]) -> (r: Result<SessionBuilder<'b>, snow::Error>)
        requires
            key@.len() <= MAX_DH_LEN,
        ensures
            r matches Ok(b) ==> b.record() == (SetupRecord { remote_key: Some(key@), ..self.record() }),
    {
        let ghost rec = self.record@;
        match builder_remote_public_key(self.inner, key) {
            Ok(inner) => Ok(SessionBuilder { inner, record: Ghost(SetupRecord { remote_key: Some(key@), ..rec }) }),
            Err(e) => Err(e),
        }
    }

    /// Generates a static key pair; both halves are `DH_KEY_LEN` bytes long.
    pub fn generate_keypair(&self) -> (r: Result<(Vec<u8>, Vec<u8>), snow::Error>)
        ensures
            r matches Ok((private, public)) ==> private@.len() == DH_KEY_LEN && public@.len() == DH_KEY_LEN,
    {
        builder_generate_keypair(&self.inner)
    }

    /// Sets the local static private key.
    pub fn local_private_key(self, key: &'b [u8]) -> (r: Result<SessionBuilder<'b>, snow::Error>)
        requires
            key@.len() <= DH_KEY_LEN,
        ensures
            r matches Ok(b) ==> b.record() == (SetupRecord { local_key: Some(key@), ..self.record() }),
    {
        let ghost rec = self.record@;
        match builder_local_private_key(self.inner, key) {
            Ok(inner) => Ok(SessionBuilder { inner, record: Ghost(SetupRecord { local_key: Some(key@), ..rec }) }),
            Err(e) => Err(e),
        }
    }

    /// Sets the pre-shared key of a slot; a slot of 10 or more is refused.
    pub fn psk(self, location: u8, key: &'b [u8; 32]) -> (r: Result<SessionBuilder<'b>, snow::Error>)
        ensures
            location >= 10 ==> r is Err,
            r matches Ok(b) ==> b.record() == (SetupRecord { psk: Some((location, key@)), ..self.record() }),
    {
        let ghost rec = self.record@;
        match builder_psk(self.inner, location, key) {
            Ok(inner) => Ok(SessionBuilder {
                inner,
                record: Ghost(SetupRecord { psk: Some((location, key@)), ..rec }),
            }),
            Err(e) => Err(e),
        }
    }

    /// Builds the handshake state of the initiator or of the responder, and
    /// hands back the record of what it was built with.
    pub fn build(self, initiator: bool) -> (r: Result<(snow::HandshakeState, Ghost<SetupRecord>), snow::Error>)
        ensures
            r matches Ok((_, rec)) ==> rec@ == (SetupRecord { initiator: Some(initiator), ..self.record() }),
    {
        let ghost rec = self.record@;
        let built = if initiator {
            builder_build_initiator(self.inner)
        } else {
            builder_build_responder(self.inner)
        };
        match built {
            Ok(hs) => Ok((hs, Ghost(SetupRecord { initiator: Some(initiator), ..rec }))),
            Err(e) => Err(e),
        }
    }
}

} // verus!
