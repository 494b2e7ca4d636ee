//! A transport session together with the record of every plaintext it has
//! encrypted and decrypted. Only this module reaches the `snow` transport
//! session, so the record holds exactly the bytes handed to `snow` to encrypt
//! and the bytes `snow` gave back as decrypted.

use vstd::prelude::*;
use crate::snow_api::{MAX_MESSAGE_LEN, TAG_LEN, transport_read, transport_write};

verus! {

/// A `snow` transport session and its records.
pub struct Channel {
    ts: snow::TransportState,
    sealed: Ghost<Seq<Seq<u8>>>,
    opened: Ghost<Seq<Seq<u8>>>,
}

impl Channel {
    /// The plaintexts handed to `snow` and encrypted, in order.
    pub closed spec fn sealed(&self) -> Seq<Seq<u8>> {
        self.sealed@
    }

    /// The plaintexts that `snow` decrypted, in order.
    pub closed spec fn opened(&self) -> Seq<Seq<u8>> {
        self.opened@
    }

    /// A channel over a fresh transport session, with empty records.
    pub fn new(ts: snow::TransportState) -> (r: Channel)
        ensures
            r.sealed() == Seq::<Seq<u8>>::empty(),
            r.opened() == Seq::<Seq<u8>>::empty(),
    {
        Channel { ts, sealed: Ghost(Seq::empty()), opened: Ghost(Seq::empty()) }
    }

    /// Encrypts `plaintext` into `buf`. On success exactly `plaintext` is added
    /// to the record of encrypted plaintexts, and the message written is the
    /// plaintext's length plus the tag.
    pub fn seal(&mut self, plaintext: &[u8], buf: &mut Vec<u8>) -> (r: Result<usize, snow::Error>)
        requires
            old(buf)@.len() == MAX_MESSAGE_LEN,
        ensures
            final(buf)@.len() == MAX_MESSAGE_LEN,
            plaintext@.len() + TAG_LEN > MAX_MESSAGE_LEN ==> r is Err,
            final(self).opened() == old(self).opened(),
            match r {
                Ok(n) => n == plaintext@.len() + TAG_LEN && final(self).sealed() == old(self).sealed().push(
                    plaintext@,
                ),
                Err(_) => final(self).sealed() == old(self).sealed(),
            },
    {
        let r = transport_write(&mut self.ts, plaintext, buf);
        if r.is_ok() {
            self.sealed = Ghost(self.sealed@.push(plaintext@));
        }
        r
    }

    /// Decrypts `msg` into `buf`. On success the plaintext, which starts the
    /// buffer and is the message without its tag, is added to the record of
    /// decrypted plaintexts.
    pub fn open(&mut self, msg: &[u8], buf: &mut Vec<u8>) -> (r: Result<usize, snow::Error>)
        requires
            old(buf)@.len() == MAX_MESSAGE_LEN,
        ensures
            final(buf)@.len() == MAX_MESSAGE_LEN,
            msg@.len() > MAX_MESSAGE_LEN ==> r is Err,
            final(self).sealed() == old(self).sealed(),
            match r {
                Ok(n) => {
                    &&& n + TAG_LEN == msg@.len()
                    &&& final(self).opened() == old(self).opened().push(final(buf)@.subrange(0, n as int))
                },
                Err(_) => final(self).opened() == old(self).opened(),
            },
    {
        let r = transport_read(&mut self.ts, msg, buf);
        match r {
            Ok(n) => {
                self.opened = Ghost(self.opened@.push(buf@.subrange(0, n as int)));
            },
            Err(_) => {},
        }
        r
    }
}

} // verus!
