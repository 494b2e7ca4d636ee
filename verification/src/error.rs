//! The library's error type and its renderings.

use vstd::prelude::*;
use crate::snow_api::{snow_error_debug, snow_error_display};
use crate::text::{debug_quoted, str_debug_text};

verus! {

/// What can go wrong in the handshake client.
#[derive(Debug)]
pub enum NoiseError {
    /// `snow` refused an operation.
    SnowError(snow::Error),
    /// Turning a message into a JavaScript value failed; holds the reason.
    SerdeError(String),
    /// Sending a handshake message failed.
    InitiationSendError(String),
    /// Any other failure.
    OtherError(String),
    /// The state machine was driven from a state that does not allow it.
    InvalidStateError(String),
}

impl NoiseError {
    /// The message of every variant but `SnowError`, whose message embeds
    /// `snow`'s own rendering of its error.
    pub open spec fn plain_message(&self) -> Seq<char> {
        match self {
            NoiseError::SnowError(_) => "Snow error: "@,
            NoiseError::SerdeError(s) => "Snow error: "@ + s@,
            NoiseError::InitiationSendError(s) => "Initiation error: "@ + str_debug_text(s@),
            NoiseError::OtherError(s) => "Other error: "@ + s@,
            NoiseError::InvalidStateError(s) => "Invalid state error: "@ + s@,
        }
    }

    /// The `Debug` rendering of every variant but `SnowError`.
    pub open spec fn plain_debug(&self) -> Seq<char> {
        match self {
            NoiseError::SnowError(_) => "SnowError("@,
            NoiseError::SerdeError(s) => "SerdeError("@ + str_debug_text(s@) + ")"@,
            NoiseError::InitiationSendError(s) => "InitiationSendError("@ + str_debug_text(s@) + ")"@,
            NoiseError::OtherError(s) => "OtherError("@ + str_debug_text(s@) + ")"@,
            NoiseError::InvalidStateError(s) => "InvalidStateError("@ + str_debug_text(s@) + ")"@,
        }
    }

    /// The human-readable message of the error.
    pub fn to_message(&self) -> (r: String)
        ensures
            match self {
                NoiseError::SnowError(_) => exists|t: Seq<char>| r@ == "Snow error: "@ + t,
                _ => r@ == self.plain_message(),
            },
    {
        match self {
            NoiseError::SnowError(e) => {
                let mut r = String::from_str("Snow error: ");
                let t = snow_error_display(e);
                r.append(t.as_str());
                r
            },
            NoiseError::SerdeError(s) => {
                let mut r = String::from_str("Snow error: ");
                r.append(s.as_str());
                r
            },
            NoiseError::InitiationSendError(s) => {
                let mut r = String::from_str("Initiation error: ");
                let q = debug_quoted(s.as_str());
                r.append(q.as_str());
                r
            },
            NoiseError::OtherError(s) => {
                let mut r = String::from_str("Other error: ");
                r.append(s.as_str());
                r
            },
            NoiseError::InvalidStateError(s) => {
                let mut r = String::from_str("Invalid state error: ");
                r.append(s.as_str());
                r
            },
        }
    }

    /// The `Debug` rendering of the error: the variant's name and its field.
    pub fn debug_text(&self) -> (r: String)
        ensures
            match self {
                NoiseError::SnowError(_) => exists|t: Seq<char>| r@ == "SnowError("@ + t + ")"@,
                _ => r@ == self.plain_debug(),
            },
    {
        let (name, inner) = match self {
            NoiseError::SnowError(e) => ("SnowError(", snow_error_debug(e)),
            NoiseError::SerdeError(s) => ("SerdeError(", debug_quoted(s.as_str())),
            NoiseError::InitiationSendError(s) => ("InitiationSendError(", debug_quoted(s.as_str())),
            NoiseError::OtherError(s) => ("OtherError(", debug_quoted(s.as_str())),
            NoiseError::InvalidStateError(s) => ("InvalidStateError(", debug_quoted(s.as_str())),
        };
        let mut r = String::from_str(name);
        r.append(inner.as_str());
        r.append(")");
        r
    }

    /// The message of the error as UTF-8 bytes.
    pub fn into_bytes(self) -> (r: Vec<u8>)
        ensures
            exists|m: Seq<char>| {
                &&& r@ == vstd::utf8::encode_utf8(m)
                &&& match self {
                    NoiseError::SnowError(_) => exists|t: Seq<char>| m == "Snow error: "@ + t,
                    _ => m == self.plain_message(),
                }
            },
    {
        let m = self.to_message();
        m.as_str().as_bytes_vec()
    }
}

impl From<snow::Error> for NoiseError {
    fn from(error: snow::Error) -> (r: NoiseError) {
        NoiseError::SnowError(error)
    }
}

impl vstd::std_specs::convert::FromSpecImpl<snow::Error> for NoiseError {
    open spec fn obeys_from_spec() -> bool {
        true
    }

    open spec fn from_spec(error: snow::Error) -> NoiseError {
        NoiseError::SnowError(error)
    }
}

} // verus!
