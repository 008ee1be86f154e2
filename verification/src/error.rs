//! Error type shared by the protocol layer and the device operations.

use vstd::prelude::*;

use crate::protocol::DeviceModel;

verus! {

/// Error type of the IQOS library.
#[derive(Debug)]
pub enum Error {
    /// Returned when a transport backend reports an error.
    Transport(String),
    /// Returned when protocol encoding fails.
    ProtocolEncode(String),
    /// Returned when protocol decoding fails.
    ProtocolDecode(String),
    /// Returned when a requested operation is not supported by the current model or backend.
    Unsupported(String),
}

impl Error {
    /// A transport error carrying exactly `msg`.
    pub open spec fn is_transport(self, msg: Seq<char>) -> bool {
        self matches Error::Transport(m) && m@ == msg
    }

    /// An encoding error carrying exactly `msg`.
    pub open spec fn is_encode(self, msg: Seq<char>) -> bool {
        self matches Error::ProtocolEncode(m) && m@ == msg
    }

    /// A decoding error carrying exactly `msg`.
    pub open spec fn is_decode(self, msg: Seq<char>) -> bool {
        self matches Error::ProtocolDecode(m) && m@ == msg
    }

    /// An unsupported-operation error carrying exactly `msg`.
    pub open spec fn is_unsupported(self, msg: Seq<char>) -> bool {
        self matches Error::Unsupported(m) && m@ == msg
    }

    /// The human-readable message carried by the error.
    pub open spec fn message(self) -> Seq<char> {
        match self {
            Error::Transport(m) => m@,
            Error::ProtocolEncode(m) => m@,
            Error::ProtocolDecode(m) => m@,
            Error::Unsupported(m) => m@,
        }
    }

    /// Return the human-readable message carried by the error.
    pub fn message_text(&self) -> (r: &str)
        ensures
            r@ == self.message(),
    {
        match self {
            Error::Transport(m) => m.as_str(),
            Error::ProtocolEncode(m) => m.as_str(),
            Error::ProtocolDecode(m) => m.as_str(),
            Error::Unsupported(m) => m.as_str(),
        }
    }
}

/// `Err(e)` where `e` is a decoding error with message `msg`.
pub open spec fn fails_decoding<T>(r: Result<T, Error>, msg: Seq<char>) -> bool {
    r matches Err(e) && e.is_decode(msg)
}

/// `Err(e)` where `e` is an encoding error with message `msg`.
pub open spec fn fails_encoding<T>(r: Result<T, Error>, msg: Seq<char>) -> bool {
    r matches Err(e) && e.is_encode(msg)
}

/// `Err(e)` where `e` is an unsupported-operation error with message `msg`.
pub open spec fn fails_unsupported<T>(r: Result<T, Error>, msg: Seq<char>) -> bool {
    r matches Err(e) && e.is_unsupported(msg)
}

/// `r` is what the decoding outcome `d` describes: the value `v` for
/// `Ok(v)`, a decoding error with message `m` for `Err(m)`.
pub open spec fn decodes_as<T>(r: Result<T, Error>, d: Result<T, Seq<char>>) -> bool {
    match d {
        Ok(v) => r == Ok::<T, Error>(v),
        Err(m) => fails_decoding(r, m),
    }
}

/// Build a decoding error from a message.
pub fn decode_error(msg: &str) -> (e: Error)
    ensures
        e.is_decode(msg@),
{
    Error::ProtocolDecode(String::from_str(msg))
}

/// Build an encoding error from a message.
pub fn encode_error(msg: String) -> (e: Error)
    ensures
        e.is_encode(msg@),
{
    Error::ProtocolEncode(msg)
}

/// Build an unsupported-operation error from a message.
pub fn unsupported_error(msg: String) -> (e: Error)
    ensures
        e.is_unsupported(msg@),
{
    Error::Unsupported(msg)
}

/// Build the unsupported-operation error whose message is `prefix` followed
/// by the model's name, as `format!("{prefix}{model:?}")` renders it.
pub fn unsupported_for_model(prefix: &str, model: DeviceModel) -> (e: Error)
    ensures
        e.is_unsupported(prefix@ + model.spec_name()),
{
    let msg = String::from_str(prefix).concat(model.name());
    Error::Unsupported(msg)
}

} // verus!
