//! What can go wrong in this library.

use vstd::prelude::*;
use vstd::string::StringExecFns;
use crate::streaming::codec::DecodeError;
use crate::streaming::stock_data::StreamMessage;

verus! {

/// The errors of this library.
///
/// Failures of the transport itself (a refused connection, a send or a
/// receive that fails) belong to whoever owns the socket and are not
/// listed here.
#[derive(Debug, PartialEq, Eq)]
pub enum Error {
    /// The credentials are read from these environment variables:
    ///
    /// ### Paper Trading:
    /// - `ALPACA_PAPER_API_KEY_ID`
    /// - `ALPACA_PAPER_API_SECRET_KEY`
    ///
    /// ### Live Trading:
    /// - `ALPACA_LIVE_API_KEY_ID`
    /// - `ALPACA_LIVE_API_SECRET_KEY`
    MissingEnvironmentVariable { variable_name: String },
    /// The first message after the connection opened was not the
    /// acknowledgement of the connection.
    UnexpectedConnectionMessage(StreamMessage),
    /// The server answered the credentials with anything but the
    /// acknowledgement of the authentication.
    StreamingAuth { response: StreamMessage },
    /// A message arrived in a state that forbids it: an acknowledgement of
    /// the handshake after the handshake.
    UnexpectedMessage(StreamMessage),
    /// Messages were asked for, or subscriptions changed, before the
    /// handshake was complete.
    HandshakeIncomplete,
    /// The session has been shut down.
    Closed,
    /// A frame from the server could not be read.
    Decode(DecodeError),
    /// Url Parse Error
    UrlParse(url::ParseError),
    /// The server answered the opening of the websocket with this status
    /// in place of 101.
    UnexpectedStatus(u16),
}

pub type Result<T, E = Error> = std::result::Result<T, E>;

impl Error {
    /// What this error says to a reader.
    pub open spec fn text(self) -> Seq<char> {
        match self {
            Error::MissingEnvironmentVariable { variable_name } =>
                "Required environment variable not set: "@ + variable_name@,
            Error::UnexpectedConnectionMessage(_) => "Unexpected message in place of the connection acknowledgement"@,
            Error::StreamingAuth { .. } => "Streaming Auth error"@,
            Error::UnexpectedMessage(_) => "Unexpected message after the handshake"@,
            Error::HandshakeIncomplete => "The handshake is not complete"@,
            Error::Closed => "The session is closed"@,
            Error::Decode(DecodeError::InvalidJson) => "The frame is not JSON"@,
            Error::Decode(DecodeError::NotABatch) => "The frame is not a list of messages"@,
            Error::Decode(DecodeError::Malformed { .. }) => "The frame holds what is no message"@,
            Error::UrlParse(_) => "Url parse error"@,
            Error::UnexpectedStatus(_) => "The websocket was not accepted"@,
        }
    }

    /// What this error says to a reader.
    pub fn message(&self) -> (message: String)
        ensures
            message@ == self.text(),
    {
        match self {
            Error::MissingEnvironmentVariable { variable_name } =>
                "Required environment variable not set: ".to_owned().concat(variable_name.as_str()),
            Error::UnexpectedConnectionMessage(_) =>
                "Unexpected message in place of the connection acknowledgement".to_owned(),
            Error::StreamingAuth { .. } => "Streaming Auth error".to_owned(),
            Error::UnexpectedMessage(_) => "Unexpected message after the handshake".to_owned(),
            Error::HandshakeIncomplete => "The handshake is not complete".to_owned(),
            Error::Closed => "The session is closed".to_owned(),
            Error::Decode(DecodeError::InvalidJson) => "The frame is not JSON".to_owned(),
            Error::Decode(DecodeError::NotABatch) => "The frame is not a list of messages".to_owned(),
            Error::Decode(DecodeError::Malformed { .. }) =>
                "The frame holds what is no message".to_owned(),
            Error::UrlParse(_) => "Url parse error".to_owned(),
            Error::UnexpectedStatus(_) => "The websocket was not accepted".to_owned(),
        }
    }
}

} // verus!
