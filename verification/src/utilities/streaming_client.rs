//! The plain streaming client: one websocket, no session on top.
//!
//! The client decides what each inbound frame means and what goes out;
//! the owner of the socket reads, writes and waits.

use vstd::prelude::*;
use vstd::string::StrSliceExecFns;
use vstd::string::StringSliceAdditionalSpecFns;
use vstd::utf8::decode_utf8;
use vstd::utf8::valid_utf8;
use url::ParseError;
use url::Url;
use crate::env::Env;
use crate::error::Error;
use crate::json::json_text;
use crate::streaming::codec::encode_request;
use crate::streaming::codec::request_model;
use crate::streaming::stock_data::Request;
use crate::streaming::stock_data::RequestView;
use crate::utilities::address::parse_url;
use crate::utilities::address::parsed_url;
use crate::utilities::address::url_as_str;
use crate::utilities::address::url_text;

verus! {

/// The status with which a server accepts the opening of a websocket.
pub const SWITCHING_PROTOCOLS: u16 = 101;

/// A websocket frame.
#[derive(Clone, Debug, PartialEq, Eq)]
pub enum Frame {
    /// A text frame
    Text(String),
    /// A binary frame
    Binary(Vec<u8>),
    /// A ping, with its payload
    Ping(Vec<u8>),
    /// A pong, with its payload
    Pong(Vec<u8>),
    /// The peer closes the connection.
    Close,
    /// Any other frame
    Other,
}

/// What an inbound frame means for the owner of the socket.
#[derive(Clone, Debug, PartialEq, Eq)]
pub enum Inbound {
    /// Hand this text to whoever reads the stream.
    Deliver(String),
    /// Answer with this frame.
    Reply(Frame),
    /// The peer has closed the connection: the client is shut down.
    Shutdown,
    /// Nothing to do.
    Skip,
    /// A binary frame that is not UTF-8: it holds no text.
    NotText,
}

/// `String::from_utf8`: the text that `bytes` encode, or `None` where
/// they are not UTF-8.
#[verifier::external_body]
fn string_from_utf8(bytes: Vec<u8>) -> (text: Option<String>)
    ensures
        match text {
            Some(t) => valid_utf8(bytes@) && t@ == decode_utf8(bytes@),
            None => !valid_utf8(bytes@),
        },
{
    String::from_utf8(bytes).ok()
}

/// Whether `inbound` is what `frame` means for the owner of the socket.
///
/// Text is delivered as it is, and the bytes of a binary frame as the text
/// that they encode where they are UTF-8. A ping is answered with a pong
/// that carries `pong`. A close frame shuts the client down. Every other
/// frame is skipped.
pub open spec fn is_translation(inbound: Inbound, frame: Frame) -> bool {
    match frame {
        Frame::Text(text) => inbound == Inbound::Deliver(text),
        Frame::Binary(bytes) => if valid_utf8(bytes@) {
            inbound matches Inbound::Deliver(text) && text@ == decode_utf8(bytes@)
        } else {
            inbound == Inbound::NotText
        },
        Frame::Ping(_) => inbound matches Inbound::Reply(Frame::Pong(payload)) && payload@
            == "pong".spec_bytes(),
        Frame::Close => inbound == Inbound::Shutdown,
        Frame::Pong(_) => inbound == Inbound::Skip,
        Frame::Other => inbound == Inbound::Skip,
    }
}

/// What `frame` means for the owner of the socket.
///
/// Text is delivered as it is and the bytes of a binary frame as the text
/// that they encode. A ping is answered with a pong that carries `pong`.
/// A close frame shuts the client down. Every other frame is skipped.
pub fn translate(frame: Frame) -> (inbound: Inbound)
    ensures
        is_translation(inbound, frame),
{
    match frame {
        Frame::Text(text) => Inbound::Deliver(text),
        Frame::Binary(bytes) => match string_from_utf8(bytes) {
            Some(text) => Inbound::Deliver(text),
            None => Inbound::NotText,
        },
        Frame::Ping(_) => Inbound::Reply(Frame::Pong("pong".as_bytes_vec())),
        Frame::Close => Inbound::Shutdown,
        Frame::Pong(_) => Inbound::Skip,
        Frame::Other => Inbound::Skip,
    }
}

/// A streaming client for one account and one URL.
pub struct StreamingClient {
    pub(crate) env: Env,
    pub url: Url,
    connected: bool,
    shutdown_signal: bool,
}

impl StreamingClient {
    /// The credentials of the client.
    pub closed spec fn credentials(self) -> Env {
        self.env
    }

    /// The URL of the client.
    pub closed spec fn address(self) -> Url {
        self.url
    }

    /// Whether the websocket has been opened.
    pub closed spec fn connected(self) -> bool {
        self.connected
    }

    /// Whether the client has been told to stop, by its owner or by the
    /// peer.
    pub closed spec fn stopped(self) -> bool {
        self.shutdown_signal
    }

    /// Create a new [`StreamingClient`] instance with the given credentials
    /// and client url. It is neither connected nor stopped.
    ///
    /// # Errors
    ///
    /// - `UrlParse` where `client_url` is no absolute URL
    pub fn new(env: Env, client_url: &str) -> (client: Result<StreamingClient, Error>)
        ensures
            match parsed_url(client_url@) {
                Some(text) => client matches Ok(c) && url_text(c.address()) == text && c.credentials()
                    == env && !c.connected() && !c.stopped(),
                None => client matches Err(Error::UrlParse(_)),
            },
    {
        StreamingClient::with_url(env, parse_url(client_url))
    }

    /// A client for the URL that was read, or the error of reading it.
    pub fn with_url(env: Env, url: Result<Url, ParseError>) -> (client: Result<
        StreamingClient,
        Error,
    >)
        ensures
            match url {
                Ok(u) => client matches Ok(c) && c.address() == u && c.credentials() == env
                    && !c.connected() && !c.stopped(),
                Err(e) => client == Err::<StreamingClient, Error>(Error::UrlParse(e)),
            },
    {
        match url {
            Ok(url) => Ok(StreamingClient { env, url, connected: false, shutdown_signal: false }),
            Err(e) => Err(Error::UrlParse(e)),
        }
    }

    /// The URL that the websocket of this client connects to, as text.
    pub fn address_text(&self) -> (text: &str)
        ensures
            text@ == url_text(self.address()),
    {
        url_as_str(&self.url)
    }

    /// Take note of how the server answered the opening of the websocket.
    /// With status 101 the client is connected and requests can be sent.
    ///
    /// # Errors
    ///
    /// - `UnexpectedStatus` for any other status; the client stays as it was
    pub fn connect(&mut self, status: u16) -> (opened: Result<(), Error>)
        ensures
            final(self).address() == old(self).address(),
            final(self).credentials() == old(self).credentials(),
            final(self).stopped() == old(self).stopped(),
            status == SWITCHING_PROTOCOLS ==> opened is Ok && final(self).connected(),
            status != SWITCHING_PROTOCOLS ==> opened == Err::<(), Error>(
                Error::UnexpectedStatus(status),
            ) && final(self).connected() == old(self).connected(),
    {
        if status == SWITCHING_PROTOCOLS {
            self.connected = true;
            Ok(())
        } else {
            Err(Error::UnexpectedStatus(status))
        }
    }

    /// The request that presents the credentials of this client.
    pub fn auth_request(&self) -> (request: Request)
        ensures
            request.deep_view() == (RequestView::AuthMessage {
                key: self.credentials().key(),
                secret: self.credentials().secret(),
            }),
    {
        Request::AuthMessage {
            key: self.env.key_id().to_owned(),
            secret: self.env.secret_key().to_owned(),
        }
    }

    /// Take in one frame from the socket: what [`translate`] says, and the
    /// client is stopped once the peer has closed.
    pub fn receive(&mut self, frame: Frame) -> (inbound: Inbound)
        ensures
            final(self).address() == old(self).address(),
            final(self).credentials() == old(self).credentials(),
            final(self).connected() == old(self).connected(),
            final(self).stopped() == (old(self).stopped() || frame is Close),
            is_translation(inbound, frame),
    {
        let inbound = translate(frame);
        match &inbound {
            Inbound::Shutdown => {
                self.shutdown_signal = true;
            },
            _ => {},
        }
        inbound
    }

    /// Whether the sending side is to end: the client has been stopped.
    pub fn is_shut_down(&self) -> (stopped: bool)
        ensures
            stopped == self.stopped(),
    {
        self.shutdown_signal
    }

    /// Stops the stream of events
    pub fn shutdown(&mut self)
        ensures
            final(self).stopped(),
            final(self).address() == old(self).address(),
            final(self).credentials() == old(self).credentials(),
            final(self).connected() == old(self).connected(),
    {
        self.shutdown_signal = true;
    }

    /// The text frame that carries `request`; `None` while the client is
    /// not connected, when nothing is sent.
    pub fn send(&self, request: Request) -> (frame: Option<String>)
        ensures
            match frame {
                Some(text) => self.connected() && text@ == json_text(
                    request_model(request.deep_view()),
                ),
                None => !self.connected(),
            },
    {
        if self.connected {
            Some(encode_request(&request))
        } else {
            None
        }
    }
}

} // verus!
