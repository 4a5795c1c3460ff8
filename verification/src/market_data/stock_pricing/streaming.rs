//! Streaming stock prices over a plain streaming client.

use vstd::prelude::*;
use crate::env::Env;
use crate::error::Error;
use crate::feed::Feed;
use crate::json::json_text;
use crate::json::parsed_json;
use crate::streaming::codec::decode_frame;
use crate::streaming::codec::encode_request;
use crate::streaming::codec::is_frame_of;
use crate::streaming::codec::request_model;
use crate::streaming::codec::DecodeError;
use crate::streaming::stock_data::ControlMessage;
use crate::streaming::stock_data::Request;
use crate::streaming::stock_data::RequestView;
use crate::streaming::stock_data::StreamMessage;
use crate::streaming::subscription::SubscriptionList;
use crate::utilities::address::parsed_url;
use crate::utilities::address::url_text;
use crate::utilities::streaming_client::is_translation;
use crate::utilities::streaming_client::Frame;
use crate::utilities::streaming_client::Inbound;
use crate::utilities::streaming_client::StreamingClient;
use crate::utilities::streaming_client::SWITCHING_PROTOCOLS;

verus! {

/// The host of the stream.
pub const MARKET_DATA_STREAM_HOST: &'static str =
    "wss://stream.data.alpaca.markets/v1beta3/crypto/us";

/// The handle on a stream of stock prices: it reads the frames of the
/// stream, presents the credentials once the server has acknowledged the
/// connection, changes what is subscribed and ends the stream.
pub struct StockPricingSubscription {
    streaming_client: StreamingClient,
    greeted: bool,
}

/// What one frame of the stream gives.
///
/// It can hold the credentials, so it has no `Debug`.
#[derive(PartialEq, Eq)]
pub struct Delivery {
    /// Every message of the frame, in order.
    pub messages: Vec<StreamMessage>,
    /// The text frame that presents the credentials, where the frame
    /// opened with the acknowledgement of the connection: it is to be sent
    /// now.
    pub credentials: Option<String>,
}

/// Whether `batch` opens with the acknowledgement of the connection.
pub open spec fn greets(batch: Seq<StreamMessage>) -> bool {
    batch.len() > 0 && batch[0].control_of() == Some(ControlMessage::Connected)
}

impl StockPricingSubscription {
    /// The client underneath.
    pub closed spec fn client(self) -> StreamingClient {
        self.streaming_client
    }

    /// Whether the server has acknowledged the connection, and the
    /// credentials have been handed out to be sent.
    pub closed spec fn greeted(self) -> bool {
        self.greeted
    }

    /// The text frame that presents the credentials of this stream.
    pub open spec fn credentials_frame(self) -> Seq<char> {
        json_text(
            request_model(
                RequestView::AuthMessage {
                    key: self.client().credentials().key(),
                    secret: self.client().credentials().secret(),
                },
            ),
        )
    }

    /// Take in the text of one frame of the stream: every message that it
    /// carries, in order, none dropped; a frame without messages gives
    /// none.
    ///
    /// The first message of the stream must acknowledge the connection.
    /// The credentials are handed out with it, to be sent then and not
    /// before. Any other first message ends the stream: the client is
    /// stopped and the credentials are never handed out.
    ///
    /// # Errors
    ///
    /// - `Closed` once the stream has been stopped
    /// - `Decode` for a frame that cannot be read; the stream goes on
    /// - `UnexpectedConnectionMessage` with the first message of the
    ///   stream, where it is not the acknowledgement of the connection
    pub fn deliver(&mut self, text: &str) -> (delivery: Result<Delivery, Error>)
        ensures
            final(self).client().address() == old(self).client().address(),
            final(self).client().credentials() == old(self).client().credentials(),
            final(self).client().connected() == old(self).client().connected(),
            old(self).client().stopped() ==> delivery == Err::<Delivery, Error>(Error::Closed)
                && final(self).client().stopped() && final(self).greeted() == old(self).greeted(),
            !old(self).client().stopped() ==> match delivery {
                Ok(given) => exists|batch: Vec<StreamMessage>|
                    {
                        &&& is_frame_of(Ok(batch), parsed_json(text@))
                        &&& #[trigger] given.messages == batch
                        &&& old(self).greeted() || batch.len() == 0 || greets(batch@)
                        &&& final(self).greeted() == (old(self).greeted() || greets(batch@))
                        &&& !final(self).client().stopped()
                        &&& given.credentials.deep_view() == if !old(self).greeted() && greets(
                            batch@,
                        ) {
                            Some(old(self).credentials_frame())
                        } else {
                            None
                        }
                    },
                Err(Error::Decode(error)) => is_frame_of(Err(error), parsed_json(text@))
                    && !final(self).client().stopped() && final(self).greeted() == old(
                    self,
                ).greeted(),
                Err(Error::UnexpectedConnectionMessage(first)) => exists|batch: Vec<StreamMessage>|
                    {
                        &&& is_frame_of(Ok(batch), parsed_json(text@))
                        &&& batch.len() > 0
                        &&& #[trigger] batch[0] == first
                        &&& !greets(batch@)
                        &&& !old(self).greeted()
                        &&& !final(self).greeted()
                        &&& final(self).client().stopped()
                    },
                Err(_) => false,
            },
    {
        if self.streaming_client.is_shut_down() {
            return Err(Error::Closed);
        }
        let mut batch = match StockDataClient::messages(text) {
            Ok(batch) => batch,
            Err(error) => {
                return Err(Error::Decode(error));
            },
        };
        let ghost decoded = batch;
        if self.greeted || batch.len() == 0 {
            assert(is_frame_of(Ok(decoded), parsed_json(text@)) && batch == decoded);
            return Ok(Delivery { messages: batch, credentials: None });
        }
        match batch[0].control() {
            Some(ControlMessage::Connected) => {
                self.greeted = true;
                let credentials = encode_request(&self.streaming_client.auth_request());
                assert(is_frame_of(Ok(decoded), parsed_json(text@)) && batch == decoded);
                Ok(Delivery { messages: batch, credentials: Some(credentials) })
            },
            _ => {
                self.streaming_client.shutdown();
                let first = batch.remove(0);
                assert(is_frame_of(Ok(decoded), parsed_json(text@)) && decoded[0] == first);
                Err(Error::UnexpectedConnectionMessage(first))
            },
        }
    }

    /// The text frame that asks for `subscriptions`; `None` while the
    /// client underneath is not connected.
    pub fn subscribe(&mut self, subscriptions: SubscriptionList) -> (frame: Option<String>)
        ensures
            final(self).client() == old(self).client(),
            final(self).greeted() == old(self).greeted(),
            match frame {
                Some(text) => old(self).client().connected() && text@ == json_text(
                    request_model(RequestView::Subscribe(subscriptions.deep_view())),
                ),
                None => !old(self).client().connected(),
            },
    {
        self.streaming_client.send(Request::Subscribe(subscriptions))
    }

    /// Stops the stream of events
    pub fn shutdown(&mut self)
        ensures
            final(self).client().stopped(),
            final(self).client().address() == old(self).client().address(),
            final(self).client().credentials() == old(self).client().credentials(),
            final(self).client().connected() == old(self).client().connected(),
            final(self).greeted() == old(self).greeted(),
    {
        self.streaming_client.shutdown();
    }

    /// Take in one frame from the socket: what the client underneath
    /// makes of it.
    pub fn receive(&mut self, frame: Frame) -> (inbound: Inbound)
        ensures
            final(self).client().address() == old(self).client().address(),
            final(self).client().credentials() == old(self).client().credentials(),
            final(self).client().connected() == old(self).client().connected(),
            final(self).client().stopped() == (old(self).client().stopped() || frame is Close),
            final(self).greeted() == old(self).greeted(),
            is_translation(inbound, frame),
    {
        self.streaming_client.receive(frame)
    }

    /// Whether the stream has been stopped.
    pub fn is_shut_down(&self) -> (stopped: bool)
        ensures
            stopped == self.client().stopped(),
    {
        self.streaming_client.is_shut_down()
    }
}

/// Opens streams of stock prices.
pub struct StockDataClient {}

impl StockDataClient {
    /// The URL that the websocket for `feed` connects to.
    pub fn url(feed: &Feed) -> (url: &'static str)
        ensures
            url@ == MARKET_DATA_STREAM_HOST@,
    {
        MARKET_DATA_STREAM_HOST
    }

    /// Set up a stream once its websocket has been opened at
    /// [`StockDataClient::url`] and the server has answered with `status`:
    /// the handle on the stream. Nothing is sent yet: the credentials are
    /// handed out by [`StockPricingSubscription::deliver`] when the server
    /// has acknowledged the connection.
    ///
    /// # Errors
    ///
    /// - `UrlParse` where the URL of the feed does not parse
    /// - `UnexpectedStatus` where `status` is not 101
    pub fn connect(env: Env, feed: Feed, status: u16) -> (stream: Result<
        StockPricingSubscription,
        Error,
    >)
        ensures
            match parsed_url(MARKET_DATA_STREAM_HOST@) {
                None => stream matches Err(Error::UrlParse(_)),
                Some(text) => if status == SWITCHING_PROTOCOLS {
                    &&& stream matches Ok(subscription)
                    &&& url_text(subscription.client().address()) == text
                    &&& subscription.client().credentials() == env
                    &&& subscription.client().connected()
                    &&& !subscription.client().stopped()
                    &&& !subscription.greeted()
                } else {
                    stream == Err::<StockPricingSubscription, Error>(
                        Error::UnexpectedStatus(status),
                    )
                },
            },
    {
        let mut streaming_client = StreamingClient::new(env, StockDataClient::url(&feed))?;
        streaming_client.connect(status)?;
        Ok(StockPricingSubscription { streaming_client, greeted: false })
    }

    /// The messages that a text frame of the stream carries: all of them,
    /// in order. A frame without messages carries none.
    ///
    /// # Errors
    ///
    /// The errors of [`decode_frame`].
    pub fn messages(text: &str) -> (decoded: Result<Vec<StreamMessage>, DecodeError>)
        ensures
            is_frame_of(decoded, parsed_json(text@)),
    {
        decode_frame(text)
    }
}

} // verus!
