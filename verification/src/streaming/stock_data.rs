//! The messages of the stock data stream.

use vstd::prelude::*;
pub use crate::streaming::subscription::SubscriptionList;
use crate::streaming::subscription::SubscriptionListing;

verus! {

/// Acknowledgements of the two steps of the handshake.
#[derive(Clone, Copy, Debug, PartialEq, Eq, Structural)]
pub enum ControlMessage {
    /// The connection is open.
    Connected,
    /// The credentials were accepted.
    Authenticated,
}

/// A failure that the server reports in the stream.
#[derive(Clone, Copy, Debug, PartialEq, Eq, Structural)]
pub enum Error {
    /// Code 400: the request did not parse.
    InvalidSyntax,
    /// Code 401: a request came before the credentials.
    NotAuthenticated,
    /// Code 402: the credentials were refused.
    AuthFailed,
    /// Code 403: the credentials were sent twice.
    AlreadyAuthorized,
}

impl Error {
    /// The numeric code that stands for this failure on the wire.
    pub open spec fn wire_code(self) -> int {
        match self {
            Error::InvalidSyntax => 400,
            Error::NotAuthenticated => 401,
            Error::AuthFailed => 402,
            Error::AlreadyAuthorized => 403,
        }
    }

    /// The failure that `code` stands for, if it stands for one.
    pub open spec fn of_code(code: int) -> Option<Error> {
        if code == 400 {
            Some(Error::InvalidSyntax)
        } else if code == 401 {
            Some(Error::NotAuthenticated)
        } else if code == 402 {
            Some(Error::AuthFailed)
        } else if code == 403 {
            Some(Error::AlreadyAuthorized)
        } else {
            None
        }
    }

    /// The numeric code that stands for this failure on the wire.
    pub fn code(&self) -> (code: i64)
        ensures
            code == self.wire_code(),
    {
        match self {
            Error::InvalidSyntax => 400,
            Error::NotAuthenticated => 401,
            Error::AuthFailed => 402,
            Error::AlreadyAuthorized => 403,
        }
    }

    /// The failure that `code` stands for; `None` for any other number.
    pub fn from_code(code: i64) -> (error: Option<Error>)
        ensures
            error == Error::of_code(code as int),
    {
        if code == 400 {
            Some(Error::InvalidSyntax)
        } else if code == 401 {
            Some(Error::NotAuthenticated)
        } else if code == 402 {
            Some(Error::AuthFailed)
        } else if code == 403 {
            Some(Error::AlreadyAuthorized)
        } else {
            None
        }
    }

    /// Every failure is found again from its code, and a code that stands
    /// for a failure is the code of that failure.
    pub proof fn lemma_code_round_trip(error: Error, code: int)
        ensures
            Error::of_code(error.wire_code()) == Some(error),
            Error::of_code(code) matches Some(e) ==> e.wire_code() == code,
    {
    }
}

/// An instant: whole seconds since the Unix epoch and the nanoseconds
/// past that second.
#[derive(Clone, Copy, Debug, PartialEq, Eq, Structural)]
pub struct Timestamp {
    /// Seconds since 1970-01-01T00:00:00Z, leap seconds not counted.
    pub seconds: i64,
    /// Nanoseconds since the last second boundary.
    pub nanos: u32,
}

/// What `chrono` reads from `text` as a date and time with an offset, in
/// its relaxed form of RFC 3339: the seconds since the Unix epoch and the
/// nanoseconds past that second; `None` where the text is no such date
/// and time.
pub uninterp spec fn timestamp_of(text: Seq<char>) -> Option<(i64, u32)>;

/// The instant that `text` names, if it names one.
pub open spec fn instant_of(text: Seq<char>) -> Option<Timestamp> {
    match timestamp_of(text) {
        Some((seconds, nanos)) => Some(Timestamp { seconds, nanos }),
        None => None,
    }
}

/// `chrono`'s `FromStr` for `DateTime<FixedOffset>`, with `timestamp` and
/// `timestamp_subsec_nanos` of what it read.
#[verifier::external_body]
pub(crate) fn parse_timestamp(text: &str) -> (instant: Option<(i64, u32)>)
    ensures
        instant == timestamp_of(text@),
{
    match text.parse::<chrono::DateTime<chrono::FixedOffset>>() {
        Ok(read) => Some((read.timestamp(), read.timestamp_subsec_nanos())),
        Err(_) => None,
    }
}

/// The text that `chrono` writes for the instant `seconds` and `nanos`
/// past the Unix epoch, as RFC 3339 with `Z` for the offset and as many
/// digits of a second as the instant needs: `None` where no date and time
/// is that far from the epoch.
pub uninterp spec fn timestamp_text(seconds: i64, nanos: u32) -> Option<Seq<char>>;

/// `chrono`'s `DateTime::from_timestamp`, written by `to_rfc3339_opts`
/// with `SecondsFormat::AutoSi` and `Z`.
#[verifier::external_body]
pub(crate) fn format_timestamp(seconds: i64, nanos: u32) -> (text: Option<String>)
    ensures
        text.deep_view() == timestamp_text(seconds, nanos),
{
    match chrono::DateTime::from_timestamp(seconds, nanos) {
        Some(instant) => Some(instant.to_rfc3339_opts(chrono::SecondsFormat::AutoSi, true)),
        None => None,
    }
}

impl Timestamp {
    /// The text of this instant, if a date and time can name it.
    pub open spec fn text(self) -> Option<Seq<char>> {
        timestamp_text(self.seconds, self.nanos)
    }

    /// Write this instant as a date and time in UTC, as RFC 3339 writes
    /// it; `None` where the instant is out of the range of dates.
    pub fn format(&self) -> (text: Option<String>)
        ensures
            text.deep_view() == self.text(),
    {
        format_timestamp(self.seconds, self.nanos)
    }

    /// Read an instant from its text, a date and time with an offset as
    /// RFC 3339 writes it.
    pub fn parse(text: &str) -> (instant: Option<Timestamp>)
        ensures
            instant == instant_of(text@),
    {
        match parse_timestamp(text) {
            Some((seconds, nanos)) => Some(Timestamp { seconds, nanos }),
            None => None,
        }
    }
}

/// A price bar. Prices are kept as the decimal text of the number.
#[derive(Clone, Debug, PartialEq, Eq)]
pub struct Bar {
    pub symbol: String,
    pub open: String,
    pub high: String,
    pub low: String,
    pub close: String,
    pub volume: i64,
    pub timestamp: Timestamp,
}

/// What a [`Bar`] holds.
pub ghost struct BarView {
    pub symbol: Seq<char>,
    pub open: Seq<char>,
    pub high: Seq<char>,
    pub low: Seq<char>,
    pub close: Seq<char>,
    pub volume: i64,
    pub timestamp: Timestamp,
}

impl DeepView for Bar {
    type V = BarView;

    open spec fn deep_view(&self) -> BarView {
        BarView {
            symbol: self.symbol@,
            open: self.open@,
            high: self.high@,
            low: self.low@,
            close: self.close@,
            volume: self.volume,
            timestamp: self.timestamp,
        }
    }
}

/// A quote. Prices and sizes are kept as the decimal text of the number.
#[derive(Clone, Debug, PartialEq, Eq)]
pub struct Quote {
    pub symbol: String,
    pub ask_exchange: Option<String>,
    pub ask_price: String,
    pub ask_size: String,
    pub bid_exchange: Option<String>,
    pub bid_price: String,
    pub bid_size: String,
    pub trade_size: Option<String>,
    pub timestamp: Timestamp,
    pub tape: Option<String>,
}

/// What a [`Quote`] holds.
pub ghost struct QuoteView {
    pub symbol: Seq<char>,
    pub ask_exchange: Option<Seq<char>>,
    pub ask_price: Seq<char>,
    pub ask_size: Seq<char>,
    pub bid_exchange: Option<Seq<char>>,
    pub bid_price: Seq<char>,
    pub bid_size: Seq<char>,
    pub trade_size: Option<Seq<char>>,
    pub timestamp: Timestamp,
    pub tape: Option<Seq<char>>,
}

impl DeepView for Quote {
    type V = QuoteView;

    open spec fn deep_view(&self) -> QuoteView {
        QuoteView {
            symbol: self.symbol@,
            ask_exchange: self.ask_exchange.deep_view(),
            ask_price: self.ask_price@,
            ask_size: self.ask_size@,
            bid_exchange: self.bid_exchange.deep_view(),
            bid_price: self.bid_price@,
            bid_size: self.bid_size@,
            trade_size: self.trade_size.deep_view(),
            timestamp: self.timestamp,
            tape: self.tape.deep_view(),
        }
    }
}

/// A trade. Price and size are kept as the decimal text of the number.
#[derive(Clone, Debug, PartialEq, Eq)]
pub struct Trade {
    pub symbol: String,
    pub trade_id: i64,
    pub exchange: Option<String>,
    pub price: String,
    pub size: String,
    pub timestamp: Timestamp,
    pub conditions: Option<Vec<String>>,
    pub tape: Option<String>,
}

/// What a [`Trade`] holds.
pub ghost struct TradeView {
    pub symbol: Seq<char>,
    pub trade_id: i64,
    pub exchange: Option<Seq<char>>,
    pub price: Seq<char>,
    pub size: Seq<char>,
    pub timestamp: Timestamp,
    pub conditions: Option<Seq<Seq<char>>>,
    pub tape: Option<Seq<char>>,
}

impl DeepView for Trade {
    type V = TradeView;

    open spec fn deep_view(&self) -> TradeView {
        TradeView {
            symbol: self.symbol@,
            trade_id: self.trade_id,
            exchange: self.exchange.deep_view(),
            price: self.price@,
            size: self.size@,
            timestamp: self.timestamp,
            conditions: self.conditions.deep_view(),
            tape: self.tape.deep_view(),
        }
    }
}

/// The messages that the server sends.
#[derive(Clone, Debug, PartialEq, Eq)]
pub enum StreamMessage {
    /// Acknowledges a step of the handshake; the session consumes it.
    Control { msg: ControlMessage },
    /// A failure reported by the feed.
    Error(Error),
    /// The complete set of subscriptions after a change.
    Subscription(SubscriptionList),
    /// A minute bar
    Bar(Bar),
    /// A daily bar
    DailyBar(Bar),
    /// An updated bar
    UpdatedBar(Bar),
    /// A trade
    Trade(Trade),
    /// A quote
    Quote(Quote),
}

/// What a [`StreamMessage`] holds.
pub ghost enum StreamMessageView {
    Control { msg: ControlMessage },
    Error(Error),
    Subscription(SubscriptionListing),
    Bar(BarView),
    DailyBar(BarView),
    UpdatedBar(BarView),
    Trade(TradeView),
    Quote(QuoteView),
}

impl DeepView for StreamMessage {
    type V = StreamMessageView;

    open spec fn deep_view(&self) -> StreamMessageView {
        match *self {
            StreamMessage::Control { msg } => StreamMessageView::Control { msg },
            StreamMessage::Error(error) => StreamMessageView::Error(error),
            StreamMessage::Subscription(list) => StreamMessageView::Subscription(list.deep_view()),
            StreamMessage::Bar(bar) => StreamMessageView::Bar(bar.deep_view()),
            StreamMessage::DailyBar(bar) => StreamMessageView::DailyBar(bar.deep_view()),
            StreamMessage::UpdatedBar(bar) => StreamMessageView::UpdatedBar(bar.deep_view()),
            StreamMessage::Trade(trade) => StreamMessageView::Trade(trade.deep_view()),
            StreamMessage::Quote(quote) => StreamMessageView::Quote(quote.deep_view()),
        }
    }
}

impl StreamMessage {
    /// The acknowledgement that this message carries, if it is one.
    pub open spec fn control_of(self) -> Option<ControlMessage> {
        match self {
            StreamMessage::Control { msg } => Some(msg),
            _ => None,
        }
    }

    /// Whether the caller of the session gets to see this message: market
    /// data and failures of the feed, but no acknowledgement.
    pub open spec fn is_data(self) -> bool {
        match self {
            StreamMessage::Control { .. } => false,
            StreamMessage::Subscription(_) => false,
            _ => true,
        }
    }

    /// The acknowledgement that this message carries, if it is one.
    pub fn control(&self) -> (msg: Option<ControlMessage>)
        ensures
            msg == self.control_of(),
    {
        match self {
            StreamMessage::Control { msg } => Some(*msg),
            _ => None,
        }
    }
}

/// The requests that the client sends.
///
/// A request can hold the credentials, so it has no `Debug`: what goes
/// into a log is up to the caller.
#[derive(Clone, PartialEq, Eq)]
pub enum Request {
    /// The credentials, sent once the server has acknowledged the connection.
    AuthMessage { key: String, secret: String },
    /// Ask for more subscriptions.
    Subscribe(SubscriptionList),
    /// Ask for fewer subscriptions.
    Unsubscribe(SubscriptionList),
}

/// What a [`Request`] holds.
pub ghost enum RequestView {
    AuthMessage { key: Seq<char>, secret: Seq<char> },
    Subscribe(SubscriptionListing),
    Unsubscribe(SubscriptionListing),
}

impl DeepView for Request {
    type V = RequestView;

    open spec fn deep_view(&self) -> RequestView {
        match *self {
            Request::AuthMessage { key, secret } => RequestView::AuthMessage {
                key: key@,
                secret: secret@,
            },
            Request::Subscribe(list) => RequestView::Subscribe(list.deep_view()),
            Request::Unsubscribe(list) => RequestView::Unsubscribe(list.deep_view()),
        }
    }
}

} // verus!
