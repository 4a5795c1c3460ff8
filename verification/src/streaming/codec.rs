//! The wire grammar of the stream: which JSON stands for which message.
//!
//! A frame from the server is a JSON array of objects. The member `T` of
//! each object says what kind of message it is. A request is one JSON
//! object whose member `action` says what is asked.
//!
//! Members that the grammar does not name are ignored. An optional member
//! may be missing or null.

use vstd::prelude::*;
use serde_json::Value;
use crate::json::as_integer;
use crate::json::as_items;
use crate::json::as_text;
use crate::json::array_value;
use crate::json::empty_object;
use crate::json::insert_member;
use crate::json::is_null;
use crate::json::json_model;
use crate::json::json_text;
use crate::json::member;
use crate::json::models;
use crate::json::number_text;
use crate::json::parse;
use crate::json::parsed_json;
use crate::json::render;
use crate::json::text_value;
use crate::json::JsonModel;
use crate::streaming::stock_data::instant_of;
use crate::streaming::stock_data::Bar;
use crate::streaming::stock_data::BarView;
use crate::streaming::stock_data::ControlMessage;
use crate::streaming::stock_data::Error;
use crate::streaming::stock_data::Quote;
use crate::streaming::stock_data::QuoteView;
use crate::streaming::stock_data::Request;
use crate::streaming::stock_data::RequestView;
use crate::streaming::stock_data::StreamMessage;
use crate::streaming::stock_data::StreamMessageView;
use crate::streaming::stock_data::Timestamp;
use crate::streaming::stock_data::Trade;
use crate::streaming::stock_data::TradeView;
use crate::streaming::subscription::SubscriptionList;
use crate::streaming::subscription::trimmed;
use crate::streaming::subscription::Channel;
use crate::streaming::subscription::SubscriptionListing;
use crate::text::str_eq;

verus! {

/// Why a frame could not be read.
#[derive(Clone, Copy, Debug, PartialEq, Eq, Structural)]
pub enum DecodeError {
    /// The frame is not JSON.
    InvalidJson,
    /// The frame is JSON, but no array.
    NotABatch,
    /// The element at this place of the array is no message. The elements
    /// before it are.
    Malformed { index: usize },
}

/// The member of `json` under `key`, where `json` is an object that has
/// one.
pub open spec fn member_of(json: JsonModel, key: Seq<char>) -> Option<JsonModel> {
    match json {
        JsonModel::Object(members) => if members.contains_key(key) {
            Some(members[key])
        } else {
            None
        },
        _ => None,
    }
}

/// Whether `json` has nothing to say under `key`: no member, or null.
pub open spec fn absent(json: JsonModel, key: Seq<char>) -> bool {
    member_of(json, key) is None || member_of(json, key) == Some(JsonModel::Null)
}

/// The text under `key`, which must be there and be a string.
pub open spec fn text_at(json: JsonModel, key: Seq<char>) -> Option<Seq<char>> {
    match member_of(json, key) {
        Some(JsonModel::Str(text)) => Some(text),
        _ => None,
    }
}

/// The text under `key`, which may be absent; `None` where something
/// other than a string is there.
pub open spec fn optional_text_at(json: JsonModel, key: Seq<char>) -> Option<Option<Seq<char>>> {
    if absent(json, key) {
        Some(None)
    } else {
        match text_at(json, key) {
            Some(text) => Some(Some(text)),
            None => None,
        }
    }
}

/// The decimal text of the number under `key`, which must be there.
pub open spec fn number_at(json: JsonModel, key: Seq<char>) -> Option<Seq<char>> {
    match member_of(json, key) {
        Some(JsonModel::Number(number)) => Some(number.text),
        _ => None,
    }
}

/// The decimal text of the number under `key`, which may be absent;
/// `None` where something other than a number is there.
pub open spec fn optional_number_at(json: JsonModel, key: Seq<char>) -> Option<Option<Seq<char>>> {
    if absent(json, key) {
        Some(None)
    } else {
        match number_at(json, key) {
            Some(text) => Some(Some(text)),
            None => None,
        }
    }
}

/// The integer under `key`, which must be there and fit an `i64`.
pub open spec fn integer_at(json: JsonModel, key: Seq<char>) -> Option<i64> {
    match member_of(json, key) {
        Some(JsonModel::Number(number)) => number.integer,
        _ => None,
    }
}

/// The instant under `key`, which must be there as the text of a date
/// and time.
pub open spec fn instant_at(json: JsonModel, key: Seq<char>) -> Option<Timestamp> {
    match text_at(json, key) {
        Some(text) => instant_of(text),
        None => None,
    }
}

/// Whether every one of `elements` is a string.
pub open spec fn all_text(elements: Seq<JsonModel>) -> bool {
    forall|i: int| 0 <= i < elements.len() ==> (#[trigger] elements[i]) is Str
}

/// The texts of `elements`, which are all strings.
pub open spec fn texts_of(elements: Seq<JsonModel>) -> Seq<Seq<char>> {
    Seq::new(elements.len(), |i: int| elements[i]->Str_0)
}

/// The list of texts under `key`, which may be absent; `None` where
/// something other than an array of strings is there.
pub open spec fn optional_texts_at(json: JsonModel, key: Seq<char>) -> Option<
    Option<Seq<Seq<char>>>,
> {
    if absent(json, key) {
        Some(None)
    } else {
        match member_of(json, key) {
            Some(JsonModel::Array(elements)) => if all_text(elements) {
                Some(Some(texts_of(elements)))
            } else {
                None
            },
            _ => None,
        }
    }
}

/// The acknowledgement that `json` stands for: its member `msg` names it.
pub open spec fn control_of(json: JsonModel) -> Option<ControlMessage> {
    match text_at(json, "msg"@) {
        Some(name) => if name == "connected"@ {
            Some(ControlMessage::Connected)
        } else if name == "authenticated"@ {
            Some(ControlMessage::Authenticated)
        } else {
            None
        },
        None => None,
    }
}

/// The failure that `json` stands for: its member `code` is the number
/// of the failure.
pub open spec fn error_of(json: JsonModel) -> Option<Error> {
    match integer_at(json, "code"@) {
        Some(code) => Error::of_code(code as int),
        None => None,
    }
}

/// The subscriptions that `json` stands for: one optional list of
/// symbols per channel.
pub open spec fn listing_of(json: JsonModel) -> Option<SubscriptionListing> {
    match (
        optional_texts_at(json, Channel::Bars.wire_name()),
        optional_texts_at(json, Channel::DailyBars.wire_name()),
        optional_texts_at(json, Channel::UpdatedBars.wire_name()),
        optional_texts_at(json, Channel::Quotes.wire_name()),
        optional_texts_at(json, Channel::Trades.wire_name()),
        optional_texts_at(json, Channel::News.wire_name()),
    ) {
        (Some(bars), Some(daily_bars), Some(updated_bars), Some(quotes), Some(trades), Some(news)) => Some(
            SubscriptionListing { bars, daily_bars, updated_bars, quotes, trades, news },
        ),
        _ => None,
    }
}

/// The bar that `json` stands for.
pub open spec fn bar_of(json: JsonModel) -> Option<BarView> {
    match (
        text_at(json, "S"@),
        number_at(json, "o"@),
        number_at(json, "h"@),
        number_at(json, "l"@),
        number_at(json, "c"@),
        integer_at(json, "v"@),
        instant_at(json, "t"@),
    ) {
        (Some(symbol), Some(open), Some(high), Some(low), Some(close), Some(volume), Some(timestamp)) => Some(
            BarView { symbol, open, high, low, close, volume, timestamp },
        ),
        _ => None,
    }
}

/// The trade that `json` stands for.
pub open spec fn trade_of(json: JsonModel) -> Option<TradeView> {
    match (
        text_at(json, "S"@),
        integer_at(json, "i"@),
        optional_text_at(json, "x"@),
        number_at(json, "p"@),
        number_at(json, "s"@),
        instant_at(json, "t"@),
        optional_texts_at(json, "c"@),
        optional_text_at(json, "z"@),
    ) {
        (
            Some(symbol),
            Some(trade_id),
            Some(exchange),
            Some(price),
            Some(size),
            Some(timestamp),
            Some(conditions),
            Some(tape),
        ) => Some(
            TradeView { symbol, trade_id, exchange, price, size, timestamp, conditions, tape },
        ),
        _ => None,
    }
}

/// The quote that `json` stands for.
pub open spec fn quote_of(json: JsonModel) -> Option<QuoteView> {
    match (
        text_at(json, "S"@),
        optional_text_at(json, "ax"@),
        number_at(json, "ap"@),
        number_at(json, "as"@),
        optional_text_at(json, "bx"@),
        number_at(json, "bp"@),
        number_at(json, "bs"@),
        optional_number_at(json, "s"@),
        instant_at(json, "t"@),
        optional_text_at(json, "z"@),
    ) {
        (
            Some(symbol),
            Some(ask_exchange),
            Some(ask_price),
            Some(ask_size),
            Some(bid_exchange),
            Some(bid_price),
            Some(bid_size),
            Some(trade_size),
            Some(timestamp),
            Some(tape),
        ) => Some(
            QuoteView {
                symbol,
                ask_exchange,
                ask_price,
                ask_size,
                bid_exchange,
                bid_price,
                bid_size,
                trade_size,
                timestamp,
                tape,
            },
        ),
        _ => None,
    }
}

/// The message that `json` stands for, if it stands for one. The member
/// `T` tells the kind: `success`, `error`, `subscription`, `b` (minute
/// bar), `d` (daily bar), `u` (updated bar), `t` (trade) or `q` (quote).
pub open spec fn message_of(json: JsonModel) -> Option<StreamMessageView> {
    match text_at(json, "T"@) {
        None => None,
        Some(kind) => if kind == "success"@ {
            match control_of(json) {
                Some(msg) => Some(StreamMessageView::Control { msg }),
                None => None,
            }
        } else if kind == "error"@ {
            match error_of(json) {
                Some(error) => Some(StreamMessageView::Error(error)),
                None => None,
            }
        } else if kind == "subscription"@ {
            match listing_of(json) {
                Some(listing) => Some(StreamMessageView::Subscription(listing)),
                None => None,
            }
        } else if kind == "b"@ {
            match bar_of(json) {
                Some(bar) => Some(StreamMessageView::Bar(bar)),
                None => None,
            }
        } else if kind == "d"@ {
            match bar_of(json) {
                Some(bar) => Some(StreamMessageView::DailyBar(bar)),
                None => None,
            }
        } else if kind == "u"@ {
            match bar_of(json) {
                Some(bar) => Some(StreamMessageView::UpdatedBar(bar)),
                None => None,
            }
        } else if kind == "t"@ {
            match trade_of(json) {
                Some(trade) => Some(StreamMessageView::Trade(trade)),
                None => None,
            }
        } else if kind == "q"@ {
            match quote_of(json) {
                Some(quote) => Some(StreamMessageView::Quote(quote)),
                None => None,
            }
        } else {
            None
        },
    }
}

/// Whether `decoded` is what the batch `json` decodes to.
///
/// An array whose elements are all messages decodes to these messages, in
/// order. An array with an element that is no message is refused with the
/// place of the first such element. Anything but an array is refused as
/// no batch.
pub open spec fn is_batch_of(
    decoded: Result<Vec<StreamMessage>, DecodeError>,
    json: JsonModel,
) -> bool {
    match json {
        JsonModel::Array(elements) => match decoded {
            Ok(messages) => {
                &&& messages.len() == elements.len()
                &&& forall|i: int|
                    0 <= i < elements.len() ==> message_of(#[trigger] elements[i]) == Some(
                        messages[i].deep_view(),
                    )
            },
            Err(DecodeError::Malformed { index }) => {
                &&& index < elements.len()
                &&& message_of(elements[index as int]) is None
                &&& forall|i: int| 0 <= i < index ==> message_of(#[trigger] elements[i]) is Some
            },
            Err(_) => false,
        },
        _ => decoded == Err::<Vec<StreamMessage>, DecodeError>(DecodeError::NotABatch),
    }
}

/// Whether `decoded` is what a frame decodes to that parses as `parsed`.
pub open spec fn is_frame_of(
    decoded: Result<Vec<StreamMessage>, DecodeError>,
    parsed: Option<JsonModel>,
) -> bool {
    match parsed {
        Some(json) => is_batch_of(decoded, json),
        None => decoded == Err::<Vec<StreamMessage>, DecodeError>(DecodeError::InvalidJson),
    }
}

/// The member of `value` under `key`, unless there is none or it is null.
fn present<'a>(value: &'a Value, key: &str) -> (found: Option<&'a Value>)
    ensures
        absent(json_model(*value), key@) <==> found is None,
        found matches Some(v) ==> member_of(json_model(*value), key@) == Some(json_model(*v)),
{
    match member(value, key) {
        Some(found) => if is_null(found) {
            None
        } else {
            Some(found)
        },
        None => None,
    }
}

/// The text under `key`.
fn text_field(value: &Value, key: &str) -> (text: Option<String>)
    ensures
        text.deep_view() == text_at(json_model(*value), key@),
{
    match member(value, key) {
        Some(found) => match as_text(found) {
            Some(text) => Some(text.to_owned()),
            None => None,
        },
        None => None,
    }
}

/// The text under `key`, where there is any.
fn optional_text_field(value: &Value, key: &str) -> (text: Option<Option<String>>)
    ensures
        text.deep_view() == optional_text_at(json_model(*value), key@),
{
    match present(value, key) {
        None => Some(None),
        Some(found) => match as_text(found) {
            Some(text) => Some(Some(text.to_owned())),
            None => None,
        },
    }
}

/// The decimal text of the number under `key`.
fn number_field(value: &Value, key: &str) -> (text: Option<String>)
    ensures
        text.deep_view() == number_at(json_model(*value), key@),
{
    match member(value, key) {
        Some(found) => number_text(found),
        None => None,
    }
}

/// The decimal text of the number under `key`, where there is any.
fn optional_number_field(value: &Value, key: &str) -> (text: Option<Option<String>>)
    ensures
        text.deep_view() == optional_number_at(json_model(*value), key@),
{
    match present(value, key) {
        None => Some(None),
        Some(found) => match number_text(found) {
            Some(text) => Some(Some(text)),
            None => None,
        },
    }
}

/// The integer under `key`.
fn integer_field(value: &Value, key: &str) -> (integer: Option<i64>)
    ensures
        integer == integer_at(json_model(*value), key@),
{
    match member(value, key) {
        Some(found) => as_integer(found),
        None => None,
    }
}

/// The instant under `key`.
fn instant_field(value: &Value, key: &str) -> (instant: Option<Timestamp>)
    ensures
        instant == instant_at(json_model(*value), key@),
{
    match member(value, key) {
        Some(found) => match as_text(found) {
            Some(text) => Timestamp::parse(text),
            None => None,
        },
        None => None,
    }
}

/// The list of texts under `key`, where there is any.
fn optional_texts_field(value: &Value, key: &str) -> (texts: Option<Option<Vec<String>>>)
    ensures
        texts.deep_view() == optional_texts_at(json_model(*value), key@),
{
    let found = match present(value, key) {
        None => {
            return Some(None);
        },
        Some(found) => found,
    };
    let items = match as_items(found) {
        Some(items) => items,
        None => {
            return None;
        },
    };
    let ghost elements = models(items@);
    let mut texts: Vec<String> = Vec::new();
    let mut i: usize = 0;
    while i < items.len()
        invariant
            i <= items.len(),
            elements == models(items@),
            !absent(json_model(*value), key@),
            member_of(json_model(*value), key@) == Some(JsonModel::Array(elements)),
            texts.len() == i,
            forall|k: int| 0 <= k < i ==> (#[trigger] elements[k]) is Str,
            forall|k: int| 0 <= k < i ==> (#[trigger] texts[k])@ == elements[k]->Str_0,
        decreases items.len() - i,
    {
        assert(elements[i as int] == json_model(items[i as int]));
        match as_text(&items[i]) {
            Some(text) => {
                texts.push(text.to_owned());
            },
            None => {
                assert(!all_text(elements));
                return None;
            },
        }
        i += 1;
    }
    assert(all_text(elements));
    assert(texts.deep_view() =~= texts_of(elements));
    Some(Some(texts))
}

/// The acknowledgement that `value` stands for.
fn decode_control(value: &Value) -> (msg: Option<ControlMessage>)
    ensures
        msg == control_of(json_model(*value)),
{
    let name = text_field(value, "msg")?;
    if str_eq(name.as_str(), "connected") {
        Some(ControlMessage::Connected)
    } else if str_eq(name.as_str(), "authenticated") {
        Some(ControlMessage::Authenticated)
    } else {
        None
    }
}

/// The failure that `value` stands for.
fn decode_error(value: &Value) -> (error: Option<Error>)
    ensures
        error == error_of(json_model(*value)),
{
    let code = integer_field(value, "code")?;
    Error::from_code(code)
}

/// The subscriptions that `value` stands for.
fn decode_subscriptions(value: &Value) -> (list: Option<SubscriptionList>)
    ensures
        list.deep_view() == listing_of(json_model(*value)),
{
    let bars = optional_texts_field(value, Channel::Bars.as_str())?;
    let daily_bars = optional_texts_field(value, Channel::DailyBars.as_str())?;
    let updated_bars = optional_texts_field(value, Channel::UpdatedBars.as_str())?;
    let quotes = optional_texts_field(value, Channel::Quotes.as_str())?;
    let trades = optional_texts_field(value, Channel::Trades.as_str())?;
    let news = optional_texts_field(value, Channel::News.as_str())?;
    Some(SubscriptionList { bars, daily_bars, updated_bars, quotes, trades, news })
}

/// The bar that `value` stands for.
fn decode_bar(value: &Value) -> (bar: Option<Bar>)
    ensures
        bar.deep_view() == bar_of(json_model(*value)),
{
    let symbol = text_field(value, "S")?;
    let open = number_field(value, "o")?;
    let high = number_field(value, "h")?;
    let low = number_field(value, "l")?;
    let close = number_field(value, "c")?;
    let volume = integer_field(value, "v")?;
    let timestamp = instant_field(value, "t")?;
    Some(Bar { symbol, open, high, low, close, volume, timestamp })
}

/// The trade that `value` stands for.
fn decode_trade(value: &Value) -> (trade: Option<Trade>)
    ensures
        trade.deep_view() == trade_of(json_model(*value)),
{
    let symbol = text_field(value, "S")?;
    let trade_id = integer_field(value, "i")?;
    let exchange = optional_text_field(value, "x")?;
    let price = number_field(value, "p")?;
    let size = number_field(value, "s")?;
    let timestamp = instant_field(value, "t")?;
    let conditions = optional_texts_field(value, "c")?;
    let tape = optional_text_field(value, "z")?;
    Some(Trade { symbol, trade_id, exchange, price, size, timestamp, conditions, tape })
}

/// The quote that `value` stands for.
fn decode_quote(value: &Value) -> (quote: Option<Quote>)
    ensures
        quote.deep_view() == quote_of(json_model(*value)),
{
    let symbol = text_field(value, "S")?;
    let ask_exchange = optional_text_field(value, "ax")?;
    let ask_price = number_field(value, "ap")?;
    let ask_size = number_field(value, "as")?;
    let bid_exchange = optional_text_field(value, "bx")?;
    let bid_price = number_field(value, "bp")?;
    let bid_size = number_field(value, "bs")?;
    let trade_size = optional_number_field(value, "s")?;
    let timestamp = instant_field(value, "t")?;
    let tape = optional_text_field(value, "z")?;
    Some(
        Quote {
            symbol,
            ask_exchange,
            ask_price,
            ask_size,
            bid_exchange,
            bid_price,
            bid_size,
            trade_size,
            timestamp,
            tape,
        },
    )
}

/// Read one message from the JSON object that stands for it; `None`
/// where `value` stands for no message.
pub fn decode_message(value: &Value) -> (message: Option<StreamMessage>)
    ensures
        message.deep_view() == message_of(json_model(*value)),
{
    let kind = text_field(value, "T")?;
    let kind = kind.as_str();
    if str_eq(kind, "success") {
        let msg = decode_control(value)?;
        Some(StreamMessage::Control { msg })
    } else if str_eq(kind, "error") {
        let error = decode_error(value)?;
        Some(StreamMessage::Error(error))
    } else if str_eq(kind, "subscription") {
        let list = decode_subscriptions(value)?;
        Some(StreamMessage::Subscription(list))
    } else if str_eq(kind, "b") {
        let bar = decode_bar(value)?;
        Some(StreamMessage::Bar(bar))
    } else if str_eq(kind, "d") {
        let bar = decode_bar(value)?;
        Some(StreamMessage::DailyBar(bar))
    } else if str_eq(kind, "u") {
        let bar = decode_bar(value)?;
        Some(StreamMessage::UpdatedBar(bar))
    } else if str_eq(kind, "t") {
        let trade = decode_trade(value)?;
        Some(StreamMessage::Trade(trade))
    } else if str_eq(kind, "q") {
        let quote = decode_quote(value)?;
        Some(StreamMessage::Quote(quote))
    } else {
        None
    }
}

/// Read the messages of a batch from the JSON array that stands for it.
///
/// # Errors
/// `NotABatch` where `value` is no array; `Malformed` with the place of
/// the first element that stands for no message.
pub fn decode_batch(value: &Value) -> (decoded: Result<Vec<StreamMessage>, DecodeError>)
    ensures
        is_batch_of(decoded, json_model(*value)),
{
    let items = match as_items(value) {
        Some(items) => items,
        None => {
            return Err(DecodeError::NotABatch);
        },
    };
    let ghost elements = models(items@);
    let mut messages: Vec<StreamMessage> = Vec::new();
    let mut i: usize = 0;
    while i < items.len()
        invariant
            i <= items.len(),
            elements == models(items@),
            json_model(*value) == JsonModel::Array(elements),
            messages.len() == i,
            forall|k: int|
                0 <= k < i ==> message_of(#[trigger] elements[k]) == Some(messages[k].deep_view()),
        decreases items.len() - i,
    {
        assert(elements[i as int] == json_model(items[i as int]));
        match decode_message(&items[i]) {
            Some(message) => {
                messages.push(message);
            },
            None => {
                return Err(DecodeError::Malformed { index: i });
            },
        }
        i += 1;
    }
    Ok(messages)
}

/// Read the messages of a frame from its text.
///
/// # Errors
/// `InvalidJson` where the text is not JSON, and the errors of
/// [`decode_batch`].
pub fn decode_frame(text: &str) -> (decoded: Result<Vec<StreamMessage>, DecodeError>)
    ensures
        is_frame_of(decoded, parsed_json(text@)),
{
    match parse(text) {
        Some(value) => decode_batch(&value),
        None => Err(DecodeError::InvalidJson),
    }
}

/// The JSON array of these symbols.
pub open spec fn symbols_model(symbols: Seq<Seq<char>>) -> JsonModel {
    JsonModel::Array(Seq::new(symbols.len(), |i: int| JsonModel::Str(symbols[i])))
}

/// The members of a request with the symbols of one channel added under
/// `key`. A channel that is absent, or lists nothing, adds no member.
pub open spec fn with_channel(
    members: Map<Seq<char>, JsonModel>,
    key: Seq<char>,
    channel: Option<Seq<Seq<char>>>,
) -> Map<Seq<char>, JsonModel> {
    match channel {
        Some(symbols) => if symbols.len() > 0 {
            members.insert(key, symbols_model(symbols))
        } else {
            members
        },
        None => members,
    }
}

/// The members of a request with every channel of `listing` added.
pub open spec fn with_listing(
    members: Map<Seq<char>, JsonModel>,
    listing: SubscriptionListing,
) -> Map<Seq<char>, JsonModel> {
    let members = with_channel(members, Channel::Bars.wire_name(), listing.bars);
    let members = with_channel(members, Channel::DailyBars.wire_name(), listing.daily_bars);
    let members = with_channel(members, Channel::UpdatedBars.wire_name(), listing.updated_bars);
    let members = with_channel(members, Channel::Quotes.wire_name(), listing.quotes);
    let members = with_channel(members, Channel::Trades.wire_name(), listing.trades);
    with_channel(members, Channel::News.wire_name(), listing.news)
}

/// The members of a request that says only what is asked.
pub open spec fn action(name: Seq<char>) -> Map<Seq<char>, JsonModel> {
    Map::empty().insert("action"@, JsonModel::Str(name))
}

/// The JSON object that stands for `request`.
///
/// The member `action` is `auth`, `subscribe` or `unsubscribe`. The
/// credentials go under `key` and `secret`; the symbols of each channel
/// that lists any go under the name of the channel.
pub open spec fn request_model(request: RequestView) -> JsonModel {
    match request {
        RequestView::AuthMessage { key, secret } => JsonModel::Object(
            action("auth"@).insert("key"@, JsonModel::Str(key)).insert(
                "secret"@,
                JsonModel::Str(secret),
            ),
        ),
        RequestView::Subscribe(listing) => JsonModel::Object(
            with_listing(action("subscribe"@), listing),
        ),
        RequestView::Unsubscribe(listing) => JsonModel::Object(
            with_listing(action("unsubscribe"@), listing),
        ),
    }
}

/// The JSON array of `symbols`.
fn symbols_value(symbols: &Vec<String>) -> (value: Value)
    ensures
        json_model(value) == symbols_model(symbols.deep_view()),
{
    let mut items: Vec<Value> = Vec::new();
    let mut i: usize = 0;
    while i < symbols.len()
        invariant
            i <= symbols.len(),
            items.len() == i,
            forall|k: int| 0 <= k < i ==> json_model(#[trigger] items[k]) == JsonModel::Str(symbols[k]@),
        decreases symbols.len() - i,
    {
        items.push(text_value(symbols[i].as_str()));
        i += 1;
    }
    assert(models(items@) =~= Seq::new(
        symbols.deep_view().len(),
        |i: int| JsonModel::Str(symbols.deep_view()[i]),
    ));
    array_value(items)
}

/// Add the symbols of one channel to a request under `key`.
fn insert_channel(object: &mut Value, key: &str, channel: &Option<Vec<String>>)
    requires
        json_model(*old(object)) is Object,
    ensures
        json_model(*final(object)) == JsonModel::Object(
            with_channel(json_model(*old(object))->Object_0, key@, channel.deep_view()),
        ),
{
    match channel {
        Some(symbols) => {
            if symbols.len() > 0 {
                insert_member(object, key, symbols_value(symbols));
            }
        },
        None => {},
    }
}

/// Add every channel of `list` to a request.
fn insert_listing(object: &mut Value, list: &SubscriptionList)
    requires
        json_model(*old(object)) is Object,
    ensures
        json_model(*final(object)) == JsonModel::Object(
            with_listing(json_model(*old(object))->Object_0, list.deep_view()),
        ),
{
    insert_channel(object, Channel::Bars.as_str(), &list.bars);
    insert_channel(object, Channel::DailyBars.as_str(), &list.daily_bars);
    insert_channel(object, Channel::UpdatedBars.as_str(), &list.updated_bars);
    insert_channel(object, Channel::Quotes.as_str(), &list.quotes);
    insert_channel(object, Channel::Trades.as_str(), &list.trades);
    insert_channel(object, Channel::News.as_str(), &list.news);
}

/// The JSON object that stands for `request`.
pub fn request_value(request: &Request) -> (value: Value)
    ensures
        json_model(value) == request_model(request.deep_view()),
{
    let mut object = empty_object();
    match request {
        Request::AuthMessage { key, secret } => {
            insert_member(&mut object, "action", text_value("auth"));
            insert_member(&mut object, "key", text_value(key.as_str()));
            insert_member(&mut object, "secret", text_value(secret.as_str()));
        },
        Request::Subscribe(list) => {
            insert_member(&mut object, "action", text_value("subscribe"));
            insert_listing(&mut object, list);
        },
        Request::Unsubscribe(list) => {
            insert_member(&mut object, "action", text_value("unsubscribe"));
            insert_listing(&mut object, list);
        },
    }
    object
}

/// The text of the frame that carries `request`.
pub fn encode_request(request: &Request) -> (text: String)
    ensures
        text@ == json_text(request_model(request.deep_view())),
{
    let value = request_value(request);
    render(&value)
}

/// The acknowledgement of a change of subscriptions, as a server writes
/// it that names each channel as the requests do.
pub open spec fn acknowledgement(listing: SubscriptionListing) -> JsonModel {
    JsonModel::Object(
        with_listing(Map::empty().insert("T"@, JsonModel::Str("subscription"@)), listing),
    )
}

/// The symbols under `key` are read back as they were written.
proof fn lemma_channel_round_trip(
    members: Map<Seq<char>, JsonModel>,
    key: Seq<char>,
    channel: Option<Seq<Seq<char>>>,
)
    requires
        !members.contains_key(key),
    ensures
        optional_texts_at(JsonModel::Object(with_channel(members, key, channel)), key) == Some(
            trimmed(channel),
        ),
{
    if let Some(symbols) = channel {
        if symbols.len() > 0 {
            let elements = symbols_model(symbols)->Array_0;
            assert(all_text(elements));
            assert(texts_of(elements) =~= symbols);
        }
    }
}

/// A request and the acknowledgement of it agree on what is subscribed:
/// the acknowledgement that carries the channels of a listing decodes to
/// that listing, less the channels that list nothing, and so to the same
/// subscription set.
pub proof fn lemma_subscription_round_trip(listing: SubscriptionListing)
    ensures
        message_of(acknowledgement(listing)) == Some(
            StreamMessageView::Subscription(listing.trimmed()),
        ),
        listing.trimmed().set() == listing.set(),
{
    reveal_strlit("T");
    reveal_strlit("bars");
    reveal_strlit("dailyBars");
    reveal_strlit("updatedBars");
    reveal_strlit("quotes");
    reveal_strlit("trades");
    reveal_strlit("news");
    reveal_strlit("subscription");
    reveal_strlit("success");
    reveal_strlit("error");
    assert("T"@.len() == 1);
    assert("bars"@.len() == 4);
    assert("dailyBars"@.len() == 9);
    assert("updatedBars"@.len() == 11);
    assert("quotes"@.len() == 6);
    assert("trades"@.len() == 6);
    assert("news"@.len() == 4);
    assert("bars"@[0] == 'b');
    assert("news"@[0] == 'n');
    assert("quotes"@[0] == 'q');
    assert("trades"@[0] == 't');
    assert("subscription"@.len() == 12);
    assert("success"@.len() == 7);
    assert("error"@.len() == 5);
    let kind = Map::<Seq<char>, JsonModel>::empty().insert("T"@, JsonModel::Str("subscription"@));
    let m1 = with_channel(kind, "bars"@, listing.bars);
    let m2 = with_channel(m1, "dailyBars"@, listing.daily_bars);
    let m3 = with_channel(m2, "updatedBars"@, listing.updated_bars);
    let m4 = with_channel(m3, "quotes"@, listing.quotes);
    let m5 = with_channel(m4, "trades"@, listing.trades);
    let m6 = with_channel(m5, "news"@, listing.news);
    let json = JsonModel::Object(m6);
    assert(json == acknowledgement(listing));
    lemma_channel_round_trip(kind, "bars"@, listing.bars);
    lemma_channel_round_trip(m1, "dailyBars"@, listing.daily_bars);
    lemma_channel_round_trip(m2, "updatedBars"@, listing.updated_bars);
    lemma_channel_round_trip(m3, "quotes"@, listing.quotes);
    lemma_channel_round_trip(m4, "trades"@, listing.trades);
    lemma_channel_round_trip(m5, "news"@, listing.news);
    assert(optional_texts_at(json, "bars"@) == optional_texts_at(JsonModel::Object(m1), "bars"@));
    assert(optional_texts_at(json, "dailyBars"@) == optional_texts_at(
        JsonModel::Object(m2),
        "dailyBars"@,
    ));
    assert(optional_texts_at(json, "updatedBars"@) == optional_texts_at(
        JsonModel::Object(m3),
        "updatedBars"@,
    ));
    assert(optional_texts_at(json, "quotes"@) == optional_texts_at(
        JsonModel::Object(m4),
        "quotes"@,
    ));
    assert(optional_texts_at(json, "trades"@) == optional_texts_at(
        JsonModel::Object(m5),
        "trades"@,
    ));
    assert(text_at(json, "T"@) == Some("subscription"@));
    listing.lemma_trimmed_is_same_set();
}

} // verus!
