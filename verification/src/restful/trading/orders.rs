//! The vocabulary of orders.

use vstd::prelude::*;
use crate::json::json_text;
use crate::json::render;
use crate::json::text_value;
use crate::json::JsonModel;
use crate::text::str_eq;

verus! {

/// Side determines whether an order is a buy or sell order
#[derive(Clone, Copy, Debug, PartialEq, Eq, Structural)]
pub enum Side {
    /// Purchase an asset, or exit a short position
    Buy,
    /// Sell an asset, or enter a short position
    Sell,
}

impl Side {
    /// The name that stands for this value on the wire.
    pub open spec fn wire_name(self) -> Seq<char> {
        match self {
            Side::Buy => "buy"@,
            Side::Sell => "sell"@,
        }
    }

    /// The value that `name` stands for on the wire, if it stands for one.
    pub open spec fn of_wire_name(name: Seq<char>) -> Option<Side> {
        if name == "buy"@ {
            Some(Side::Buy)
        } else if name == "sell"@ {
            Some(Side::Sell)
        } else {
            None
        }
    }

    /// The name that stands for this value on the wire.
    pub fn as_str(&self) -> (name: &'static str)
        ensures
            name@ == self.wire_name(),
    {
        match self {
            Side::Buy => "buy",
            Side::Sell => "sell",
        }
    }

    /// The value that `name` stands for on the wire; `None` for any other
    /// text.
    pub fn parse(name: &str) -> (value: Option<Side>)
        ensures
            value == Side::of_wire_name(name@),
    {
        if str_eq(name, "buy") {
            Some(Side::Buy)
        } else if str_eq(name, "sell") {
            Some(Side::Sell)
        } else {
            None
        }
    }

    /// Every value is read back from its own wire name: no two values
    /// share a name.
    pub proof fn lemma_wire_name_round_trip(value: Side)
        ensures
            Side::of_wire_name(value.wire_name()) == Some(value),
    {
        reveal_strlit("buy");
        reveal_strlit("sell");
        assert("buy"@.len() == 3);
        assert("sell"@.len() == 4);
    }
}

/// Order type determines how an order should be executed
#[derive(Clone, Copy, Debug, PartialEq, Eq, Structural)]
pub enum OrderType {
    /// Execute as quickly as possible at the current market price.
    Market,
    /// Execute at a specific price or better.
    Limit,
    /// Execute as market order when a specific price is reached.
    Stop,
    /// Execute as limit order when a specific price is reached.
    StopLimit,
    /// Conditional order which automatically adjusts the stop price based on the market price.
    TrailingStop,
}

impl OrderType {
    /// The name that stands for this value on the wire.
    pub open spec fn wire_name(self) -> Seq<char> {
        match self {
            OrderType::Market => "market"@,
            OrderType::Limit => "limit"@,
            OrderType::Stop => "stop"@,
            OrderType::StopLimit => "stoplimit"@,
            OrderType::TrailingStop => "trailingstop"@,
        }
    }

    /// The value that `name` stands for on the wire, if it stands for one.
    pub open spec fn of_wire_name(name: Seq<char>) -> Option<OrderType> {
        if name == "market"@ {
            Some(OrderType::Market)
        } else if name == "limit"@ {
            Some(OrderType::Limit)
        } else if name == "stop"@ {
            Some(OrderType::Stop)
        } else if name == "stoplimit"@ {
            Some(OrderType::StopLimit)
        } else if name == "trailingstop"@ {
            Some(OrderType::TrailingStop)
        } else {
            None
        }
    }

    /// The name that stands for this value on the wire.
    pub fn as_str(&self) -> (name: &'static str)
        ensures
            name@ == self.wire_name(),
    {
        match self {
            OrderType::Market => "market",
            OrderType::Limit => "limit",
            OrderType::Stop => "stop",
            OrderType::StopLimit => "stoplimit",
            OrderType::TrailingStop => "trailingstop",
        }
    }

    /// The value that `name` stands for on the wire; `None` for any other
    /// text.
    pub fn parse(name: &str) -> (value: Option<OrderType>)
        ensures
            value == OrderType::of_wire_name(name@),
    {
        if str_eq(name, "market") {
            Some(OrderType::Market)
        } else if str_eq(name, "limit") {
            Some(OrderType::Limit)
        } else if str_eq(name, "stop") {
            Some(OrderType::Stop)
        } else if str_eq(name, "stoplimit") {
            Some(OrderType::StopLimit)
        } else if str_eq(name, "trailingstop") {
            Some(OrderType::TrailingStop)
        } else {
            None
        }
    }

    /// Every value is read back from its own wire name: no two values
    /// share a name.
    pub proof fn lemma_wire_name_round_trip(value: OrderType)
        ensures
            OrderType::of_wire_name(value.wire_name()) == Some(value),
    {
        reveal_strlit("market");
        reveal_strlit("limit");
        reveal_strlit("stop");
        reveal_strlit("stoplimit");
        reveal_strlit("trailingstop");
        assert("market"@.len() == 6);
        assert("limit"@.len() == 5);
        assert("stop"@.len() == 4);
        assert("stoplimit"@.len() == 9);
        assert("trailingstop"@.len() == 12);
    }
}

/// Time in force determines how long an order should remain active
#[derive(Clone, Copy, Debug, PartialEq, Eq, Structural)]
pub enum TimeInForce {
    /// A day order is eligible for execution only on the day it is live.
    Day,
    /// A good-till-canceled order remains active until it is either filled or manually cancelled.
    GoodTilCanceled,
    /// Eligible to execute only in the market opening auction.
    OPG,
    /// Eligible to execute only in the market closing auction.
    CLS,
    /// Immediate or cancel: what cannot be filled at once is cancelled.
    IOC,
    /// Fill or kill: filled in full at once, or cancelled.
    FOK,
}

impl TimeInForce {
    /// The name that stands for this value on the wire.
    pub open spec fn wire_name(self) -> Seq<char> {
        match self {
            TimeInForce::Day => "day"@,
            TimeInForce::GoodTilCanceled => "gtc"@,
            TimeInForce::OPG => "opg"@,
            TimeInForce::CLS => "cls"@,
            TimeInForce::IOC => "ioc"@,
            TimeInForce::FOK => "fok"@,
        }
    }

    /// The value that `name` stands for on the wire, if it stands for one.
    pub open spec fn of_wire_name(name: Seq<char>) -> Option<TimeInForce> {
        if name == "day"@ {
            Some(TimeInForce::Day)
        } else if name == "gtc"@ {
            Some(TimeInForce::GoodTilCanceled)
        } else if name == "opg"@ {
            Some(TimeInForce::OPG)
        } else if name == "cls"@ {
            Some(TimeInForce::CLS)
        } else if name == "ioc"@ {
            Some(TimeInForce::IOC)
        } else if name == "fok"@ {
            Some(TimeInForce::FOK)
        } else {
            None
        }
    }

    /// The name that stands for this value on the wire.
    pub fn as_str(&self) -> (name: &'static str)
        ensures
            name@ == self.wire_name(),
    {
        match self {
            TimeInForce::Day => "day",
            TimeInForce::GoodTilCanceled => "gtc",
            TimeInForce::OPG => "opg",
            TimeInForce::CLS => "cls",
            TimeInForce::IOC => "ioc",
            TimeInForce::FOK => "fok",
        }
    }

    /// The value that `name` stands for on the wire; `None` for any other
    /// text.
    pub fn parse(name: &str) -> (value: Option<TimeInForce>)
        ensures
            value == TimeInForce::of_wire_name(name@),
    {
        if str_eq(name, "day") {
            Some(TimeInForce::Day)
        } else if str_eq(name, "gtc") {
            Some(TimeInForce::GoodTilCanceled)
        } else if str_eq(name, "opg") {
            Some(TimeInForce::OPG)
        } else if str_eq(name, "cls") {
            Some(TimeInForce::CLS)
        } else if str_eq(name, "ioc") {
            Some(TimeInForce::IOC)
        } else if str_eq(name, "fok") {
            Some(TimeInForce::FOK)
        } else {
            None
        }
    }

    /// Every value is read back from its own wire name: no two values
    /// share a name.
    pub proof fn lemma_wire_name_round_trip(value: TimeInForce)
        ensures
            TimeInForce::of_wire_name(value.wire_name()) == Some(value),
    {
        reveal_strlit("day");
        reveal_strlit("gtc");
        reveal_strlit("opg");
        reveal_strlit("cls");
        reveal_strlit("ioc");
        reveal_strlit("fok");
        assert("day"@.len() == 3);
        assert("gtc"@.len() == 3);
        assert("opg"@.len() == 3);
        assert("cls"@.len() == 3);
        assert("ioc"@.len() == 3);
        assert("fok"@.len() == 3);
        assert("day"@[0] == 'd');
        assert("gtc"@[0] == 'g');
        assert("opg"@[0] == 'o');
        assert("cls"@[0] == 'c');
        assert("ioc"@[0] == 'i');
        assert("fok"@[0] == 'f');
    }
}

/// An order as it is handed to the server.
#[derive(Clone, Debug, PartialEq, Eq)]
pub struct Order {
    symbol: String,
    qty: Option<String>,
    notional: Option<String>,
    side: String,
    order_type: String,
    time_in_force: String,
    limit_price: Option<String>,
    stop_price: Option<String>,
    trail_price: Option<String>,
    trail_percent: Option<String>,
    extended_hours: Option<bool>,
    client_order_id: Option<String>,
    order_class: Option<String>,
}

/// What an [`Order`] holds.
pub ghost struct OrderView {
    pub symbol: Seq<char>,
    pub qty: Option<Seq<char>>,
    pub notional: Option<Seq<char>>,
    pub side: Seq<char>,
    pub order_type: Seq<char>,
    pub time_in_force: Seq<char>,
    pub limit_price: Option<Seq<char>>,
    pub stop_price: Option<Seq<char>>,
    pub trail_price: Option<Seq<char>>,
    pub trail_percent: Option<Seq<char>>,
    pub extended_hours: Option<bool>,
    pub client_order_id: Option<Seq<char>>,
    pub order_class: Option<Seq<char>>,
}

impl DeepView for Order {
    type V = OrderView;

    closed spec fn deep_view(&self) -> OrderView {
        OrderView {
            symbol: self.symbol@,
            qty: self.qty.deep_view(),
            notional: self.notional.deep_view(),
            side: self.side@,
            order_type: self.order_type@,
            time_in_force: self.time_in_force@,
            limit_price: self.limit_price.deep_view(),
            stop_price: self.stop_price.deep_view(),
            trail_price: self.trail_price.deep_view(),
            trail_percent: self.trail_percent.deep_view(),
            extended_hours: self.extended_hours,
            client_order_id: self.client_order_id.deep_view(),
            order_class: self.order_class.deep_view(),
        }
    }
}

/// The JSON text of the string `name`: the name between quotes, escaped
/// as JSON asks.
pub open spec fn quoted(name: Seq<char>) -> Seq<char> {
    json_text(JsonModel::Str(name))
}

/// The JSON text of the string `name`.
fn quote(name: &str) -> (text: String)
    ensures
        text@ == quoted(name@),
{
    let value = text_value(name);
    render(&value)
}

impl Order {
    /// The market order for `symbol`: nothing is set but the symbol, the
    /// side, the type and the time in force. The last three are held as
    /// the JSON text of their wire names.
    pub fn place_market_order(symbol: String, side: Side, time_in_force: TimeInForce) -> (order:
        Self)
        ensures
            order.deep_view() == (OrderView {
                symbol: symbol@,
                qty: None,
                notional: None,
                side: quoted(side.wire_name()),
                order_type: quoted(OrderType::Market.wire_name()),
                time_in_force: quoted(time_in_force.wire_name()),
                limit_price: None,
                stop_price: None,
                trail_price: None,
                trail_percent: None,
                extended_hours: None,
                client_order_id: None,
                order_class: None,
            }),
    {
        Order {
            symbol,
            qty: None,
            notional: None,
            side: quote(side.as_str()),
            order_type: quote(OrderType::Market.as_str()),
            time_in_force: quote(time_in_force.as_str()),
            limit_price: None,
            stop_price: None,
            trail_price: None,
            trail_percent: None,
            extended_hours: None,
            client_order_id: None,
            order_class: None,
        }
    }

    /// The symbol of the order.
    pub fn symbol(&self) -> (symbol: &str)
        ensures
            symbol@ == self.deep_view().symbol,
    {
        self.symbol.as_str()
    }

    /// The side of the order.
    pub fn side(&self) -> (side: &str)
        ensures
            side@ == self.deep_view().side,
    {
        self.side.as_str()
    }

    /// The type of the order.
    pub fn order_type(&self) -> (order_type: &str)
        ensures
            order_type@ == self.deep_view().order_type,
    {
        self.order_type.as_str()
    }

    /// How long the order stays active.
    pub fn time_in_force(&self) -> (time_in_force: &str)
        ensures
            time_in_force@ == self.deep_view().time_in_force,
    {
        self.time_in_force.as_str()
    }
}

} // verus!
