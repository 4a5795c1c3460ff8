//! The vocabulary of the assets endpoint.

use vstd::prelude::*;
use crate::restful::query::add_parameter;
use crate::restful::query::parameter_of;
use crate::restful::query::parameters_view;
use crate::restful::query::Parameter;
use crate::text::str_eq;

verus! {

/// `AssetClass` represents the category to which the asset belongs to.
/// It serves to identify the nature of the financial instrument
#[derive(Clone, Copy, Debug, PartialEq, Eq, Structural)]
pub enum AssetClass {
    /// Equities of the United States
    UsEquity,
    /// Options of the United States
    UsOption,
    /// Cryptocurrencies
    Crypto,
}

impl AssetClass {
    /// The name that stands for this value on the wire.
    pub open spec fn wire_name(self) -> Seq<char> {
        match self {
            AssetClass::UsEquity => "us_equity"@,
            AssetClass::UsOption => "us_option"@,
            AssetClass::Crypto => "crypto"@,
        }
    }

    /// The value that `name` stands for on the wire, if it stands for one.
    pub open spec fn of_wire_name(name: Seq<char>) -> Option<AssetClass> {
        if name == "us_equity"@ {
            Some(AssetClass::UsEquity)
        } else if name == "us_option"@ {
            Some(AssetClass::UsOption)
        } else if name == "crypto"@ {
            Some(AssetClass::Crypto)
        } else {
            None
        }
    }

    /// The name that stands for this value on the wire.
    pub fn as_str(&self) -> (name: &'static str)
        ensures
            name@ == self.wire_name(),
    {
        match self {
            AssetClass::UsEquity => "us_equity",
            AssetClass::UsOption => "us_option",
            AssetClass::Crypto => "crypto",
        }
    }

    /// The value that `name` stands for on the wire; `None` for any other
    /// text.
    pub fn parse(name: &str) -> (value: Option<AssetClass>)
        ensures
            value == AssetClass::of_wire_name(name@),
    {
        if str_eq(name, "us_equity") {
            Some(AssetClass::UsEquity)
        } else if str_eq(name, "us_option") {
            Some(AssetClass::UsOption)
        } else if str_eq(name, "crypto") {
            Some(AssetClass::Crypto)
        } else {
            None
        }
    }

    /// Every value is read back from its own wire name: no two values
    /// share a name.
    pub proof fn lemma_wire_name_round_trip(value: AssetClass)
        ensures
            AssetClass::of_wire_name(value.wire_name()) == Some(value),
    {
        reveal_strlit("us_equity");
        reveal_strlit("us_option");
        reveal_strlit("crypto");
        assert("us_equity"@.len() == 9);
        assert("us_option"@.len() == 9);
        assert("crypto"@.len() == 6);
        assert("us_equity"@[3] == 'e');
        assert("us_option"@[3] == 'o');
    }
}

/// `Exchange` represents the exchange where the asset is traded
#[derive(Clone, Copy, Debug, PartialEq, Eq, Structural)]
pub enum Exchange {
    /// American Stock Exchange
    Amex,
    /// Archipelago Exchange
    Arca,
    /// BATS (Better Alternative Trading System) Exchange
    Bats,
    /// New York Stock Exchange
    Nyse,
    /// NASDAQ (National Association of Securities Dealers Automated Quotations) Exchange
    Nasdaq,
    /// NYSE Arca
    Nysearca,
    /// Over the counter
    Otc,
    /// Cryptocurrency venues
    Crypto,
}

impl Exchange {
    /// The name that stands for this value on the wire.
    pub open spec fn wire_name(self) -> Seq<char> {
        match self {
            Exchange::Amex => "AMEX"@,
            Exchange::Arca => "ARCA"@,
            Exchange::Bats => "BATS"@,
            Exchange::Nyse => "NYSE"@,
            Exchange::Nasdaq => "NASDAQ"@,
            Exchange::Nysearca => "NYSEARCA"@,
            Exchange::Otc => "OTC"@,
            Exchange::Crypto => "CRYPTO"@,
        }
    }

    /// The value that `name` stands for on the wire, if it stands for one.
    pub open spec fn of_wire_name(name: Seq<char>) -> Option<Exchange> {
        if name == "AMEX"@ {
            Some(Exchange::Amex)
        } else if name == "ARCA"@ {
            Some(Exchange::Arca)
        } else if name == "BATS"@ {
            Some(Exchange::Bats)
        } else if name == "NYSE"@ {
            Some(Exchange::Nyse)
        } else if name == "NASDAQ"@ {
            Some(Exchange::Nasdaq)
        } else if name == "NYSEARCA"@ {
            Some(Exchange::Nysearca)
        } else if name == "OTC"@ {
            Some(Exchange::Otc)
        } else if name == "CRYPTO"@ {
            Some(Exchange::Crypto)
        } else {
            None
        }
    }

    /// The name that stands for this value on the wire.
    pub fn as_str(&self) -> (name: &'static str)
        ensures
            name@ == self.wire_name(),
    {
        match self {
            Exchange::Amex => "AMEX",
            Exchange::Arca => "ARCA",
            Exchange::Bats => "BATS",
            Exchange::Nyse => "NYSE",
            Exchange::Nasdaq => "NASDAQ",
            Exchange::Nysearca => "NYSEARCA",
            Exchange::Otc => "OTC",
            Exchange::Crypto => "CRYPTO",
        }
    }

    /// The value that `name` stands for on the wire; `None` for any other
    /// text.
    pub fn parse(name: &str) -> (value: Option<Exchange>)
        ensures
            value == Exchange::of_wire_name(name@),
    {
        if str_eq(name, "AMEX") {
            Some(Exchange::Amex)
        } else if str_eq(name, "ARCA") {
            Some(Exchange::Arca)
        } else if str_eq(name, "BATS") {
            Some(Exchange::Bats)
        } else if str_eq(name, "NYSE") {
            Some(Exchange::Nyse)
        } else if str_eq(name, "NASDAQ") {
            Some(Exchange::Nasdaq)
        } else if str_eq(name, "NYSEARCA") {
            Some(Exchange::Nysearca)
        } else if str_eq(name, "OTC") {
            Some(Exchange::Otc)
        } else if str_eq(name, "CRYPTO") {
            Some(Exchange::Crypto)
        } else {
            None
        }
    }

    /// Every value is read back from its own wire name: no two values
    /// share a name.
    pub proof fn lemma_wire_name_round_trip(value: Exchange)
        ensures
            Exchange::of_wire_name(value.wire_name()) == Some(value),
    {
        reveal_strlit("AMEX");
        reveal_strlit("ARCA");
        reveal_strlit("BATS");
        reveal_strlit("NYSE");
        reveal_strlit("NASDAQ");
        reveal_strlit("NYSEARCA");
        reveal_strlit("OTC");
        reveal_strlit("CRYPTO");
        assert("AMEX"@.len() == 4);
        assert("ARCA"@.len() == 4);
        assert("BATS"@.len() == 4);
        assert("NYSE"@.len() == 4);
        assert("NASDAQ"@.len() == 6);
        assert("NYSEARCA"@.len() == 8);
        assert("OTC"@.len() == 3);
        assert("CRYPTO"@.len() == 6);
        assert("AMEX"@[1] == 'M');
        assert("ARCA"@[1] == 'R');
        assert("AMEX"@[0] == 'A');
        assert("BATS"@[0] == 'B');
        assert("NYSE"@[0] == 'N');
        assert("ARCA"@[0] == 'A');
        assert("NASDAQ"@[0] == 'N');
        assert("CRYPTO"@[0] == 'C');
    }
}

/// `Status` represents whether an asset is active or inactive.
#[derive(Clone, Copy, Debug, PartialEq, Eq, Structural)]
pub enum Status {
    /// The asset can be traded.
    Active,
    /// The asset cannot be traded.
    Inactive,
}

impl Status {
    /// The name that stands for this value on the wire.
    pub open spec fn wire_name(self) -> Seq<char> {
        match self {
            Status::Active => "active"@,
            Status::Inactive => "inactive"@,
        }
    }

    /// The value that `name` stands for on the wire, if it stands for one.
    pub open spec fn of_wire_name(name: Seq<char>) -> Option<Status> {
        if name == "active"@ {
            Some(Status::Active)
        } else if name == "inactive"@ {
            Some(Status::Inactive)
        } else {
            None
        }
    }

    /// The name that stands for this value on the wire.
    pub fn as_str(&self) -> (name: &'static str)
        ensures
            name@ == self.wire_name(),
    {
        match self {
            Status::Active => "active",
            Status::Inactive => "inactive",
        }
    }

    /// The value that `name` stands for on the wire; `None` for any other
    /// text.
    pub fn parse(name: &str) -> (value: Option<Status>)
        ensures
            value == Status::of_wire_name(name@),
    {
        if str_eq(name, "active") {
            Some(Status::Active)
        } else if str_eq(name, "inactive") {
            Some(Status::Inactive)
        } else {
            None
        }
    }

    /// Every value is read back from its own wire name: no two values
    /// share a name.
    pub proof fn lemma_wire_name_round_trip(value: Status)
        ensures
            Status::of_wire_name(value.wire_name()) == Some(value),
    {
        reveal_strlit("active");
        reveal_strlit("inactive");
        assert("active"@.len() == 6);
        assert("inactive"@.len() == 8);
    }
}

/// The path of the endpoint that serves every asset.
pub const ASSETS_PATH: &'static str = "assets";

/// The path of the endpoint that serves the asset with this ID or symbol.
pub open spec fn asset_path_of(id: Seq<char>) -> Seq<char> {
    "assets/"@ + id
}

/// The path of the endpoint that serves the asset with this ID or symbol.
pub fn asset_path(id: &str) -> (path: String)
    ensures
        path@ == asset_path_of(id@),
{
    "assets/".to_owned().concat(id)
}

/// Which assets a request asks for: every member that is set narrows the
/// answer.
#[derive(Clone, Debug, PartialEq, Eq)]
pub struct AssetRequest {
    pub status: Option<Status>,
    pub asset_class: Option<AssetClass>,
    pub exchange: Option<Exchange>,
    pub attributes: Option<String>,
}

/// The text of a word of the vocabulary, where there is a word.
pub open spec fn status_text(status: Option<Status>) -> Option<Seq<char>> {
    match status {
        Some(status) => Some(status.wire_name()),
        None => None,
    }
}

/// The text of a word of the vocabulary, where there is a word.
pub open spec fn asset_class_text(asset_class: Option<AssetClass>) -> Option<Seq<char>> {
    match asset_class {
        Some(asset_class) => Some(asset_class.wire_name()),
        None => None,
    }
}

/// The text of a word of the vocabulary, where there is a word.
pub open spec fn exchange_text(exchange: Option<Exchange>) -> Option<Seq<char>> {
    match exchange {
        Some(exchange) => Some(exchange.wire_name()),
        None => None,
    }
}

impl AssetRequest {
    /// The parameters of the query of this request: each of status, asset
    /// class, exchange and attributes that is set, in this order.
    pub open spec fn query_of(self) -> Seq<(Seq<char>, Seq<char>)> {
        parameter_of("status"@, status_text(self.status)) + parameter_of(
            "asset_class"@,
            asset_class_text(self.asset_class),
        ) + parameter_of("exchange"@, exchange_text(self.exchange)) + parameter_of(
            "attributes"@,
            self.attributes.deep_view(),
        )
    }

    /// The parameters of the query of this request.
    pub fn query(&self) -> (parameters: Vec<Parameter>)
        ensures
            parameters_view(parameters@) == self.query_of(),
    {
        let mut parameters: Vec<Parameter> = Vec::new();
        let status = match &self.status {
            Some(status) => Some(status.as_str().to_owned()),
            None => None,
        };
        add_parameter(&mut parameters, "status", status);
        let asset_class = match &self.asset_class {
            Some(asset_class) => Some(asset_class.as_str().to_owned()),
            None => None,
        };
        add_parameter(&mut parameters, "asset_class", asset_class);
        let exchange = match &self.exchange {
            Some(exchange) => Some(exchange.as_str().to_owned()),
            None => None,
        };
        add_parameter(&mut parameters, "exchange", exchange);
        let attributes = match &self.attributes {
            Some(attributes) => Some(attributes.clone()),
            None => None,
        };
        add_parameter(&mut parameters, "attributes", attributes);
        assert(parameters_view(parameters@) =~= self.query_of());
        parameters
    }

    /// A request for every asset.
    pub fn new() -> (request: Self)
        ensures
            request.status is None,
            request.asset_class is None,
            request.exchange is None,
            request.attributes is None,
    {
        AssetRequest { status: None, asset_class: None, exchange: None, attributes: None }
    }

    /// Ask for assets of this status only.
    pub fn with_status(self, status: Status) -> (request: Self)
        ensures
            request == (AssetRequest { status: Some(status), ..self }),
    {
        AssetRequest { status: Some(status), ..self }
    }

    /// Ask for assets of this class only.
    pub fn with_asset_class(self, asset_class: AssetClass) -> (request: Self)
        ensures
            request == (AssetRequest { asset_class: Some(asset_class), ..self }),
    {
        AssetRequest { asset_class: Some(asset_class), ..self }
    }

    /// Ask for assets of this exchange only.
    pub fn with_exchange(self, exchange: Exchange) -> (request: Self)
        ensures
            request == (AssetRequest { exchange: Some(exchange), ..self }),
    {
        AssetRequest { exchange: Some(exchange), ..self }
    }

    /// Ask for assets with these attributes only, given as the server
    /// spells them: separated by commas.
    pub fn with_attribute_string(self, attributes: String) -> (request: Self)
        ensures
            request == (AssetRequest { attributes: Some(attributes), ..self }),
    {
        AssetRequest { attributes: Some(attributes), ..self }
    }
}

} // verus!
