//! Where REST requests go and how they are signed.

use vstd::prelude::*;
use crate::account_type::AccountType;
use crate::env::Env;
use crate::error::Error;
use crate::utilities::address::join_url;
use crate::utilities::address::joined_url;
use crate::utilities::address::parse_url;
use crate::utilities::address::parsed_url;
use crate::utilities::address::url_text;
use url::Url;

verus! {

/// The header that carries the key ID.
pub const KEY_ID_HEADER: &'static str = "APCA-API-KEY-ID";
/// The header that carries the secret key.
pub const SECRET_KEY_HEADER: &'static str = "APCA-API-SECRET-KEY";
/// The trading API for paper accounts.
pub const PAPER_TRADING_URL: &'static str = "https://paper-api.alpaca.markets/v2/";
/// The trading API for live accounts.
pub const LIVE_TRADING_URL: &'static str = "https://api.alpaca.markets/v2/";
/// The stock data API.
pub const STOCK_DATA_URL: &'static str = "https://api.alpaca.markets/v2/";

/// The APIs that a request can go to.
#[derive(Clone, Copy, Debug, PartialEq, Eq, Structural)]
pub enum RequestAPI {
    /// Accounts, assets and orders
    Trading,
    /// Historical stock data
    StockMarketData,
}

/// The host of `api` for such an account. Only the trading API has a host
/// of its own for paper accounts.
pub open spec fn host_of(api: RequestAPI, account_type: AccountType) -> Seq<char> {
    match api {
        RequestAPI::Trading => match account_type {
            AccountType::Paper => PAPER_TRADING_URL@,
            AccountType::Live => LIVE_TRADING_URL@,
        },
        RequestAPI::StockMarketData => STOCK_DATA_URL@,
    }
}

/// The text of the URL that a request to `path` on `host` goes to.
pub open spec fn request_url_of(host: Seq<char>, path: Seq<char>) -> Option<Seq<char>> {
    match parsed_url(host) {
        Some(base) => joined_url(base, path),
        None => None,
    }
}

/// What a REST client knows: the kind of account and its credentials.
#[derive(Clone)]
pub struct RestClient {
    pub(crate) account_type: AccountType,
    env: Env,
}

impl RestClient {
    /// The kind of account of this client.
    pub closed spec fn account(self) -> AccountType {
        self.account_type
    }

    /// The credentials of this client.
    pub closed spec fn credentials(self) -> Env {
        self.env
    }

    /// Create a new [`RestClient`] instance with the given [`AccountType`]
    /// and its credentials.
    pub fn new(account_type: AccountType, env: Env) -> (client: RestClient)
        ensures
            client.account() == account_type,
            client.credentials() == env,
    {
        RestClient { account_type, env }
    }

    /// The host that requests to `api` go to.
    pub fn host(&self, api: RequestAPI) -> (host: &'static str)
        ensures
            host@ == host_of(api, self.account()),
    {
        match api {
            RequestAPI::Trading => match self.account_type {
                AccountType::Paper => PAPER_TRADING_URL,
                AccountType::Live => LIVE_TRADING_URL,
            },
            RequestAPI::StockMarketData => STOCK_DATA_URL,
        }
    }

    /// The URL that a request to `path` of `api` goes to: `path` joined to
    /// the host of the API.
    ///
    /// # Errors
    ///
    /// - `UrlParse` where the host is no URL or `path` is none on it
    pub fn url(&self, api: RequestAPI, path: &str) -> (url: Result<Url, Error>)
        ensures
            match request_url_of(host_of(api, self.account()), path@) {
                Some(text) => url matches Ok(u) && url_text(u) == text,
                None => url matches Err(Error::UrlParse(_)),
            },
    {
        let host = match parse_url(self.host(api)) {
            Ok(host) => host,
            Err(e) => {
                return Err(Error::UrlParse(e));
            },
        };
        match join_url(&host, path) {
            Ok(url) => Ok(url),
            Err(e) => Err(Error::UrlParse(e)),
        }
    }

    /// The two headers that sign a request, each with its value: the key
    /// ID first, then the secret key.
    pub fn headers(&self) -> (headers: ((&'static str, &str), (&'static str, &str)))
        ensures
            headers.0.0@ == KEY_ID_HEADER@,
            headers.0.1@ == self.credentials().key(),
            headers.1.0@ == SECRET_KEY_HEADER@,
            headers.1.1@ == self.credentials().secret(),
    {
        ((KEY_ID_HEADER, self.env.key_id()), (SECRET_KEY_HEADER, self.env.secret_key()))
    }
}

} // verus!
