//! The market-data feeds and the stream endpoint of each.

use vstd::prelude::*;
use crate::account_type::AccountType;
use crate::text::str_eq;

verus! {

pub const STREAMING_IEX_URL: &'static str = "wss://stream.data.alpaca.markets/v2/iex";
pub const STREAMING_IEX_SANDBOX_URL: &'static str = "wss://stream.data.sandbox.alpaca.markets/v2/iex";
pub const STREAMING_SIP_URL: &'static str = "wss://stream.data.alpaca.markets/v2/sip";
pub const STREAMING_SIP_SANDBOX_URL: &'static str = "wss://stream.data.sandbox.alpaca.markets/v2/sip";
pub const STREAMING_TEST_URL: &'static str = "wss://stream.data.alpaca.markets/v2/test";
pub const STREAMING_CRYPTO_URL: &'static str = "wss://stream.data.alpaca.markets/v1beta3/crypto";
pub const STREAMING_CRYPTO_SANDBOX_URL: &'static str = "wss://stream.data.sandbox.alpaca.markets/v1beta3/crypto";
pub const STREAMING_NEWS_URL: &'static str = "wss://stream.data.alpaca.markets/v1beta1/news";
pub const STREAMING_NEWS_SANDBOX_URL: &'static str = "wss://stream.data.sandbox.alpaca.markets/v1beta1/news";

/// Supported data feeds
#[derive(Clone, Copy, Debug, PartialEq, Eq, Structural)]
pub enum Feed {
    /// Investors Exchange (IEX) stock data source.
    ///
    /// This feed is available to all accounts
    IEX,
    /// Securities Information Processor (SIP) stock price data source.
    ///
    /// This feed is only usable with the unlimited data plan
    SIP,
    /// Test data feed for simulated stock data.
    ///
    /// This feed is available outside of market hours and is useful for testing
    Test,
    /// Crypto data feed for cryptocurrency data.
    ///
    /// This feed is available to all accounts, and is not subject to market hours
    Crypto,
    /// News data feed for news data.
    News,
}

impl Feed {
    /// The name that stands for this value on the wire.
    pub open spec fn wire_name(self) -> Seq<char> {
        match self {
            Feed::IEX => "iex"@,
            Feed::SIP => "sip"@,
            Feed::Test => "test"@,
            Feed::Crypto => "crypto"@,
            Feed::News => "news"@,
        }
    }

    /// The value that `name` stands for on the wire, if it stands for one.
    pub open spec fn of_wire_name(name: Seq<char>) -> Option<Feed> {
        if name == "iex"@ {
            Some(Feed::IEX)
        } else if name == "sip"@ {
            Some(Feed::SIP)
        } else if name == "test"@ {
            Some(Feed::Test)
        } else if name == "crypto"@ {
            Some(Feed::Crypto)
        } else if name == "news"@ {
            Some(Feed::News)
        } else {
            None
        }
    }

    /// The name that stands for this value on the wire.
    pub fn as_str(&self) -> (name: &'static str)
        ensures
            name@ == self.wire_name(),
    {
        match self {
            Feed::IEX => "iex",
            Feed::SIP => "sip",
            Feed::Test => "test",
            Feed::Crypto => "crypto",
            Feed::News => "news",
        }
    }

    /// The value that `name` stands for on the wire; `None` for any other
    /// text.
    pub fn parse(name: &str) -> (value: Option<Feed>)
        ensures
            value == Feed::of_wire_name(name@),
    {
        if str_eq(name, "iex") {
            Some(Feed::IEX)
        } else if str_eq(name, "sip") {
            Some(Feed::SIP)
        } else if str_eq(name, "test") {
            Some(Feed::Test)
        } else if str_eq(name, "crypto") {
            Some(Feed::Crypto)
        } else if str_eq(name, "news") {
            Some(Feed::News)
        } else {
            None
        }
    }

    /// Every value is read back from its own wire name: no two values
    /// share a name.
    pub proof fn lemma_wire_name_round_trip(value: Feed)
        ensures
            Feed::of_wire_name(value.wire_name()) == Some(value),
    {
        reveal_strlit("iex");
        reveal_strlit("sip");
        reveal_strlit("test");
        reveal_strlit("crypto");
        reveal_strlit("news");
        assert("iex"@.len() == 3);
        assert("sip"@.len() == 3);
        assert("test"@.len() == 4);
        assert("crypto"@.len() == 6);
        assert("news"@.len() == 4);
        assert("iex"@[0] == 'i');
        assert("sip"@[0] == 's');
        assert("test"@[0] == 't');
        assert("news"@[0] == 'n');
    }

    /// The stream endpoint of this feed on the sandbox host, which paper
    /// accounts use. The test feed alone has one host only.
    pub open spec fn paper_url(self) -> Seq<char> {
        match self {
            Feed::IEX => STREAMING_IEX_SANDBOX_URL@,
            Feed::SIP => STREAMING_SIP_SANDBOX_URL@,
            Feed::Test => STREAMING_TEST_URL@,
            Feed::Crypto => STREAMING_CRYPTO_SANDBOX_URL@,
            Feed::News => STREAMING_NEWS_SANDBOX_URL@,
        }
    }

    /// The stream endpoint of this feed on the production host.
    pub open spec fn live_url(self) -> Seq<char> {
        match self {
            Feed::IEX => STREAMING_IEX_URL@,
            Feed::SIP => STREAMING_SIP_URL@,
            Feed::Test => STREAMING_TEST_URL@,
            Feed::Crypto => STREAMING_CRYPTO_URL@,
            Feed::News => STREAMING_NEWS_URL@,
        }
    }

    /// The stream endpoint that a session for `account_type` connects to.
    pub open spec fn url(self, account_type: AccountType) -> Seq<char> {
        match account_type {
            AccountType::Paper => self.paper_url(),
            AccountType::Live => self.live_url(),
        }
    }

    /// Paper accounts are served from the sandbox and live accounts from
    /// production: but for the test feed, which has one host only, the two
    /// endpoints of a feed differ.
    pub proof fn lemma_paper_is_not_live(feed: Feed)
        ensures
            feed != Feed::Test ==> feed.paper_url() != feed.live_url(),
            forall|account_type: AccountType|
                feed == Feed::Test ==> #[trigger] feed.url(account_type) == STREAMING_TEST_URL@,
    {
        reveal_strlit("wss://stream.data.alpaca.markets/v2/iex");
        reveal_strlit("wss://stream.data.sandbox.alpaca.markets/v2/iex");
        reveal_strlit("wss://stream.data.alpaca.markets/v2/sip");
        reveal_strlit("wss://stream.data.sandbox.alpaca.markets/v2/sip");
        reveal_strlit("wss://stream.data.alpaca.markets/v1beta3/crypto");
        reveal_strlit("wss://stream.data.sandbox.alpaca.markets/v1beta3/crypto");
        reveal_strlit("wss://stream.data.alpaca.markets/v1beta1/news");
        reveal_strlit("wss://stream.data.sandbox.alpaca.markets/v1beta1/news");
        assert(STREAMING_IEX_URL@.len() == 39);
        assert(STREAMING_IEX_SANDBOX_URL@.len() == 47);
        assert(STREAMING_SIP_URL@.len() == 39);
        assert(STREAMING_SIP_SANDBOX_URL@.len() == 47);
        assert(STREAMING_CRYPTO_URL@.len() == 47);
        assert(STREAMING_CRYPTO_SANDBOX_URL@.len() == 55);
        assert(STREAMING_NEWS_URL@.len() == 45);
        assert(STREAMING_NEWS_SANDBOX_URL@.len() == 53);
    }

    /// The websocket URL of this feed for the given kind of account.
    #[must_use]
    pub fn streaming_url(&self, account_type: AccountType) -> (url: &'static str)
        ensures
            url@ == self.url(account_type),
    {
        match account_type {
            AccountType::Paper => self.streaming_url_paper(),
            AccountType::Live => self.streaming_url_live(),
        }
    }

    /// The websocket URL of this feed for paper accounts.
    #[must_use]
    pub fn streaming_url_paper(&self) -> (url: &'static str)
        ensures
            url@ == self.paper_url(),
    {
        match self {
            Feed::IEX => STREAMING_IEX_SANDBOX_URL,
            Feed::SIP => STREAMING_SIP_SANDBOX_URL,
            Feed::Test => STREAMING_TEST_URL,
            Feed::Crypto => STREAMING_CRYPTO_SANDBOX_URL,
            Feed::News => STREAMING_NEWS_SANDBOX_URL,
        }
    }

    /// The websocket URL of this feed for live accounts.
    #[must_use]
    pub fn streaming_url_live(&self) -> (url: &'static str)
        ensures
            url@ == self.live_url(),
    {
        match self {
            Feed::IEX => STREAMING_IEX_URL,
            Feed::SIP => STREAMING_SIP_URL,
            Feed::Test => STREAMING_TEST_URL,
            Feed::Crypto => STREAMING_CRYPTO_URL,
            Feed::News => STREAMING_NEWS_URL,
        }
    }
}

} // verus!
