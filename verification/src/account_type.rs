//! The two kinds of brokerage account.

use vstd::prelude::*;
use crate::text::str_eq;

verus! {

/// Base URL of the trading API for paper accounts.
pub const PAPER_URL: &'static str = "https://paper-api.alpaca.markets/v2/";

/// Base URL of the trading API for live accounts.
pub const LIVE_URL: &'static str = "https://api.alpaca.markets/v2/";

/// The type of brokerage account.
#[derive(Clone, Copy, Debug, PartialEq, Eq, Structural)]
pub enum AccountType {
    /// Paper trading account
    Paper,
    /// Live trading account
    Live,
}

impl AccountType {
    /// The name that stands for this value on the wire.
    pub open spec fn wire_name(self) -> Seq<char> {
        match self {
            AccountType::Paper => "Paper"@,
            AccountType::Live => "Live"@,
        }
    }

    /// The value that `name` stands for on the wire, if it stands for one.
    pub open spec fn of_wire_name(name: Seq<char>) -> Option<AccountType> {
        if name == "Paper"@ {
            Some(AccountType::Paper)
        } else if name == "Live"@ {
            Some(AccountType::Live)
        } else {
            None
        }
    }

    /// The name that stands for this value on the wire.
    pub fn as_str(&self) -> (name: &'static str)
        ensures
            name@ == self.wire_name(),
    {
        match self {
            AccountType::Paper => "Paper",
            AccountType::Live => "Live",
        }
    }

    /// The value that `name` stands for on the wire; `None` for any other
    /// text.
    pub fn parse(name: &str) -> (value: Option<AccountType>)
        ensures
            value == AccountType::of_wire_name(name@),
    {
        if str_eq(name, "Paper") {
            Some(AccountType::Paper)
        } else if str_eq(name, "Live") {
            Some(AccountType::Live)
        } else {
            None
        }
    }

    /// Every value is read back from its own wire name: no two values
    /// share a name.
    pub proof fn lemma_wire_name_round_trip(value: AccountType)
        ensures
            AccountType::of_wire_name(value.wire_name()) == Some(value),
    {
        reveal_strlit("Paper");
        reveal_strlit("Live");
        assert("Paper"@.len() == 5);
        assert("Live"@.len() == 4);
    }

    /// The trading endpoint that belongs to this account type.
    pub open spec fn endpoint_url(self) -> Seq<char> {
        match self {
            AccountType::Paper => PAPER_URL@,
            AccountType::Live => LIVE_URL@,
        }
    }

    /// Get the trading endpoint for the given account type.
    pub fn endpoint(&self) -> (url: &'static str)
        ensures
            url@ == self.endpoint_url(),
    {
        match self {
            AccountType::Paper => PAPER_URL,
            AccountType::Live => LIVE_URL,
        }
    }
}

} // verus!
