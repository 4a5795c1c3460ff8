//! The vocabulary of the account endpoint.

use vstd::prelude::*;
use crate::text::str_eq;

verus! {

/// `AccountStatus` represents the current status of an account
#[derive(Clone, Copy, Debug, PartialEq, Eq, Structural)]
pub enum AccountStatus {
    /// The account is onboarding.
    Onboarding,
    /// The account application submission failed for some reason.
    SubmissionFailed,
    /// The account has been submitted for review.
    Submitted,
    /// The account information is being updated.
    AccountUpdated,
    /// The final account approval is pending.
    ApprovalPending,
    /// The account is active and ready for trading.
    Active,
    /// The account application has been rejected.
    Rejected,
}

impl AccountStatus {
    /// The name that stands for this value on the wire.
    pub open spec fn wire_name(self) -> Seq<char> {
        match self {
            AccountStatus::Onboarding => "ONBOARDING"@,
            AccountStatus::SubmissionFailed => "SUBMISSION_FAILED"@,
            AccountStatus::Submitted => "SUBMITTED"@,
            AccountStatus::AccountUpdated => "ACCOUNT_UPDATED"@,
            AccountStatus::ApprovalPending => "APPROVAL_PENDING"@,
            AccountStatus::Active => "ACTIVE"@,
            AccountStatus::Rejected => "REJECTED"@,
        }
    }

    /// The value that `name` stands for on the wire, if it stands for one.
    pub open spec fn of_wire_name(name: Seq<char>) -> Option<AccountStatus> {
        if name == "ONBOARDING"@ {
            Some(AccountStatus::Onboarding)
        } else if name == "SUBMISSION_FAILED"@ {
            Some(AccountStatus::SubmissionFailed)
        } else if name == "SUBMITTED"@ {
            Some(AccountStatus::Submitted)
        } else if name == "ACCOUNT_UPDATED"@ {
            Some(AccountStatus::AccountUpdated)
        } else if name == "APPROVAL_PENDING"@ {
            Some(AccountStatus::ApprovalPending)
        } else if name == "ACTIVE"@ {
            Some(AccountStatus::Active)
        } else if name == "REJECTED"@ {
            Some(AccountStatus::Rejected)
        } else {
            None
        }
    }

    /// The name that stands for this value on the wire.
    pub fn as_str(&self) -> (name: &'static str)
        ensures
            name@ == self.wire_name(),
    {
        match self {
            AccountStatus::Onboarding => "ONBOARDING",
            AccountStatus::SubmissionFailed => "SUBMISSION_FAILED",
            AccountStatus::Submitted => "SUBMITTED",
            AccountStatus::AccountUpdated => "ACCOUNT_UPDATED",
            AccountStatus::ApprovalPending => "APPROVAL_PENDING",
            AccountStatus::Active => "ACTIVE",
            AccountStatus::Rejected => "REJECTED",
        }
    }

    /// The value that `name` stands for on the wire; `None` for any other
    /// text.
    pub fn parse(name: &str) -> (value: Option<AccountStatus>)
        ensures
            value == AccountStatus::of_wire_name(name@),
    {
        if str_eq(name, "ONBOARDING") {
            Some(AccountStatus::Onboarding)
        } else if str_eq(name, "SUBMISSION_FAILED") {
            Some(AccountStatus::SubmissionFailed)
        } else if str_eq(name, "SUBMITTED") {
            Some(AccountStatus::Submitted)
        } else if str_eq(name, "ACCOUNT_UPDATED") {
            Some(AccountStatus::AccountUpdated)
        } else if str_eq(name, "APPROVAL_PENDING") {
            Some(AccountStatus::ApprovalPending)
        } else if str_eq(name, "ACTIVE") {
            Some(AccountStatus::Active)
        } else if str_eq(name, "REJECTED") {
            Some(AccountStatus::Rejected)
        } else {
            None
        }
    }

    /// Every value is read back from its own wire name: no two values
    /// share a name.
    pub proof fn lemma_wire_name_round_trip(value: AccountStatus)
        ensures
            AccountStatus::of_wire_name(value.wire_name()) == Some(value),
    {
        reveal_strlit("ONBOARDING");
        reveal_strlit("SUBMISSION_FAILED");
        reveal_strlit("SUBMITTED");
        reveal_strlit("ACCOUNT_UPDATED");
        reveal_strlit("APPROVAL_PENDING");
        reveal_strlit("ACTIVE");
        reveal_strlit("REJECTED");
        assert("ONBOARDING"@.len() == 10);
        assert("SUBMISSION_FAILED"@.len() == 17);
        assert("SUBMITTED"@.len() == 9);
        assert("ACCOUNT_UPDATED"@.len() == 15);
        assert("APPROVAL_PENDING"@.len() == 16);
        assert("ACTIVE"@.len() == 6);
        assert("REJECTED"@.len() == 8);
    }
}

/// `Currency` represents the currency of an account
/// Currently, only USD is supported.
#[derive(Clone, Copy, Debug, PartialEq, Eq, Structural)]
pub enum Currency {
    /// United States dollar
    USD,
}

impl Currency {
    /// The name that stands for this value on the wire.
    pub open spec fn wire_name(self) -> Seq<char> {
        match self {
            Currency::USD => "USD"@,
        }
    }

    /// The value that `name` stands for on the wire, if it stands for one.
    pub open spec fn of_wire_name(name: Seq<char>) -> Option<Currency> {
        if name == "USD"@ {
            Some(Currency::USD)
        } else {
            None
        }
    }

    /// The name that stands for this value on the wire.
    pub fn as_str(&self) -> (name: &'static str)
        ensures
            name@ == self.wire_name(),
    {
        match self {
            Currency::USD => "USD",
        }
    }

    /// The value that `name` stands for on the wire; `None` for any other
    /// text.
    pub fn parse(name: &str) -> (value: Option<Currency>)
        ensures
            value == Currency::of_wire_name(name@),
    {
        if str_eq(name, "USD") {
            Some(Currency::USD)
        } else {
            None
        }
    }

    /// Every value is read back from its own wire name: no two values
    /// share a name.
    pub proof fn lemma_wire_name_round_trip(value: Currency)
        ensures
            Currency::of_wire_name(value.wire_name()) == Some(value),
    {
        reveal_strlit("USD");
    }
}

} // verus!
