//! The credentials of an account together with its kind.

use vstd::prelude::*;
use crate::env::LIVE_KEY_ID_ENV;
use crate::env::LIVE_SECRET_KEY_ENV;
use crate::env::PAPER_KEY_ID_ENV;
use crate::env::PAPER_SECRET_KEY_ENV;
use crate::error::Error;

verus! {

/// The type of account.
#[derive(Clone, Copy, Debug, PartialEq, Eq, Structural)]
pub enum AlpacaAccountType {
    /// Paper trading account.
    Paper,
    /// Live trading account.
    Live,
}

impl AlpacaAccountType {
    /// The name of the variable that holds the key ID of such an account.
    pub open spec fn key_id_variable(self) -> Seq<char> {
        match self {
            AlpacaAccountType::Paper => PAPER_KEY_ID_ENV@,
            AlpacaAccountType::Live => LIVE_KEY_ID_ENV@,
        }
    }

    /// The name of the variable that holds the secret key of such an
    /// account.
    pub open spec fn secret_key_variable(self) -> Seq<char> {
        match self {
            AlpacaAccountType::Paper => PAPER_SECRET_KEY_ENV@,
            AlpacaAccountType::Live => LIVE_SECRET_KEY_ENV@,
        }
    }

    /// The names of the two environment variables that hold the
    /// credentials of such an account: the key ID first, then the secret.
    pub fn variable_names(&self) -> (names: (&'static str, &'static str))
        ensures
            names.0@ == self.key_id_variable(),
            names.1@ == self.secret_key_variable(),
    {
        match self {
            AlpacaAccountType::Paper => (PAPER_KEY_ID_ENV, PAPER_SECRET_KEY_ENV),
            AlpacaAccountType::Live => (LIVE_KEY_ID_ENV, LIVE_SECRET_KEY_ENV),
        }
    }
}

/// The kind of an account and its credentials, all in the open.
#[derive(Clone, PartialEq, Eq)]
pub struct AlpacaEnv {
    pub account_type: AlpacaAccountType,
    pub key_id: String,
    pub secret_key: String,
}

impl AlpacaEnv {
    /// The environment of such an account, with the credentials that were
    /// found for it.
    pub fn new(account_type: AlpacaAccountType, key_id: String, secret_key: String) -> (env:
        AlpacaEnv)
        ensures
            env == (AlpacaEnv { account_type, key_id, secret_key }),
    {
        AlpacaEnv { account_type, key_id, secret_key }
    }

    /// The environment of such an account from what was found in the
    /// process environment: `key_id` under the first name of
    /// [`AlpacaAccountType::variable_names`], `secret_key` under the second.
    ///
    /// # Errors
    /// Names the first of the two variables that was not found.
    pub fn from_environment(
        account_type: AlpacaAccountType,
        key_id: Option<String>,
        secret_key: Option<String>,
    ) -> (env: Result<AlpacaEnv, Error>)
        ensures
            match (key_id, secret_key) {
                (Some(k), Some(s)) => env matches Ok(e) && e == (AlpacaEnv {
                    account_type,
                    key_id: k,
                    secret_key: s,
                }),
                (None, _) => env matches Err(Error::MissingEnvironmentVariable { variable_name })
                    && variable_name@ == account_type.key_id_variable(),
                (Some(_), None) => env matches Err(
                    Error::MissingEnvironmentVariable { variable_name },
                ) && variable_name@ == account_type.secret_key_variable(),
            },
    {
        let names = account_type.variable_names();
        let key_id = match key_id {
            Some(key_id) => key_id,
            None => {
                return Err(Error::MissingEnvironmentVariable { variable_name: names.0.to_owned() });
            },
        };
        let secret_key = match secret_key {
            Some(secret_key) => secret_key,
            None => {
                return Err(Error::MissingEnvironmentVariable { variable_name: names.1.to_owned() });
            },
        };
        Ok(AlpacaEnv::new(account_type, key_id, secret_key))
    }
}

} // verus!
