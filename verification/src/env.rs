//! The credentials of one account.

use vstd::prelude::*;
use crate::account_type::AccountType;
use crate::error::Error;

verus! {

/// The environment variable containing the paper account key ID
pub const PAPER_KEY_ID_ENV: &'static str = "ALPACA_PAPER_API_KEY_ID";
/// The environment variable containing the paper account secret key
pub const PAPER_SECRET_KEY_ENV: &'static str = "ALPACA_PAPER_API_SECRET_KEY";
/// The environment variable containing the live account key ID
pub const LIVE_KEY_ID_ENV: &'static str = "ALPACA_LIVE_API_KEY_ID";
/// The environment variable containing the live account secret key
pub const LIVE_SECRET_KEY_ENV: &'static str = "ALPACA_LIVE_API_SECRET_KEY";
/// What is shown in place of a secret
pub const CENSORED_SECRET: &'static str = "********";

/// The name of the variable that holds the key ID of such an account.
pub open spec fn key_id_variable(account_type: AccountType) -> Seq<char> {
    match account_type {
        AccountType::Paper => PAPER_KEY_ID_ENV@,
        AccountType::Live => LIVE_KEY_ID_ENV@,
    }
}

/// The name of the variable that holds the secret key of such an account.
pub open spec fn secret_key_variable(account_type: AccountType) -> Seq<char> {
    match account_type {
        AccountType::Paper => PAPER_SECRET_KEY_ENV@,
        AccountType::Live => LIVE_SECRET_KEY_ENV@,
    }
}

/// `Env` stores the key ID and the secret key of one account.
///
/// It has no `Debug`: use [`Env::censored`] where something must be shown.
#[derive(Clone)]
pub struct Env {
    /// The API key ID
    key_id: String,
    /// The secret key
    secret_key: String,
}

impl Env {
    /// The key ID, as text.
    pub closed spec fn key(self) -> Seq<char> {
        self.key_id@
    }

    /// The secret key, as text.
    pub closed spec fn secret(self) -> Seq<char> {
        self.secret_key@
    }

    /// The names of the two environment variables that hold the
    /// credentials of such an account: the key ID first, then the secret.
    pub fn variable_names(account_type: &AccountType) -> (names: (&'static str, &'static str))
        ensures
            names.0@ == key_id_variable(*account_type),
            names.1@ == secret_key_variable(*account_type),
    {
        match account_type {
            AccountType::Paper => (PAPER_KEY_ID_ENV, PAPER_SECRET_KEY_ENV),
            AccountType::Live => (LIVE_KEY_ID_ENV, LIVE_SECRET_KEY_ENV),
        }
    }

    /// Attempt to create a new `Env` for the given [`AccountType`] from what
    /// was found in the environment: `key_id` under the first name of
    /// [`Env::variable_names`], `secret_key` under the second.
    ///
    /// # Errors
    /// Names the first of the two variables that was not found.
    pub fn new(account_type: &AccountType, key_id: Option<String>, secret_key: Option<String>) -> (env:
        Result<Env, Error>)
        ensures
            match (key_id, secret_key) {
                (Some(k), Some(s)) => env matches Ok(e) && e.key() == k@ && e.secret() == s@,
                (Some(_), None) => env matches Err(Error::MissingEnvironmentVariable { variable_name })
                    && variable_name@ == secret_key_variable(*account_type),
                (None, _) => env matches Err(Error::MissingEnvironmentVariable { variable_name })
                    && variable_name@ == key_id_variable(*account_type),
            },
    {
        let names = Env::variable_names(account_type);
        let key_id = match key_id {
            Some(key_id) => key_id,
            None => {
                return Err(Error::MissingEnvironmentVariable { variable_name: names.0.to_owned() });
            },
        };
        let secret_key = match secret_key {
            Some(secret_key) => secret_key,
            None => {
                return Err(Error::MissingEnvironmentVariable { variable_name: names.1.to_owned() });
            },
        };
        Ok(Env { key_id, secret_key })
    }

    /// The API key ID
    #[must_use]
    pub fn key_id(&self) -> (key_id: &str)
        ensures
            key_id@ == self.key(),
    {
        self.key_id.as_str()
    }

    /// The secret key
    #[must_use]
    pub fn secret_key(&self) -> (secret_key: &str)
        ensures
            secret_key@ == self.secret(),
    {
        self.secret_key.as_str()
    }

    /// What stands for a credential where one is printed: never the
    /// credential itself.
    #[must_use]
    pub fn censored(&self) -> (shown: &'static str)
        ensures
            shown@ == CENSORED_SECRET@,
    {
        CENSORED_SECRET
    }
}

} // verus!
