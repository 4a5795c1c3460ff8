//! Client-side logic for a brokerage's trading and market-data API.
//!
//! The crate holds the decisions of the streaming market-data session, the
//! wire grammar of its messages and the small vocabulary of the REST
//! surface. It performs no I/O itself: a caller owns the socket, hands
//! inbound frames to the session and carries out the actions it returns.

pub mod account_type;
pub mod alpaca_env;
pub mod env;
pub mod error;
pub mod feed;
pub mod json;
pub mod market_data;
pub mod restful;
pub mod streaming;
pub mod text;
pub mod utilities;

pub use account_type::AccountType;
pub use env::Env;
pub use error::Error;
pub use error::Result;
pub use feed::Feed;
