//! The REST surface: where requests go and the words they use. Sending
//! them is left to the caller.

pub mod market_data;
pub mod query;
pub mod rest_client;
pub mod trading;

pub use rest_client::RestClient;
