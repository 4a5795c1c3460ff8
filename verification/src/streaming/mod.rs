//! The streaming market-data session and the messages it exchanges.

pub mod client_state;
pub mod codec;
pub mod stock_data;
pub mod streaming_client;
pub mod subscription;

pub use client_state::ClientState;
pub use streaming_client::StreamingMarketDataClient;
pub use subscription::SubscriptionList;
