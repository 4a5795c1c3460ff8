//! Helpers shared by the clients.

pub mod address;
pub mod streaming_client;
pub mod vexpand;

pub use streaming_client::StreamingClient;
pub use vexpand::Vexpand;
