//! Market data as a plain stream: one websocket per subscription, no
//! session on top.

pub mod stock_pricing;

pub use crate::streaming::stock_data::Request;
pub use crate::streaming::subscription::SubscriptionList;
