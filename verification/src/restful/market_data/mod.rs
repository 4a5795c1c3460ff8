//! Market data over REST.

pub mod stock;
