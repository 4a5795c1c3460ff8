//! Stock prices.

pub mod streaming;
