//! The trading API.

pub mod accounts;
pub mod assets;
pub mod orders;
