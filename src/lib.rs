//! Resolves the funding addresses of a Bitcoin transaction: decodes the raw
//! bytes that a provider returns, checks them against the identifier that was
//! asked for, and derives an address from the output that each input spends.

pub mod model;
pub mod chain;
pub mod hex;
pub mod fetch;
pub mod resolve;
pub mod request;
