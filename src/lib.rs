//! Dynamic DNS update engine: keeps DNS A records pointed at the current
//! public IPv4 address, resolving zone and record names through a cache with
//! expiry and touching the provider only when the address has changed.

pub mod address;
pub mod error;
pub mod cache;
pub mod resolve;
pub mod engine;
pub mod retry;
pub mod opts;
pub mod schedule;
pub mod notify;
pub mod certificate;
pub mod scrape;
