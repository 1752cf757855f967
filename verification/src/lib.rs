//! A supervised poller that health-checks a remote node over HTTP.
//!
//! The library holds the rules of the polling lifecycle: how the credential is
//! encoded, what one request looks like, how a reply is classified, what gets
//! logged, and how a manager moves between its states.

pub mod bot;
pub mod lnd;
pub mod startup;
