//! The node manager and everything it needs to talk to one node.

pub mod credential;
pub mod domain;
pub mod headers;
pub mod hex;
pub mod lnd_manager;
pub mod node_client;
pub mod poll_laws;
pub mod poll_loop;

pub use domain::{ChainData, Feature, LnGetInfo};
pub use hex::buffer_as_hex;
pub use lnd_manager::LndManager;
