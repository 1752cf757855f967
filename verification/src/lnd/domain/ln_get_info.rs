//! The status that a node returns when asked for its info.

use crate::lnd::domain::chain_data::{ChainData, ChainDataView};
use crate::lnd::domain::feature::{Feature, FeatureView};
use std::collections::HashMap;
use vstd::prelude::*;

verus! {

/// A snapshot of a node's state. It is built from one reply, logged, and
/// dropped: nothing of it is kept from one tick to the next.
#[derive(Debug, Clone, PartialEq)]
pub struct LnGetInfo {
    pub version: String,
    pub commit_hash: String,
    pub identity_pubkey: String,
    pub alias: String,
    pub color: String,
    pub num_pending_channels: i64,
    pub num_active_channels: i64,
    pub num_inactive_channels: i64,
    pub num_peers: i64,
    pub block_height: i64,
    pub block_hash: String,
    pub best_header_timestamp: String,
    pub synced_to_chain: bool,
    pub synced_to_graph: bool,
    pub testnet: bool,
    pub chains: Vec<ChainData>,
    pub uris: Vec<String>,
    pub features: HashMap<i64, Feature>,
}

/// The mathematical value of an [`LnGetInfo`].
pub struct LnGetInfoView {
    pub version: Seq<char>,
    pub commit_hash: Seq<char>,
    pub identity_pubkey: Seq<char>,
    pub alias: Seq<char>,
    pub color: Seq<char>,
    pub num_pending_channels: int,
    pub num_active_channels: int,
    pub num_inactive_channels: int,
    pub num_peers: int,
    pub block_height: int,
    pub block_hash: Seq<char>,
    pub best_header_timestamp: Seq<char>,
    pub synced_to_chain: bool,
    pub synced_to_graph: bool,
    pub testnet: bool,
    pub chains: Seq<ChainDataView>,
    pub uris: Seq<Seq<char>>,
    pub features: Map<i64, FeatureView>,
}

impl View for LnGetInfo {
    type V = LnGetInfoView;

    open spec fn view(&self) -> LnGetInfoView {
        LnGetInfoView {
            version: self.version@,
            commit_hash: self.commit_hash@,
            identity_pubkey: self.identity_pubkey@,
            alias: self.alias@,
            color: self.color@,
            num_pending_channels: self.num_pending_channels as int,
            num_active_channels: self.num_active_channels as int,
            num_inactive_channels: self.num_inactive_channels as int,
            num_peers: self.num_peers as int,
            block_height: self.block_height as int,
            block_hash: self.block_hash@,
            best_header_timestamp: self.best_header_timestamp@,
            synced_to_chain: self.synced_to_chain,
            synced_to_graph: self.synced_to_graph,
            testnet: self.testnet,
            chains: self.chains@.map_values(|c: ChainData| c@),
            uris: self.uris@.map_values(|u: String| u@),
            features: self.features@.map_values(|f: Feature| f@),
        }
    }
}

} // verus!
