//! One chain that a node is connected to.

use vstd::prelude::*;

verus! {

/// A chain and the network of that chain.
#[derive(Debug, Clone, PartialEq)]
pub struct ChainData {
    pub chain: String,
    pub network: String,
}

/// The mathematical value of a [`ChainData`].
pub struct ChainDataView {
    pub chain: Seq<char>,
    pub network: Seq<char>,
}

impl View for ChainData {
    type V = ChainDataView;

    open spec fn view(&self) -> ChainDataView {
        ChainDataView { chain: self.chain@, network: self.network@ }
    }
}

} // verus!
