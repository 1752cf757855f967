//! What a node reports about itself.

pub mod chain_data;
pub mod feature;
pub mod ln_get_info;

pub use chain_data::{ChainData, ChainDataView};
pub use feature::{Feature, FeatureView};
pub use ln_get_info::{LnGetInfo, LnGetInfoView};
