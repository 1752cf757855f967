//! One feature bit that a node advertises.

use vstd::prelude::*;

verus! {

/// A named feature, and whether it is required and known.
#[derive(Debug, Clone, PartialEq)]
pub struct Feature {
    pub name: String,
    pub is_required: bool,
    pub is_known: bool,
}

/// The mathematical value of a [`Feature`].
pub struct FeatureView {
    pub name: Seq<char>,
    pub is_required: bool,
    pub is_known: bool,
}

impl View for Feature {
    type V = FeatureView;

    open spec fn view(&self) -> FeatureView {
        FeatureView { name: self.name@, is_required: self.is_required, is_known: self.is_known }
    }
}

} // verus!
