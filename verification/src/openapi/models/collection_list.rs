use super::CollectionModel;
use vstd::prelude::*;

verus! {

/// CollectionList : The list of collections that exist in the project.
#[derive(Clone, Debug, PartialEq)]
pub struct CollectionList {
    /// The collections.
    pub collections: Option<Vec<CollectionModel>>,
}

} // verus!
