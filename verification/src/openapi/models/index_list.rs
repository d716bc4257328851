use super::IndexModel;
use vstd::prelude::*;

verus! {

/// IndexList : The list of indexes that exist in the project.
#[derive(Clone, Debug, PartialEq)]
pub struct IndexList {
    /// The indexes.
    pub indexes: Option<Vec<IndexModel>>,
}

} // verus!
