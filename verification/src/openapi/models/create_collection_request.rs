use vstd::prelude::*;

verus! {

/// CreateCollectionRequest : The configuration needed to create a Pinecone collection.
#[derive(Clone, Debug, PartialEq)]
pub struct CreateCollectionRequest {
    /// The name of the collection.
    pub name: String,
    /// The name of the index to be used as the source for the collection.
    pub source: String,
}

} // verus!
