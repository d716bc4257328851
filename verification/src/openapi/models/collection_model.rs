use vstd::prelude::*;

verus! {

/// CollectionModel : The CollectionModel describes the configuration and status of a Pinecone collection.
#[derive(Clone, Debug, PartialEq)]
pub struct CollectionModel {
    /// The name of the collection.
    pub name: String,
    /// The size of the collection in bytes.
    pub size: Option<i64>,
    /// The status of the collection.
    pub status: Status,
    /// The dimension of the vectors stored in each record held in the collection.
    pub dimension: Option<i32>,
    /// The number of records stored in the collection.
    pub vector_count: Option<i32>,
    /// The environment where the collection is hosted.
    pub environment: String,
}

impl CollectionModel {
    /// The CollectionModel describes the configuration and status of a Pinecone collection.
    pub fn new(name: String, status: Status, environment: String) -> (r: CollectionModel)
        ensures
            r.name == name,
            r.size is None,
            r.status == status,
            r.dimension is None,
            r.vector_count is None,
            r.environment == environment,
    {
        CollectionModel { name, size: None, status, dimension: None, vector_count: None, environment }
    }
}

/// The status of the collection.
#[derive(Clone, Copy, Debug, PartialEq, Eq, Hash, PartialOrd, Ord, Structural)]
pub enum Status {
    /// Initializing
    Initializing,
    /// Ready
    Ready,
    /// Terminating
    Terminating,
}

impl Default for Status {
    fn default() -> (r: Status)
        ensures
            r == Status::Initializing,
    {
        Status::Initializing
    }
}

} // verus!
