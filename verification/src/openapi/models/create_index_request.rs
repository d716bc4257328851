use super::{DeletionProtection, IndexSpec};
use vstd::prelude::*;

verus! {

/// CreateIndexRequest : The configuration needed to create a Pinecone index.
#[derive(Clone, Debug, PartialEq)]
pub struct CreateIndexRequest {
    /// The name of the index.
    pub name: String,
    /// The dimensions of the vectors to be inserted in the index.
    pub dimension: i32,
    /// The distance metric to be used for similarity search.
    pub metric: Option<Metric>,
    /// Deletion protection of the index.
    pub deletion_protection: Option<DeletionProtection>,
    /// How the index should be deployed.
    pub spec: Option<Box<IndexSpec>>,
}

/// The distance metric to be used for similarity search.
#[derive(Clone, Copy, Debug, PartialEq, Eq, Hash, PartialOrd, Ord, Structural)]
pub enum Metric {
    /// cosine
    Cosine,
    /// euclidean
    Euclidean,
    /// dotproduct
    Dotproduct,
}

impl Default for Metric {
    fn default() -> (r: Metric)
        ensures
            r == Metric::Cosine,
    {
        Metric::Cosine
    }
}

} // verus!
