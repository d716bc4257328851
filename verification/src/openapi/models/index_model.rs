use super::{DeletionProtection, IndexModelSpec, IndexModelStatus, ModelIndexEmbed};
use crate::models::VectorType;
use std::collections::HashMap;
use vstd::prelude::*;

verus! {

/// IndexModel : The IndexModel describes the configuration and status of a Pinecone index.
#[derive(Clone, Debug, PartialEq)]
pub struct IndexModel {
    /// The name of the index.
    pub name: String,
    /// The dimensions of the vectors to be inserted in the index.
    pub dimension: Option<i32>,
    /// The distance metric to be used for similarity search.
    pub metric: Metric,
    /// The URL address where the index is hosted.
    pub host: String,
    /// Deletion protection of the index.
    pub deletion_protection: Option<DeletionProtection>,
    /// Custom user tags added to the index.
    pub tags: Option<HashMap<String, String>>,
    /// The embedding model of an index with integrated embedding.
    pub embed: Option<Box<ModelIndexEmbed>>,
    /// How the index is deployed.
    pub spec: Box<IndexModelSpec>,
    /// The readiness and state of the index.
    pub status: Box<IndexModelStatus>,
    /// The index vector type.
    pub vector_type: VectorType,
}

impl IndexModel {
    /// The IndexModel describes the configuration and status of a Pinecone index: a dense
    /// index of the given dimension, without deletion protection, tags or embedding model.
    pub fn new(
        name: String,
        dimension: i32,
        metric: Metric,
        host: String,
        spec: IndexModelSpec,
        status: IndexModelStatus,
    ) -> (r: IndexModel)
        ensures
            r.name == name,
            r.dimension == Some(dimension),
            r.metric == metric,
            r.host == host,
            r.deletion_protection is None,
            r.tags is None,
            r.embed is None,
            *r.spec == spec,
            *r.status == status,
            r.vector_type == VectorType::Dense,
    {
        IndexModel {
            name,
            dimension: Some(dimension),
            metric,
            host,
            deletion_protection: None,
            tags: None,
            embed: None,
            spec: Box::new(spec),
            status: Box::new(status),
            vector_type: VectorType::Dense,
        }
    }
}

/// The distance metric to be used for similarity search.
#[derive(Clone, Copy, Debug, PartialEq, Eq, Hash, PartialOrd, Ord, Structural)]
pub enum Metric {
    /// cosine
    Cosine,
    /// euclidean
    Euclidean,
    /// dotproduct
    Dotproduct,
}

impl Default for Metric {
    fn default() -> (r: Metric)
        ensures
            r == Metric::Cosine,
    {
        Metric::Cosine
    }
}

} // verus!
