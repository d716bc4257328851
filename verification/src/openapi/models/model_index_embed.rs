use vstd::prelude::*;

verus! {

/// A JSON value, as serde_json represents it. The library carries such values through
/// without looking inside them.
#[verifier::external_type_specification]
#[verifier::external_body]
pub struct ExJsonValue(serde_json::Value);

/// ModelIndexEmbed : The embedding model and document fields mapped to embedding inputs.
#[derive(Clone, Debug, PartialEq)]
pub struct ModelIndexEmbed {
    /// The name of the embedding model used to create the index.
    pub model: String,
    /// The distance metric to be used for similarity search.
    pub metric: Option<Metric>,
    /// The dimensions of the vectors to be inserted in the index.
    pub dimension: Option<i32>,
    /// The index vector type.
    pub vector_type: Option<String>,
    /// Identifies the name of the text field from your document model that is embedded.
    pub field_map: Option<serde_json::Value>,
    /// The read parameters for the embedding model.
    pub read_parameters: Option<serde_json::Value>,
    /// The write parameters for the embedding model.
    pub write_parameters: Option<serde_json::Value>,
}

/// The distance metric of an index with integrated embedding.
#[derive(Clone, Copy, Debug, PartialEq, Eq, Hash, PartialOrd, Ord, Structural)]
pub enum Metric {
    /// cosine
    Cosine,
    /// euclidean
    Euclidean,
    /// dotproduct
    Dotproduct,
}

} // verus!
