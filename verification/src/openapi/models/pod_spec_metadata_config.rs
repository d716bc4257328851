use vstd::prelude::*;

verus! {

/// Configuration for the behavior of Pinecone's internal metadata index.
#[derive(Clone, Debug, PartialEq)]
pub struct PodSpecMetadataConfig {
    /// The metadata fields to index; when absent, every field is indexed.
    pub indexed: Option<Vec<String>>,
}

impl PodSpecMetadataConfig {
    /// A configuration that indexes every metadata field.
    pub fn new() -> (r: PodSpecMetadataConfig)
        ensures
            r.indexed is None,
    {
        PodSpecMetadataConfig { indexed: None }
    }
}

} // verus!
