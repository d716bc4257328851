use super::PodSpecMetadataConfig;
use vstd::prelude::*;

verus! {

/// PodSpec : Configuration needed to deploy a pod-based index.
#[derive(Clone, Debug, PartialEq)]
pub struct PodSpec {
    /// The environment where the index is hosted.
    pub environment: String,
    /// The number of replicas.
    pub replicas: i32,
    /// The number of shards.
    pub shards: i32,
    /// The type of pod to use.
    pub pod_type: String,
    /// The number of pods to be used in the index.
    pub pods: i32,
    /// Configuration of the metadata index.
    pub metadata_config: Option<Box<PodSpecMetadataConfig>>,
    /// The name of the collection to be used as the source for the index.
    pub source_collection: Option<String>,
}

impl PodSpec {
    /// Configuration needed to deploy a pod-based index.
    pub fn new(environment: String, replicas: i32, shards: i32, pod_type: String, pods: i32) -> (r: PodSpec)
        ensures
            r.environment == environment,
            r.replicas == replicas,
            r.shards == shards,
            r.pod_type == pod_type,
            r.pods == pods,
            r.metadata_config is None,
            r.source_collection is None,
    {
        PodSpec {
            environment,
            replicas,
            shards,
            pod_type,
            pods,
            metadata_config: None,
            source_collection: None,
        }
    }
}

} // verus!
