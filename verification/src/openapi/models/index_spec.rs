use super::{PodSpec, ServerlessSpec};
use vstd::prelude::*;

verus! {

/// IndexSpec : The spec object defines how the index should be deployed: only the cloud and
/// region for serverless indexes; the environment, pod type and size and other
/// characteristics for pod-based indexes.
#[derive(Clone, Debug, PartialEq)]
pub struct IndexSpec {
    /// Serverless deployment.
    pub serverless: Option<Box<ServerlessSpec>>,
    /// Pod-based deployment.
    pub pod: Option<Box<PodSpec>>,
}

impl IndexSpec {
    /// A spec with neither deployment set.
    pub fn new() -> (r: IndexSpec)
        ensures
            r.serverless is None,
            r.pod is None,
    {
        IndexSpec { serverless: None, pod: None }
    }
}

} // verus!
