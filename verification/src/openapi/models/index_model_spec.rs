use super::{PodSpec, ServerlessSpec};
use vstd::prelude::*;

verus! {

/// IndexModelSpec : How an existing index is deployed.
#[derive(Clone, Debug, PartialEq)]
pub struct IndexModelSpec {
    /// Serverless deployment.
    pub serverless: Option<Box<ServerlessSpec>>,
    /// Pod-based deployment.
    pub pod: Option<Box<PodSpec>>,
}

impl IndexModelSpec {
    /// A spec with neither deployment set.
    pub fn new() -> (r: IndexModelSpec)
        ensures
            r.serverless is None,
            r.pod is None,
    {
        IndexModelSpec { serverless: None, pod: None }
    }
}

} // verus!
