use vstd::prelude::*;

verus! {

/// The pod settings that a configure request may change.
#[derive(Clone, Debug, PartialEq)]
pub struct ConfigureIndexRequestSpecPod {
    /// The number of replicas.
    pub replicas: Option<i32>,
    /// The type of pod to use.
    pub pod_type: Option<String>,
}

impl ConfigureIndexRequestSpecPod {
    /// Pod settings that change nothing.
    pub fn new() -> (r: ConfigureIndexRequestSpecPod)
        ensures
            r.replicas is None,
            r.pod_type is None,
    {
        ConfigureIndexRequestSpecPod { replicas: None, pod_type: None }
    }
}

} // verus!
