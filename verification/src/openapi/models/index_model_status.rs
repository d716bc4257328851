use vstd::prelude::*;

verus! {

/// IndexModelStatus : The readiness and state of an index.
#[derive(Clone, Copy, Debug, PartialEq, Eq, Structural)]
pub struct IndexModelStatus {
    /// Whether the index is ready to serve requests.
    pub ready: bool,
    /// The state of the index.
    pub state: State,
}

impl IndexModelStatus {
    /// The status with the given readiness and state.
    pub fn new(ready: bool, state: State) -> (r: IndexModelStatus)
        ensures
            r.ready == ready,
            r.state == state,
    {
        IndexModelStatus { ready, state }
    }
}

/// The state of an index.
#[derive(Clone, Copy, Debug, PartialEq, Eq, Hash, PartialOrd, Ord, Structural)]
pub enum State {
    /// Initializing
    Initializing,
    /// Initialization failed
    InitializationFailed,
    /// Scaling up
    ScalingUp,
    /// Scaling down
    ScalingDown,
    /// Scaling up the pod size
    ScalingUpPodSize,
    /// Scaling down the pod size
    ScalingDownPodSize,
    /// Terminating
    Terminating,
    /// Ready
    Ready,
}

impl Default for State {
    fn default() -> (r: State)
        ensures
            r == State::Initializing,
    {
        State::Initializing
    }
}

} // verus!
