use super::ConfigureIndexRequestSpecPod;
use vstd::prelude::*;

verus! {

/// The deployment settings that a configure request may change.
#[derive(Clone, Debug, PartialEq)]
pub struct ConfigureIndexRequestSpec {
    /// Pod settings.
    pub pod: Box<ConfigureIndexRequestSpecPod>,
}

} // verus!
