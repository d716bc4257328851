use super::{ConfigureIndexRequestSpec, DeletionProtection};
use vstd::prelude::*;

verus! {

/// ConfigureIndexRequest : Configuration used to scale an index or change its deletion protection.
#[derive(Clone, Debug, PartialEq)]
pub struct ConfigureIndexRequest {
    /// New deployment settings.
    pub spec: Option<Box<ConfigureIndexRequestSpec>>,
    /// New deletion protection.
    pub deletion_protection: Option<DeletionProtection>,
}

impl ConfigureIndexRequest {
    /// A request that changes nothing.
    pub fn new() -> (r: ConfigureIndexRequest)
        ensures
            r.spec is None,
            r.deletion_protection is None,
    {
        ConfigureIndexRequest { spec: None, deletion_protection: None }
    }
}

} // verus!
