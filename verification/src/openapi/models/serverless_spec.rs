use vstd::prelude::*;

verus! {

/// ServerlessSpec : Configuration needed to deploy a serverless index.
#[derive(Clone, Debug, PartialEq)]
pub struct ServerlessSpec {
    /// The public cloud where you would like your index hosted.
    pub cloud: Cloud,
    /// The region where you would like your index to be created.
    pub region: String,
}

impl ServerlessSpec {
    /// Configuration needed to deploy a serverless index.
    pub fn new(cloud: Cloud, region: String) -> (r: ServerlessSpec)
        ensures
            r.cloud == cloud,
            r.region == region,
    {
        ServerlessSpec { cloud, region }
    }
}

/// The public cloud where you would like your index hosted.
#[derive(Clone, Copy, Debug, PartialEq, Eq, Hash, PartialOrd, Ord, Structural)]
pub enum Cloud {
    /// GCP
    Gcp,
    /// AWS
    Aws,
    /// Azure
    Azure,
}

impl Default for Cloud {
    fn default() -> (r: Cloud)
        ensures
            r == Cloud::Gcp,
    {
        Cloud::Gcp
    }
}

} // verus!
