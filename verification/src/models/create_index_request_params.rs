use crate::openapi::models::create_index_request::Metric as RequestMetric;
use crate::openapi::models::serverless_spec::Cloud as OpenApiCloud;
use crate::utils::text::owned;
use vstd::prelude::*;

verus! {

/// The parameters of an index to create.
#[derive(Debug, PartialEq)]
pub struct CreateIndexParams {
    /// The name of the index.
    pub name: String,
    /// The dimension of the vectors.
    pub dimension: u32,
    /// The distance metric.
    pub metric: Metric,
    /// How the index is deployed.
    pub spec: Spec,
}

impl CreateIndexParams {
    /// The parameters with the given name, dimension and spec; the metric defaults to cosine.
    pub fn new(name: &str, dimension: u32, metric: Option<Metric>, spec: Spec) -> (r: CreateIndexParams)
        ensures
            r.name@ == name@,
            r.dimension == dimension,
            r.metric == match metric {
                Some(m) => m,
                None => Metric::Cosine,
            },
            r.spec == spec,
    {
        CreateIndexParams {
            name: owned(name),
            dimension,
            metric: match metric {
                Some(m) => m,
                None => Metric::Cosine,
            },
            spec,
        }
    }
}

/// How an index is deployed.
#[derive(Debug, PartialEq)]
pub enum Spec {
    /// A serverless index.
    Serverless {
        /// The public cloud.
        cloud: Cloud,
        /// The region.
        region: String,
    },
    /// A pod-based index.
    Pod {
        /// The environment.
        environment: String,
        /// The number of replicas.
        replicas: Option<i32>,
        /// The number of shards.
        shards: Option<i32>,
        /// The type of pod.
        pod_type: String,
        /// The number of pods.
        pods: i32,
        /// The metadata configuration.
        metadata_config: Option<String>,
        /// The collection to create the index from.
        source_collection: Option<String>,
    },
}

/// The distance metric of an index to create.
#[derive(Debug, Clone, Copy, PartialEq, Eq, Structural)]
pub enum Metric {
    /// cosine
    Cosine,
    /// euclidean
    Euclidean,
    /// dotproduct
    Dotproduct,
}

/// The public cloud of an index to create.
#[derive(Debug, Clone, Copy, PartialEq, Eq, Structural)]
pub enum Cloud {
    /// AWS
    Aws,
    /// GCP
    Gcp,
    /// Azure
    Azure,
}

/// The metric of a create request for a parameter metric.
pub open spec fn param_metric(m: Metric) -> RequestMetric {
    match m {
        Metric::Cosine => RequestMetric::Cosine,
        Metric::Euclidean => RequestMetric::Euclidean,
        Metric::Dotproduct => RequestMetric::Dotproduct,
    }
}

/// The API's cloud for a parameter cloud.
pub open spec fn param_cloud(c: Cloud) -> OpenApiCloud {
    match c {
        Cloud::Aws => OpenApiCloud::Aws,
        Cloud::Gcp => OpenApiCloud::Gcp,
        Cloud::Azure => OpenApiCloud::Azure,
    }
}

impl From<Metric> for RequestMetric {
    fn from(m: Metric) -> (r: RequestMetric)
        ensures
            r == param_metric(m),
    {
        match m {
            Metric::Cosine => RequestMetric::Cosine,
            Metric::Euclidean => RequestMetric::Euclidean,
            Metric::Dotproduct => RequestMetric::Dotproduct,
        }
    }
}

impl vstd::std_specs::convert::FromSpecImpl<Metric> for RequestMetric {
    open spec fn obeys_from_spec() -> bool {
        true
    }

    open spec fn from_spec(v: Metric) -> RequestMetric {
        param_metric(v)
    }
}

impl From<Cloud> for OpenApiCloud {
    fn from(c: Cloud) -> (r: OpenApiCloud)
        ensures
            r == param_cloud(c),
    {
        match c {
            Cloud::Aws => OpenApiCloud::Aws,
            Cloud::Gcp => OpenApiCloud::Gcp,
            Cloud::Azure => OpenApiCloud::Azure,
        }
    }
}

impl vstd::std_specs::convert::FromSpecImpl<Cloud> for OpenApiCloud {
    open spec fn obeys_from_spec() -> bool {
        true
    }

    open spec fn from_spec(v: Cloud) -> OpenApiCloud {
        param_cloud(v)
    }
}

/// The metric and the cloud of create-index parameters keep their names in a create request:
/// a parameter metric becomes the request metric of the same name, and it is the request
/// metric that the SDK's metric of that name becomes; a parameter cloud becomes the API's
/// cloud of the same name.
pub proof fn params_keep_their_names()
    ensures
        param_metric(Metric::Cosine) == RequestMetric::Cosine,
        param_metric(Metric::Euclidean) == RequestMetric::Euclidean,
        param_metric(Metric::Dotproduct) == RequestMetric::Dotproduct,
        param_metric(Metric::Cosine) == crate::models::metric::metric_to_request(crate::models::Metric::Cosine),
        param_metric(Metric::Euclidean) == crate::models::metric::metric_to_request(crate::models::Metric::Euclidean),
        param_metric(Metric::Dotproduct) == crate::models::metric::metric_to_request(crate::models::Metric::Dotproduct),
        param_cloud(Cloud::Aws) == OpenApiCloud::Aws,
        param_cloud(Cloud::Gcp) == OpenApiCloud::Gcp,
        param_cloud(Cloud::Azure) == OpenApiCloud::Azure,
{
}

} // verus!
