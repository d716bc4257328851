use crate::openapi::models::create_index_request::Metric as RequestMetric;
use crate::openapi::models::index_model::Metric as ResponseMetric;
use vstd::prelude::*;

verus! {

/// The distance metric to be used for similarity search. You can use 'euclidean', 'cosine', or 'dotproduct'.
#[derive(Clone, Copy, Debug, PartialEq, Eq, Structural)]
pub enum Metric {
    /// Cosine similarity
    Cosine,
    /// Euclidean distance similarity
    Euclidean,
    /// Dot product similarity
    Dotproduct,
}

impl Default for Metric {
    fn default() -> (r: Metric)
        ensures
            r == Metric::Cosine,
    {
        Metric::Cosine
    }
}

/// The SDK's metric for the metric of a create request.
pub open spec fn metric_from_request(m: RequestMetric) -> Metric {
    match m {
        RequestMetric::Cosine => Metric::Cosine,
        RequestMetric::Euclidean => Metric::Euclidean,
        RequestMetric::Dotproduct => Metric::Dotproduct,
    }
}

/// The SDK's metric for the metric of an index description.
pub open spec fn metric_from_response(m: ResponseMetric) -> Metric {
    match m {
        ResponseMetric::Cosine => Metric::Cosine,
        ResponseMetric::Euclidean => Metric::Euclidean,
        ResponseMetric::Dotproduct => Metric::Dotproduct,
    }
}

/// The metric of a create request for the SDK's metric.
pub open spec fn metric_to_request(m: Metric) -> RequestMetric {
    match m {
        Metric::Cosine => RequestMetric::Cosine,
        Metric::Euclidean => RequestMetric::Euclidean,
        Metric::Dotproduct => RequestMetric::Dotproduct,
    }
}

/// The metric of an index description for the SDK's metric.
pub open spec fn metric_to_response(m: Metric) -> ResponseMetric {
    match m {
        Metric::Cosine => ResponseMetric::Cosine,
        Metric::Euclidean => ResponseMetric::Euclidean,
        Metric::Dotproduct => ResponseMetric::Dotproduct,
    }
}

impl From<RequestMetric> for Metric {
    fn from(openapi_model: RequestMetric) -> (r: Metric)
        ensures
            r == metric_from_request(openapi_model),
    {
        match openapi_model {
            RequestMetric::Cosine => Metric::Cosine,
            RequestMetric::Euclidean => Metric::Euclidean,
            RequestMetric::Dotproduct => Metric::Dotproduct,
        }
    }
}

impl vstd::std_specs::convert::FromSpecImpl<RequestMetric> for Metric {
    open spec fn obeys_from_spec() -> bool {
        true
    }

    open spec fn from_spec(v: RequestMetric) -> Metric {
        metric_from_request(v)
    }
}

impl From<ResponseMetric> for Metric {
    fn from(openapi_model: ResponseMetric) -> (r: Metric)
        ensures
            r == metric_from_response(openapi_model),
    {
        match openapi_model {
            ResponseMetric::Cosine => Metric::Cosine,
            ResponseMetric::Euclidean => Metric::Euclidean,
            ResponseMetric::Dotproduct => Metric::Dotproduct,
        }
    }
}

impl vstd::std_specs::convert::FromSpecImpl<ResponseMetric> for Metric {
    open spec fn obeys_from_spec() -> bool {
        true
    }

    open spec fn from_spec(v: ResponseMetric) -> Metric {
        metric_from_response(v)
    }
}

impl From<Metric> for RequestMetric {
    fn from(model: Metric) -> (r: RequestMetric)
        ensures
            r == metric_to_request(model),
    {
        match model {
            Metric::Cosine => RequestMetric::Cosine,
            Metric::Euclidean => RequestMetric::Euclidean,
            Metric::Dotproduct => RequestMetric::Dotproduct,
        }
    }
}

impl vstd::std_specs::convert::FromSpecImpl<Metric> for RequestMetric {
    open spec fn obeys_from_spec() -> bool {
        true
    }

    open spec fn from_spec(v: Metric) -> RequestMetric {
        metric_to_request(v)
    }
}

impl From<Metric> for ResponseMetric {
    fn from(model: Metric) -> (r: ResponseMetric)
        ensures
            r == metric_to_response(model),
    {
        match model {
            Metric::Cosine => ResponseMetric::Cosine,
            Metric::Euclidean => ResponseMetric::Euclidean,
            Metric::Dotproduct => ResponseMetric::Dotproduct,
        }
    }
}

impl vstd::std_specs::convert::FromSpecImpl<Metric> for ResponseMetric {
    open spec fn obeys_from_spec() -> bool {
        true
    }

    open spec fn from_spec(v: Metric) -> ResponseMetric {
        metric_to_response(v)
    }
}

/// Converting a metric to either of the API's metrics and back gives the same metric, both
/// ways round; and a metric sent in a create request is the one the index description reports.
pub proof fn metric_conversion_round_trip(m: Metric, req: RequestMetric, resp: ResponseMetric)
    ensures
        metric_from_request(metric_to_request(m)) == m,
        metric_from_response(metric_to_response(m)) == m,
        metric_to_request(metric_from_request(req)) == req,
        metric_to_response(metric_from_response(resp)) == resp,
        metric_from_response(metric_to_response(metric_from_request(req))) == metric_from_request(req),
{
}

/// Every conversion of a metric keeps its name: cosine stays cosine, euclidean stays
/// euclidean and dot product stays dot product, between the SDK's metric and the metric of a
/// create request or of an index description, in either direction.
pub proof fn metric_conversions_keep_the_name()
    ensures
        metric_to_request(Metric::Cosine) == RequestMetric::Cosine,
        metric_to_request(Metric::Euclidean) == RequestMetric::Euclidean,
        metric_to_request(Metric::Dotproduct) == RequestMetric::Dotproduct,
        metric_to_response(Metric::Cosine) == ResponseMetric::Cosine,
        metric_to_response(Metric::Euclidean) == ResponseMetric::Euclidean,
        metric_to_response(Metric::Dotproduct) == ResponseMetric::Dotproduct,
        metric_from_request(RequestMetric::Cosine) == Metric::Cosine,
        metric_from_request(RequestMetric::Euclidean) == Metric::Euclidean,
        metric_from_request(RequestMetric::Dotproduct) == Metric::Dotproduct,
        metric_from_response(ResponseMetric::Cosine) == Metric::Cosine,
        metric_from_response(ResponseMetric::Euclidean) == Metric::Euclidean,
        metric_from_response(ResponseMetric::Dotproduct) == Metric::Dotproduct,
{
}

} // verus!
