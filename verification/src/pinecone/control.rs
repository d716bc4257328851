//! The control plane: the requests that manage indexes and collections, and the decisions
//! taken while waiting for a new index to become ready.

use crate::models::cloud::cloud_to_openapi;
use crate::models::metric::metric_to_request;
use crate::models::index_model::index_model_from_openapi;
use crate::models::{Cloud, IndexModel, Metric, WaitPolicy};
use crate::openapi::models::IndexModel as OpenApiIndexModel;
use crate::openapi::models::create_index_request::Metric as RequestMetric;
use crate::openapi::models::serverless_spec::Cloud as OpenApiCloud;
use crate::openapi::models::{
    ConfigureIndexRequest, ConfigureIndexRequestSpec, ConfigureIndexRequestSpecPod, CreateCollectionRequest,
    CreateIndexRequest, DeletionProtection, IndexSpec, PodSpec, PodSpecMetadataConfig, ServerlessSpec,
};
use crate::utils::errors::PineconeError;
use crate::utils::text::{concat, owned};
use vstd::prelude::*;

verus! {

/// The request that creates a serverless index.
pub fn serverless_index_request(
    name: &str,
    dimension: i32,
    metric: Metric,
    cloud: Cloud,
    region: &str,
    deletion_protection: DeletionProtection,
) -> (r: CreateIndexRequest)
    ensures
        r.name@ == name@,
        r.dimension == dimension,
        r.metric == Some(metric_to_request(metric)),
        r.deletion_protection == Some(deletion_protection),
        r.spec matches Some(spec) && (spec.pod is None && (spec.serverless matches Some(s) && (s.cloud
            == cloud_to_openapi(cloud) && s.region@ == region@))),
{
    let spec = IndexSpec {
        serverless: Some(Box::new(ServerlessSpec { cloud: OpenApiCloud::from(cloud), region: owned(region) })),
        pod: None,
    };
    CreateIndexRequest {
        name: owned(name),
        dimension,
        deletion_protection: Some(deletion_protection),
        metric: Some(RequestMetric::from(metric)),
        spec: Some(Box::new(spec)),
    }
}

/// The names of the metadata fields to index, as owned strings.
fn owned_names(names: &[&str]) -> (r: Vec<String>)
    ensures
        r.deep_view() == names.deep_view(),
{
    let mut r: Vec<String> = Vec::new();
    let mut i: usize = 0;
    while i < names.len()
        invariant
            i <= names.len(),
            r.deep_view() == names.deep_view().take(i as int),
        decreases names.len() - i,
    {
        let ghost before = r.deep_view();
        r.push(owned(names[i]));
        assert(r.deep_view() =~= before.push(names@[i as int]@));
        assert(names.deep_view().take(i + 1) =~= names.deep_view().take(i as int).push(names@[i as int]@));
        i = i + 1;
    }
    assert(names.deep_view().take(names.len() as int) =~= names.deep_view());
    r
}

/// The request that creates a pod-based index.
pub fn pod_index_request(
    name: &str,
    dimension: i32,
    metric: Metric,
    environment: &str,
    pod_type: &str,
    pods: i32,
    replicas: i32,
    shards: i32,
    deletion_protection: DeletionProtection,
    metadata_indexed: Option<&[&str]>,
    source_collection: Option<&str>,
) -> (r: CreateIndexRequest)
    ensures
        r.name@ == name@,
        r.dimension == dimension,
        r.metric == Some(metric_to_request(metric)),
        r.deletion_protection == Some(deletion_protection),
        r.spec matches Some(spec) && (spec.serverless is None && (spec.pod matches Some(p) && (
        p.environment@ == environment@ && p.pod_type@ == pod_type@ && p.pods == pods && p.replicas == replicas
            && p.shards == shards && p.source_collection.deep_view() == match source_collection {
            Some(s) => Some(s@),
            None => None,
        } && (p.metadata_config matches Some(mc) && mc.indexed.deep_view() == match metadata_indexed {
            Some(m) => Some(m.deep_view()),
            None => None,
        })))),
{
    let indexed = match metadata_indexed {
        Some(m) => Some(owned_names(m)),
        None => None,
    };
    let pod_spec = PodSpec {
        environment: owned(environment),
        replicas,
        shards,
        pod_type: owned(pod_type),
        pods,
        metadata_config: Some(Box::new(PodSpecMetadataConfig { indexed })),
        source_collection: match source_collection {
            Some(s) => Some(owned(s)),
            None => None,
        },
    };
    let spec = IndexSpec { serverless: None, pod: Some(Box::new(pod_spec)) };
    CreateIndexRequest {
        name: owned(name),
        dimension,
        deletion_protection: Some(deletion_protection),
        metric: Some(RequestMetric::from(metric)),
        spec: Some(Box::new(spec)),
    }
}

/// The message of the error for a configure request that changes nothing.
pub open spec fn nothing_to_configure_message() -> Seq<char> {
    "At least one of deletion_protection, number of replicas, or pod type must be provided"@
}

/// The request that configures an index: the deletion protection, and the pod settings that
/// are given. Asking to change nothing is an `InvalidConfigurationError`.
pub fn configure_index_request(
    deletion_protection: Option<DeletionProtection>,
    replicas: Option<i32>,
    pod_type: Option<&str>,
) -> (r: Result<ConfigureIndexRequest, PineconeError>)
    ensures
        deletion_protection is None && replicas is None && pod_type is None <==> r is Err,
        r matches Err(e) ==> e matches PineconeError::InvalidConfigurationError { message } && message@
            == nothing_to_configure_message(),
        r matches Ok(req) ==> {
            &&& req.deletion_protection == deletion_protection
            &&& (replicas is None && pod_type is None <==> req.spec is None)
            &&& req.spec matches Some(spec) ==> spec.pod.replicas == replicas && spec.pod.pod_type.deep_view()
                == match pod_type {
                Some(p) => Some(p@),
                None => None,
            }
        },
{
    if replicas.is_none() && pod_type.is_none() && deletion_protection.is_none() {
        return Err(
            PineconeError::InvalidConfigurationError {
                message: owned(
                    "At least one of deletion_protection, number of replicas, or pod type must be provided",
                ),
            },
        );
    }
    let spec = match (replicas, pod_type) {
        (Some(replicas), Some(pod_type)) => Some(
            Box::new(
                ConfigureIndexRequestSpec {
                    pod: Box::new(ConfigureIndexRequestSpecPod { replicas: Some(replicas), pod_type: Some(owned(pod_type)) }),
                },
            ),
        ),
        (Some(replicas), None) => Some(
            Box::new(
                ConfigureIndexRequestSpec {
                    pod: Box::new(ConfigureIndexRequestSpecPod { replicas: Some(replicas), pod_type: None }),
                },
            ),
        ),
        (None, Some(pod_type)) => Some(
            Box::new(
                ConfigureIndexRequestSpec {
                    pod: Box::new(ConfigureIndexRequestSpecPod { replicas: None, pod_type: Some(owned(pod_type)) }),
                },
            ),
        ),
        (None, None) => None,
    };
    Ok(ConfigureIndexRequest { spec, deletion_protection })
}

/// The request that creates a collection from an index.
pub fn create_collection_request(name: &str, source: &str) -> (r: CreateCollectionRequest)
    ensures
        r.name@ == name@,
        r.source@ == source@,
{
    CreateCollectionRequest { name: owned(name), source: owned(source) }
}

/// The longest single wait, in milliseconds, between two checks of an index's readiness.
pub const MAX_POLL_INTERVAL_MS: u64 = 5000;

/// What to do next while waiting for a new index to become ready.
#[derive(Clone, Copy, Debug, PartialEq, Eq, Structural)]
pub enum PollAction {
    /// Stop waiting: creation succeeded.
    Finish,
    /// Describe the index to learn whether it is ready.
    CheckReadiness,
    /// Sleep for this many milliseconds, then check again.
    Sleep(u64),
    /// Stop waiting: the index was not ready in time.
    TimedOut,
}

/// What to do first after creating an index: not wait at all, or check its readiness.
pub fn poll_start(timeout: WaitPolicy) -> (a: PollAction)
    ensures
        a == start_action(timeout),
{
    match timeout {
        WaitPolicy::NoWait => PollAction::Finish,
        WaitPolicy::WaitFor(_) => PollAction::CheckReadiness,
    }
}

/// What to do first after a creation request: not wait at all, or check readiness.
pub open spec fn start_action(timeout: WaitPolicy) -> PollAction {
    match timeout {
        WaitPolicy::NoWait => PollAction::Finish,
        WaitPolicy::WaitFor(_) => PollAction::CheckReadiness,
    }
}

/// What follows the answer to a request that creates an index: a failed creation is that
/// failure, with no wait at all; a created index is described by the SDK's model of it, and
/// the wait for it begins as `timeout` says.
pub fn after_create(created: Result<OpenApiIndexModel, PineconeError>, timeout: WaitPolicy) -> (r: Result<
    (IndexModel, PollAction),
    PineconeError,
>)
    ensures
        match created {
            Err(e) => r == Err::<(IndexModel, PollAction), PineconeError>(e),
            Ok(m) => r == Ok::<(IndexModel, PollAction), PineconeError>(
                (index_model_from_openapi(m), start_action(timeout)),
            ),
        },
{
    match created {
        Err(e) => Err(e),
        Ok(m) => Ok((IndexModel::from(m), poll_start(timeout))),
    }
}

/// The number of nanoseconds in a millisecond.
pub const NANOS_PER_MILLI: u128 = 1_000_000;

/// The whole milliseconds in `nanos`, as a `u64` the way a cast makes one (modulo 2^64).
pub open spec fn whole_millis(nanos: u128) -> u64 {
    (nanos / NANOS_PER_MILLI) as u64
}

/// What to do after a readiness check, `elapsed_ns` nanoseconds after waiting began with a
/// limit of `timeout_ns`: finish when the index is ready, time out once the limit has been
/// exceeded, else sleep for the whole milliseconds left of the limit but at most 5 seconds.
pub open spec fn poll_step(timeout_ns: u128, ready: bool, elapsed_ns: u128) -> PollAction {
    if ready {
        PollAction::Finish
    } else if timeout_ns < elapsed_ns {
        PollAction::TimedOut
    } else if whole_millis((timeout_ns - elapsed_ns) as u128) < MAX_POLL_INTERVAL_MS {
        PollAction::Sleep(whole_millis((timeout_ns - elapsed_ns) as u128))
    } else {
        PollAction::Sleep(MAX_POLL_INTERVAL_MS)
    }
}

/// What to do after a readiness check (see `poll_step`).
pub fn poll_after_check(timeout_ns: u128, ready: bool, elapsed_ns: u128) -> (a: PollAction)
    ensures
        a == poll_step(timeout_ns, ready, elapsed_ns),
{
    if ready {
        PollAction::Finish
    } else if timeout_ns < elapsed_ns {
        PollAction::TimedOut
    } else {
        let remaining = timeout_ns - elapsed_ns;
        let millis = (remaining / NANOS_PER_MILLI) as u64;
        if millis < MAX_POLL_INTERVAL_MS {
            PollAction::Sleep(millis)
        } else {
            PollAction::Sleep(MAX_POLL_INTERVAL_MS)
        }
    }
}

/// Waiting for an index never oversleeps: after a check that finds the index not ready, the
/// wait either times out, which happens exactly when the limit has been exceeded, or sleeps
/// at most 5 seconds and never past the limit, and a shorter sleep (of a limit under 2^64
/// milliseconds away) ends less than a millisecond before the limit; a ready index always
/// ends the wait.
pub proof fn poll_never_oversleeps(timeout_ns: u128, ready: bool, elapsed_ns: u128)
    ensures
        ready ==> poll_step(timeout_ns, ready, elapsed_ns) == PollAction::Finish,
        !ready ==> (poll_step(timeout_ns, ready, elapsed_ns) == PollAction::TimedOut <==> timeout_ns
            < elapsed_ns),
        poll_step(timeout_ns, ready, elapsed_ns) matches PollAction::Sleep(d) ==> {
            &&& !ready
            &&& d <= MAX_POLL_INTERVAL_MS
            &&& elapsed_ns + d * NANOS_PER_MILLI <= timeout_ns
            &&& (d < MAX_POLL_INTERVAL_MS && timeout_ns - elapsed_ns < 0x1_0000_0000_0000_0000 * NANOS_PER_MILLI
                ==> timeout_ns < elapsed_ns + (d + 1) * NANOS_PER_MILLI)
        },
{
    if !ready && elapsed_ns <= timeout_ns {
        let r: u128 = (timeout_ns - elapsed_ns) as u128;
        let q: u128 = r / NANOS_PER_MILLI;
        let w: u64 = q as u64;
        assert(w as u128 <= q) by (bit_vector)
            requires
                w == q as u64,
        ;
        assert(q * 1_000_000 <= r && r < (q + 1) * 1_000_000) by (nonlinear_arith)
            requires
                q == r / 1_000_000,
        ;
        assert(q < 0x1_0000_0000_0000_0000 ==> w as u128 == q) by (bit_vector)
            requires
                w == q as u64,
        ;
        if let PollAction::Sleep(d) = poll_step(timeout_ns, ready, elapsed_ns) {
            assert(d <= w);
            assert(d * 1_000_000 <= w * 1_000_000) by (nonlinear_arith)
                requires
                    d <= w,
            ;
            assert(w * 1_000_000 <= q * 1_000_000) by (nonlinear_arith)
                requires
                    w <= q,
            ;
        }
    }
}

/// Whether a description of the index says that it is ready; a failed description says not.
pub fn index_ready(res: &Result<IndexModel, PineconeError>) -> (b: bool)
    ensures
        b == match res {
            Ok(m) => m.status.ready,
            Err(_) => false,
        },
{
    match res {
        Ok(m) => m.status.ready,
        Err(_) => false,
    }
}

/// The error returned when an index was not ready in time: `Index "<name>" not ready`.
pub fn timeout_error(name: &str) -> (e: PineconeError)
    ensures
        e matches PineconeError::TimeoutError { message } && message@ == "Index \""@ + name@ + "\" not ready"@,
{
    let m = concat("Index \"", name);
    PineconeError::TimeoutError { message: concat(m.as_str(), "\" not ready") }
}

} // verus!
