use pinecone_sdk::models::{Cloud, DeletionProtection, Metric, WaitPolicy};
use pinecone_sdk::openapi::models::create_index_request::Metric as RequestMetric;
use pinecone_sdk::openapi::models::serverless_spec::Cloud as OpenApiCloud;
use pinecone_sdk::openapi::models::EmbedRequestParameters;
use pinecone_sdk::pinecone::control::{
    after_create, configure_index_request, create_collection_request, index_ready, pod_index_request, poll_after_check,
    poll_start, serverless_index_request, timeout_error, PollAction, MAX_POLL_INTERVAL_MS,
};
use pinecone_sdk::pinecone::inference::embed_request;
use pinecone_sdk::utils::errors::{handle_response_error, PineconeError, WrappedResponseContent};
use pinecone_sdk::openapi::models::{IndexModel as OpenApiIndexModel, IndexModelSpec, IndexModelStatus};
use pinecone_sdk::models::State;
use pinecone_sdk::openapi::models::index_model::Metric as ResponseMetric;

#[test]
fn test_configure_index_no_params() {
    let res = configure_index_request(None, None, None);
    assert!(matches!(res, Err(PineconeError::InvalidConfigurationError { .. })));
    assert_eq!(
        res,
        Err(PineconeError::InvalidConfigurationError {
            message: "At least one of deletion_protection, number of replicas, or pod type must be provided"
                .to_string()
        })
    );
}

#[test]
fn test_configure_index() {
    let req = configure_index_request(None, Some(6), Some("p1.x1")).expect("a request");
    let spec = req.spec.expect("a pod spec");
    assert_eq!(spec.pod.replicas, Some(6));
    assert_eq!(spec.pod.pod_type.as_deref(), Some("p1.x1"));
    assert_eq!(req.deletion_protection, None);
}

#[test]
fn test_configure_deletion_protection() {
    let req = configure_index_request(Some(DeletionProtection::Disabled), None, None).expect("a request");
    assert!(req.spec.is_none());
    assert_eq!(req.deletion_protection, Some(DeletionProtection::Disabled));

    let req = configure_index_request(None, None, Some("p2.x2")).expect("a request");
    let spec = req.spec.expect("a pod spec");
    assert_eq!(spec.pod.replicas, None);
    assert_eq!(spec.pod.pod_type.as_deref(), Some("p2.x2"));
}

#[test]
fn test_create_serverless_index() {
    let req = serverless_index_request(
        "index-name",
        10,
        Metric::Euclidean,
        Cloud::Aws,
        "us-east-1",
        DeletionProtection::Enabled,
    );
    assert_eq!(req.name, "index-name");
    assert_eq!(req.dimension, 10);
    assert_eq!(req.metric, Some(RequestMetric::Euclidean));
    assert_eq!(req.deletion_protection, Some(DeletionProtection::Enabled));
    let spec = req.spec.expect("a spec");
    assert!(spec.pod.is_none());
    let s = spec.serverless.expect("a serverless spec");
    assert_eq!(s.cloud, OpenApiCloud::Aws);
    assert_eq!(s.region, "us-east-1");
}

#[test]
fn test_create_pod_index() {
    let indexed = ["genre", "title", "imdb_rating"];
    let req = pod_index_request(
        "index-name",
        1536,
        Metric::Euclidean,
        "us-east-1-aws",
        "p1.x1",
        1,
        1,
        1,
        DeletionProtection::Enabled,
        Some(&indexed[..]),
        Some("example-collection"),
    );
    assert_eq!(req.name, "index-name");
    assert_eq!(req.dimension, 1536);
    assert_eq!(req.metric, Some(RequestMetric::Euclidean));
    let spec = req.spec.expect("a spec");
    assert!(spec.serverless.is_none());
    let pod = spec.pod.expect("a pod spec");
    assert_eq!(pod.environment, "us-east-1-aws");
    assert_eq!(pod.pod_type, "p1.x1");
    assert_eq!(
        pod.metadata_config.expect("metadata config").indexed,
        Some(vec!["genre".to_string(), "title".to_string(), "imdb_rating".to_string()])
    );
    assert_eq!(pod.pods, 1);
    assert_eq!(pod.replicas, 1);
    assert_eq!(pod.shards, 1);
    assert_eq!(pod.source_collection, Some("example-collection".to_string()));
}

#[test]
fn test_create_pod_index_with_defaults() {
    let req = pod_index_request(
        "index-name",
        1536,
        Metric::Cosine,
        "us-east-1-aws",
        "p1.x1",
        1,
        1,
        1,
        DeletionProtection::Disabled,
        None,
        None,
    );
    let pod = req.spec.expect("a spec").pod.expect("a pod spec");
    assert_eq!(pod.metadata_config.as_ref().unwrap().indexed, None);
    assert_eq!(pod.source_collection, None);
    assert_eq!(req.metric, Some(RequestMetric::Cosine));
}

#[test]
fn test_create_collection() {
    let req = create_collection_request("collection-name", "index-name");
    assert_eq!(req.name, "collection-name");
    assert_eq!(req.source, "index-name");
}

const MS: u128 = 1_000_000;

#[test]
fn test_handle_polling_index_ok() {
    // a ready index ends the wait at once
    assert_eq!(poll_start(WaitPolicy::WaitFor(7_000 * MS)), PollAction::CheckReadiness);
    assert_eq!(poll_after_check(7_000 * MS, true, 0), PollAction::Finish);
    assert_eq!(poll_start(WaitPolicy::NoWait), PollAction::Finish);
}

#[test]
fn test_handle_polling_index_err() {
    // an index that never gets ready within 7 seconds: checks at 0 s, 5 s and 7 s, then a timeout
    assert_eq!(poll_after_check(7_000 * MS, false, 0), PollAction::Sleep(5_000));
    assert_eq!(poll_after_check(7_000 * MS, false, 5_000 * MS), PollAction::Sleep(2_000));
    assert_eq!(poll_after_check(7_000 * MS, false, 7_000 * MS), PollAction::Sleep(0));
    assert_eq!(poll_after_check(7_000 * MS, false, 7_000 * MS + 1), PollAction::TimedOut);
    assert_eq!(
        timeout_error("index-name"),
        PineconeError::TimeoutError { message: "Index \"index-name\" not ready".to_string() }
    );
}

#[test]
fn poll_counts_whole_milliseconds() {
    // 1.9 ms left: sleep 1 ms; less than a millisecond left: sleep 0 ms and check again
    assert_eq!(poll_after_check(10 * MS, false, 8 * MS + 100_000), PollAction::Sleep(1));
    assert_eq!(poll_after_check(10 * MS, false, 10 * MS - 1), PollAction::Sleep(0));
    assert_eq!(poll_after_check(10 * MS, false, 10 * MS), PollAction::Sleep(0));
    assert_eq!(poll_after_check(10 * MS, false, 10 * MS + 1), PollAction::TimedOut);
    // a sub-millisecond limit
    assert_eq!(poll_after_check(500, false, 0), PollAction::Sleep(0));
    assert_eq!(poll_after_check(500, false, 501), PollAction::TimedOut);
}

#[test]
fn poll_never_sleeps_past_the_limit() {
    let limit: u128 = 300_000 * MS;
    for elapsed in [0u128, 1, 4_999 * MS, 5_000 * MS, 10_000 * MS, 299_999 * MS + 7, limit] {
        match poll_after_check(limit, false, elapsed) {
            PollAction::Sleep(d) => {
                assert!(d <= MAX_POLL_INTERVAL_MS);
                assert!(elapsed + u128::from(d) * MS <= limit);
            }
            other => panic!("unexpected {:?}", other),
        }
    }
    assert_eq!(poll_after_check(limit, false, limit + 1), PollAction::TimedOut);
    assert_eq!(poll_after_check(0, true, 1_000_000 * MS), PollAction::Finish);
    // the longest limit a `Duration` holds still sleeps at most 5 seconds
    assert_eq!(poll_after_check(u128::from(u64::MAX) * 1_000_000_000 + 999_999_999, false, 0), PollAction::Sleep(5_000));
    // whole milliseconds past 2^64 are taken modulo 2^64, as a cast to u64 takes them
    assert_eq!(poll_after_check(((1u128 << 64) + 3) * MS, false, 0), PollAction::Sleep(3));
}

#[test]
fn readiness_of_a_description() {
    let err: Result<pinecone_sdk::models::IndexModel, PineconeError> =
        Err(PineconeError::IoError { message: "x".to_string() });
    assert!(!index_ready(&err));
}

#[test]
fn test_embed_request() {
    let inputs = vec!["Hello, world!", "second"];
    let params = EmbedRequestParameters { input_type: Some("query".to_string()), truncate: None };
    let req = embed_request("multilingual-e5-large", Some(params.clone()), &inputs);
    assert_eq!(req.model, "multilingual-e5-large");
    assert_eq!(req.parameters, Some(Box::new(params)));
    assert_eq!(req.inputs.len(), 2);
    assert_eq!(req.inputs[0].text.as_deref(), Some("Hello, world!"));
    assert_eq!(req.inputs[1].text.as_deref(), Some("second"));
    let req = embed_request("m", None, &vec![]);
    assert!(req.parameters.is_none());
    assert!(req.inputs.is_empty());
}

fn created_index() -> OpenApiIndexModel {
    OpenApiIndexModel::new(
        "index-name".to_string(),
        1536,
        ResponseMetric::Euclidean,
        "index-name.svc.io".to_string(),
        IndexModelSpec::new(),
        IndexModelStatus::new(false, State::Initializing),
    )
}

#[test]
fn failed_creation_skips_the_wait() {
    let body = r#"
                    {
                        "error": {
                            "code": "FORBIDDEN",
                            "message": "Increase yoru quota or upgrade to create more indexes."
                        },
                        "status": 403
                    }
                "#;
    let failed: Result<OpenApiIndexModel, PineconeError> = Err(handle_response_error(WrappedResponseContent { status: 403, content: body.to_string() }));
    // a failed creation is its error, whatever the wait policy: no wait begins
    assert!(matches!(after_create(failed.clone(), WaitPolicy::NoWait), Err(PineconeError::PodQuotaExceededError { .. })));
    assert!(matches!(
        after_create(failed, WaitPolicy::WaitFor(7_000 * MS)),
        Err(PineconeError::PodQuotaExceededError { .. })
    ));
}

#[test]
fn created_index_starts_the_wait() {
    let (model, first) = after_create(Ok(created_index()), WaitPolicy::WaitFor(7_000 * MS)).expect("created");
    assert_eq!(model.name, "index-name");
    assert_eq!(model.dimension, Some(1536));
    assert_eq!(model.metric, Metric::Euclidean);
    assert_eq!(first, PollAction::CheckReadiness);
    let (_, first) = after_create(Ok(created_index()), WaitPolicy::NoWait).expect("created");
    assert_eq!(first, PollAction::Finish);
}
