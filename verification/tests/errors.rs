use pinecone_sdk::utils::status::{display_status, status_line};
use pinecone_sdk::openapi::apis::{Error as OpenApiError, ResponseContent};
use pinecone_sdk::utils::errors::{handle_response_error, ErrorSource, PineconeError, WrappedResponseContent};

fn response(status: u16, content: &str) -> WrappedResponseContent {
    WrappedResponseContent { status, content: content.to_string() }
}

const INVALID_REGION_BODY: &str = r#"{
                    "error": {
                        "code": "NOT_FOUND",
                        "message": "Resource cloud: aws region: abc not found."
                    },
                    "status": 404
                }"#;

#[test]
fn test_create_serverless_index_invalid_region() {
    let err = handle_response_error(response(404, INVALID_REGION_BODY));
    assert!(matches!(err, PineconeError::InvalidRegionError { .. }));
}

#[test]
fn test_create_serverless_index_index_exists() {
    let body = r#"{
                        "error": {
                            "code": "ALREADY_EXISTS",
                            "message": "Resource already exists."
                        },
                        "status": 409
                    }"#;
    let err = handle_response_error(response(409, body));
    assert!(matches!(err, PineconeError::ResourceAlreadyExistsError { .. }));
}

#[test]
fn test_create_serverless_index_unprocessable_entity() {
    let body = r#"{
                    "error": {
                            "code": "INVALID_ARGUMENT",
                            "message": "Failed to deserialize the JSON body into the target type: missing field `metric` at line 1 column 16"
                        },
                    "status": 422
                }"#;
    let err = handle_response_error(response(422, body));
    assert!(matches!(err, PineconeError::UnprocessableEntityError { .. }));
}

#[test]
fn test_create_serverless_index_internal_error() {
    let err = handle_response_error(response(500, ""));
    assert!(matches!(err, PineconeError::InternalServerError { .. }));
}

#[test]
fn test_describe_index_invalid_name() {
    let body = r#"{
                    "error": "Index invalid-index not found"
                }"#;
    let err = handle_response_error(response(404, body));
    assert!(matches!(err, PineconeError::IndexNotFoundError { .. }));
}

#[test]
fn test_create_pod_index_quota_exceeded() {
    let body = r#"
                    {
                        "error": {
                            "code": "FORBIDDEN",
                            "message": "Increase yoru quota or upgrade to create more indexes."
                        },
                        "status": 403
                    }
                "#;
    let err = handle_response_error(response(403, body));
    assert!(matches!(err, PineconeError::PodQuotaExceededError { .. }));
}

#[test]
fn test_create_pod_index_invalid_environment() {
    let body = r#"
                    {
                        "error": "Invalid environment"
                    }
                "#;
    let err = handle_response_error(response(400, body));
    assert!(matches!(err, PineconeError::BadRequestError { .. }));
}

#[test]
fn test_delete_index_invalid_name() {
    let body = r#"
                    {
                        "error": "Index not found"
                    }
                "#;
    let err = handle_response_error(response(404, body));
    assert!(matches!(err, PineconeError::IndexNotFoundError { .. }));
}

#[test]
fn test_delete_index_pending_collection() {
    let err = handle_response_error(response(412, ""));
    assert!(matches!(err, PineconeError::PendingCollectionError { .. }));
}

#[test]
fn test_create_collection_quota_exceeded() {
    let body = r#"
                    {
                        "error": {
                            "code": "FORBIDDEN",
                            "message": "Collection exceeds quota. Maximum allowed on your account is 1. Currently have 1."
                        },
                        "status": 403
                    }
                "#;
    let err = handle_response_error(response(403, body));
    assert!(matches!(err, PineconeError::CollectionsQuotaExceededError { .. }));
}

#[test]
fn test_create_collection_invalid_name() {
    let body = r#"
                    {
                        "error": "Index not found"
                    }
                "#;
    let err = handle_response_error(response(409, body));
    assert!(matches!(err, PineconeError::ResourceAlreadyExistsError { .. }));
}

#[test]
fn test_describe_collection_invalid_name() {
    let body = r#"{
                    "error": "Collection invalid-collection not found"
                }"#;
    let err = handle_response_error(response(404, body));
    assert!(matches!(err, PineconeError::CollectionNotFoundError { .. }));
}

#[test]
fn not_found_without_known_subject_is_internal() {
    let err = handle_response_error(response(404, "no such thing"));
    assert_eq!(err, PineconeError::InternalServerError { source: response(404, "no such thing") });
    let err = handle_response_error(response(404, "unknown cloud"));
    assert!(matches!(err, PineconeError::InvalidCloudError { .. }));
}

#[test]
fn forbidden_classification() {
    let err = handle_response_error(response(403, "Deletion protection is enabled for this index"));
    assert!(matches!(err, PineconeError::ActionForbiddenError { .. }));
    let err = handle_response_error(response(403, "nope"));
    assert!(matches!(err, PineconeError::InternalServerError { .. }));
}

#[test]
fn unauthorized_and_unknown_statuses() {
    let err = handle_response_error(response(401, "bad key"));
    assert!(matches!(err, PineconeError::UnauthorizedError { .. }));
    let err = handle_response_error(response(418, "teapot"));
    assert_eq!(err, PineconeError::UnknownResponseError { status: 418, message: "teapot".to_string() });
}

#[test]
fn messages_follow_the_display_format() {
    let err = handle_response_error(response(404, "Index x not found"));
    assert_eq!(err.message(), "Index not found error: status: 404 Not Found content: Index x not found");
    let err = PineconeError::UnknownResponseError { status: 418, message: "teapot".to_string() };
    assert_eq!(err.message(), "Unknown response error: status: 418 I'm a teapot, message: teapot");
    let err = PineconeError::UnknownResponseError { status: 599, message: "m".to_string() };
    assert_eq!(err.message(), "Unknown response error: status: 599 <unknown status code>, message: m");
    let err = PineconeError::TimeoutError { message: "Index \"i\" not ready".to_string() };
    assert_eq!(err.message(), "Timeout error: Index \"i\" not ready");
    assert_eq!(response(500, "x").message(), "status: 500 Internal Server Error content: x");
}

#[test]
fn api_errors_are_converted() {
    let err = PineconeError::from_api_error(OpenApiError::Io("disk".to_string()));
    assert_eq!(err, PineconeError::IoError { message: "disk".to_string() });
    let err = PineconeError::from_api_error(OpenApiError::Reqwest("refused".to_string()));
    assert_eq!(err, PineconeError::ReqwestError { source: "refused".to_string() });
    let err = PineconeError::from_api_error(OpenApiError::Serde("eof".to_string()));
    assert_eq!(err, PineconeError::SerdeError { source: "eof".to_string() });
    let err = PineconeError::from_api_error(OpenApiError::ResponseError(ResponseContent {
        status: 404,
        content: INVALID_REGION_BODY.to_string(),
    }));
    assert!(matches!(err, PineconeError::InvalidRegionError { .. }));
}

#[test]
fn sources_of_errors() {
    let err = handle_response_error(response(400, "bad"));
    match err.source() {
        Some(ErrorSource::Response(r)) => assert_eq!(r, &response(400, "bad")),
        _ => panic!("expected the response as source"),
    }
    let err = PineconeError::ReqwestError { source: "refused".to_string() };
    match err.source() {
        Some(ErrorSource::Cause(m)) => assert_eq!(m, "refused"),
        _ => panic!("expected the cause as source"),
    }
    let err = PineconeError::APIKeyMissingError { message: "m".to_string() };
    assert!(err.source().is_none());
}

#[test]
fn status_lines() {
    assert_eq!(status_line(404, Some("Not Found")), "404 Not Found");
    assert_eq!(status_line(7, None), "7 <unknown status code>");
    assert_eq!(display_status(200), "200 OK");
    assert_eq!(display_status(42), "42 <unknown status code>");
}

#[test]
fn known_status_phrases() {
    assert_eq!(display_status(400), "400 Bad Request");
    assert_eq!(display_status(412), "412 Precondition Failed");
    assert_eq!(display_status(422), "422 Unprocessable Entity");
    assert_eq!(
        handle_response_error(response(400, "x")).message(),
        "Bad request error: status: 400 Bad Request content: x"
    );
}
