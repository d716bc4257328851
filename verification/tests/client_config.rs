use pinecone_sdk::models::create_index_request_params::{Cloud, CreateIndexParams, Metric, Spec};
use pinecone_sdk::pinecone::{
    add_api_version_header, default_client, Environment, PineconeClient, PineconeClientConfig,
    PINECONE_API_VERSION_KEY,
};
use pinecone_sdk::utils::errors::PineconeError;
use pinecone_sdk::utils::headers::Headers;
use pinecone_sdk::version::API_VERSION;
use std::collections::HashMap;

fn headers(pairs: &[(&str, &str)]) -> Headers {
    Headers::from_pairs(pairs.iter().map(|(k, v)| (k.to_string(), v.to_string())).collect())
}

fn as_map(h: &Headers) -> HashMap<String, String> {
    h.entries().iter().cloned().collect()
}

fn map_of(pairs: &[(&str, &str)]) -> HashMap<String, String> {
    pairs.iter().map(|(k, v)| (k.to_string(), v.to_string())).collect()
}

fn empty_headers_with_api_version() -> HashMap<String, String> {
    let mut h = Headers::new();
    add_api_version_header(&mut h);
    as_map(&h)
}

fn with_api_version(pairs: &[(&str, &str)]) -> HashMap<String, String> {
    let mut h = headers(pairs);
    add_api_version_header(&mut h);
    as_map(&h)
}

fn no_env() -> Environment {
    Environment::default()
}

#[test]
fn test_create_index_params() {
    let create_index_params = CreateIndexParams::new(
        "test_index",
        10,
        None,
        Spec::Serverless { cloud: Cloud::Aws, region: "us-west-2".to_string() },
    );

    assert_eq!(create_index_params.name, "test_index");
    assert_eq!(create_index_params.dimension, 10);
    assert_eq!(create_index_params.metric, Metric::Cosine);
    assert_eq!(
        create_index_params.spec,
        Spec::Serverless { cloud: Cloud::Aws, region: "us-west-2".to_string() }
    );
}

#[test]
fn mod_test_arg_api_key() {
    let mock_api_key = "mock-arg-api-key";
    let mock_controller_host = "mock-arg-controller-host";

    let config = PineconeClientConfig {
        api_key: Some(mock_api_key.to_string()),
        control_plane_host: Some(mock_controller_host.to_string()),
        additional_headers: Some(Headers::new()),
        source_tag: None,
    };

    let pinecone = config.client(&no_env()).expect("Expected to successfully create Pinecone instance");

    assert_eq!(pinecone.get_api_key(), mock_api_key);
    assert_eq!(pinecone.controller_url(), mock_controller_host);
    assert_eq!(as_map(pinecone.additional_headers()), empty_headers_with_api_version());
    assert_eq!(pinecone.source_tag(), &None);
    assert_eq!(pinecone.user_agent(), &Some("lang=rust; pinecone-rust-client=0.1.0".to_string()));
}

#[test]
fn mod_test_env_api_key() {
    let mock_api_key = "mock-env-api-key";
    let mock_controller_host = "mock-arg-controller-host";
    let env = Environment { api_key: Some(mock_api_key.to_string()), ..Default::default() };

    let config = PineconeClientConfig {
        control_plane_host: Some(mock_controller_host.to_string()),
        additional_headers: Some(Headers::new()),
        ..Default::default()
    };
    let pinecone = config.client(&env).expect("Expected to successfully create Pinecone instance");

    assert_eq!(pinecone.get_api_key(), mock_api_key);
    assert_eq!(pinecone.controller_url(), mock_controller_host);
    assert_eq!(as_map(pinecone.additional_headers()), empty_headers_with_api_version());
    assert_eq!(pinecone.source_tag(), &None);
    assert_eq!(pinecone.user_agent(), &Some("lang=rust; pinecone-rust-client=0.1.0".to_string()));
}

#[test]
fn mod_test_no_api_key() {
    let mock_controller_host = "mock-arg-controller-host";

    let config = PineconeClientConfig {
        control_plane_host: Some(mock_controller_host.to_string()),
        additional_headers: Some(Headers::new()),
        ..Default::default()
    };
    let err = config
        .client(&no_env())
        .expect_err("Expected to fail creating Pinecone instance due to missing API key");

    assert!(matches!(err, PineconeError::APIKeyMissingError { .. }));
}

#[test]
fn mod_test_arg_host() {
    let mock_api_key = "mock-arg-api-key";
    let mock_controller_host = "mock-arg-controller-host";
    let config = PineconeClientConfig {
        api_key: Some(mock_api_key.to_string()),
        control_plane_host: Some(mock_controller_host.to_string()),
        additional_headers: Some(Headers::new()),
        source_tag: None,
    };
    let pinecone = config.client(&no_env()).expect("Expected to successfully create Pinecone instance");

    assert_eq!(pinecone.controller_url(), mock_controller_host);
}

#[test]
fn mod_test_env_host() {
    let mock_api_key = "mock-arg-api-key";
    let mock_controller_host = "mock-env-controller-host";
    let env = Environment { controller_host: Some(mock_controller_host.to_string()), ..Default::default() };

    let config = PineconeClientConfig {
        api_key: Some(mock_api_key.to_string()),
        additional_headers: Some(Headers::new()),
        ..Default::default()
    };
    let pinecone = config.client(&env).expect("Expected to successfully create Pinecone instance with env host");

    assert_eq!(pinecone.controller_url(), mock_controller_host);
}

#[test]
fn mod_test_default_host() {
    let mock_api_key = "mock-arg-api-key";

    let config = PineconeClientConfig {
        api_key: Some(mock_api_key.to_string()),
        additional_headers: Some(Headers::new()),
        ..Default::default()
    };
    let pinecone = config
        .client(&no_env())
        .expect("Expected to successfully create Pinecone instance with default controller host");

    assert_eq!(pinecone.controller_url(), &"https://api.pinecone.io".to_string());
}

#[test]
fn mod_test_arg_headers() {
    let mock_api_key = "mock-arg-api-key";
    let mock_controller_host = "mock-arg-controller-host";
    let mock_headers = [("argheader1", "value1"), ("argheader2", "value2")];

    let config = PineconeClientConfig {
        api_key: Some(mock_api_key.to_string()),
        control_plane_host: Some(mock_controller_host.to_string()),
        additional_headers: Some(headers(&mock_headers)),
        source_tag: None,
    };
    let pinecone = config.client(&no_env()).expect("Expected to successfully create Pinecone instance");

    assert_eq!(as_map(pinecone.additional_headers()), with_api_version(&mock_headers));
}

#[test]
fn mod_test_env_headers() {
    let mock_api_key = "mock-arg-api-key";
    let mock_controller_host = "mock-arg-controller-host";
    let mock_headers = [("envheader1", "value1"), ("envheader2", "value2")];
    let env = Environment {
        additional_headers: Some(r#"{"envheader1":"value1","envheader2":"value2"}"#.to_string()),
        ..Default::default()
    };

    let config = PineconeClientConfig {
        api_key: Some(mock_api_key.to_string()),
        control_plane_host: Some(mock_controller_host.to_string()),
        additional_headers: None,
        source_tag: None,
    };
    let pinecone = config.client(&env).expect("Expected to successfully create Pinecone instance with env headers");

    assert_eq!(as_map(pinecone.additional_headers()), with_api_version(&mock_headers));
}

#[test]
fn mod_test_invalid_env_headers() {
    let mock_api_key = "mock-arg-api-key";
    let mock_controller_host = "mock-arg-controller-host";
    let env = Environment { additional_headers: Some("invalid-json".to_string()), ..Default::default() };

    let config = PineconeClientConfig {
        api_key: Some(mock_api_key.to_string()),
        control_plane_host: Some(mock_controller_host.to_string()),
        additional_headers: None,
        source_tag: None,
    };
    let err = config
        .client(&env)
        .expect_err("Expected to fail creating Pinecone instance due to invalid headers");

    assert!(matches!(err, PineconeError::InvalidHeadersError { .. }));
}

#[test]
fn mod_test_default_headers() {
    let mock_api_key = "mock-arg-api-key";
    let mock_controller_host = "mock-arg-controller-host";

    let config = PineconeClientConfig {
        api_key: Some(mock_api_key.to_string()),
        control_plane_host: Some(mock_controller_host.to_string()),
        additional_headers: None,
        source_tag: None,
    };
    let pinecone = config.client(&no_env()).expect("Expected to successfully create Pinecone instance");

    assert_eq!(as_map(pinecone.additional_headers()), empty_headers_with_api_version());
}

#[test]
fn test_headers_no_api_version() {
    let pairs = [("HEADER1", "value1"), ("HEADER2", "value2")];
    let config = PineconeClientConfig {
        api_key: Some("mock-arg-api-key".to_string()),
        control_plane_host: Some("mock-arg-controller-host".to_string()),
        additional_headers: Some(headers(&pairs)),
        source_tag: None,
    };
    let pinecone = config.client(&no_env()).expect("Expected to successfully create Pinecone instance");

    let mut expected_headers = map_of(&pairs);
    expected_headers.insert(PINECONE_API_VERSION_KEY.to_string(), API_VERSION.to_string());

    assert_eq!(as_map(pinecone.additional_headers()), expected_headers);
}

#[test]
fn test_headers_api_version() {
    let pairs = [("HEADER1", "value1"), ("HEADER2", "value2"), (PINECONE_API_VERSION_KEY, "mock-api-version")];
    let config = PineconeClientConfig {
        api_key: Some("mock-arg-api-key".to_string()),
        control_plane_host: Some("mock-arg-controller-host".to_string()),
        additional_headers: Some(headers(&pairs)),
        source_tag: None,
    };
    let pinecone = config.client(&no_env()).expect("Expected to successfully create Pinecone instance");

    assert_eq!(as_map(pinecone.additional_headers()), map_of(&pairs));
}

#[test]
fn test_headers_api_version_different_casing() {
    let pairs = [("HEADER1", "value1"), ("HEADER2", "value2"), ("X-pineCONE-api-version", "mock-api-version")];
    let config = PineconeClientConfig {
        api_key: Some("mock-arg-api-key".to_string()),
        control_plane_host: Some("mock-arg-controller-host".to_string()),
        additional_headers: Some(headers(&pairs)),
        source_tag: None,
    };
    let pinecone = config.client(&no_env()).expect("Expected to successfully create Pinecone instance");

    assert_eq!(as_map(pinecone.additional_headers()), map_of(&pairs));
}

#[test]
fn mod_test_arg_overrides_env() {
    let mock_arg_headers = [("argheader1", "value1"), ("argheader2", "value2")];
    let env = Environment {
        api_key: Some("mock-env-api-key".to_string()),
        controller_host: Some("mock-env-controller-host".to_string()),
        additional_headers: Some(r#"{"envheader1":"value1","envheader2":"value2"}"#.to_string()),
    };

    let config = PineconeClientConfig {
        api_key: Some("mock-arg-api-key".to_string()),
        control_plane_host: Some("mock-arg-controller-host".to_string()),
        additional_headers: Some(headers(&mock_arg_headers)),
        source_tag: None,
    };
    let pinecone = config.client(&env).expect("Expected to successfully create Pinecone instance");

    assert_eq!(pinecone.get_api_key(), "mock-arg-api-key");
    assert_eq!(pinecone.controller_url(), "mock-arg-controller-host");
    assert_eq!(as_map(pinecone.additional_headers()), with_api_version(&mock_arg_headers));
}

#[test]
fn invalid_header_name_is_refused() {
    let config = PineconeClientConfig {
        api_key: Some("key".to_string()),
        control_plane_host: None,
        additional_headers: Some(headers(&[("bad header", "v")])),
        source_tag: None,
    };
    let err = config.client(&no_env()).expect_err("a header name with a space is not valid");
    assert_eq!(
        err,
        PineconeError::InvalidHeadersError { message: "Provided headers are not valid".to_string() }
    );
}

#[test]
fn default_client_reads_the_environment() {
    let env = Environment {
        api_key: Some("env-key".to_string()),
        controller_host: None,
        additional_headers: Some(r#"{"k":"v"}"#.to_string()),
    };
    let pinecone = default_client(&env).expect("Expected a client from the environment");
    assert_eq!(pinecone.get_api_key(), "env-key");
    assert_eq!(pinecone.controller_url(), "https://api.pinecone.io");
    assert_eq!(as_map(pinecone.additional_headers()), with_api_version(&[("k", "v")]));

    let err = default_client(&no_env()).expect_err("no API key anywhere");
    assert_eq!(
        err,
        PineconeError::APIKeyMissingError {
            message: "API key is not provided as an argument nor as an environment variable".to_string()
        }
    );
}

#[test]
fn source_tag_reaches_user_agent() {
    let config = PineconeClientConfig {
        api_key: Some("key".to_string()),
        source_tag: Some("  My Tag ".to_string()),
        ..Default::default()
    };
    let pinecone = config.client(&no_env()).expect("client");
    assert_eq!(pinecone.source_tag(), &Some("  My Tag ".to_string()));
    assert_eq!(
        pinecone.user_agent(),
        &Some("lang=rust; pinecone-rust-client=0.1.0; source_tag=my_tag".to_string())
    );
}

#[test]
fn client_new_keeps_headers_and_openapi_config_adds_version() {
    let pinecone = PineconeClient::new(
        Some("key"),
        Some("https://host"),
        Some(headers(&[("a", "1")])),
        None,
        &no_env(),
    )
    .expect("client");
    assert_eq!(as_map(pinecone.additional_headers()), map_of(&[("a", "1")]));
    let conf = pinecone.openapi_config();
    assert_eq!(conf.base_path, "https://host");
    assert_eq!(conf.user_agent, Some("lang=rust; pinecone-rust-client=0.1.0".to_string()));
    let key = conf.api_key.expect("api key");
    assert_eq!(key.key, "key");
    assert_eq!(key.prefix, None);
    assert_eq!(as_map(&conf.default_headers), with_api_version(&[("a", "1")]));
    let again = pinecone.openapi_config();
    assert_eq!(again.base_path, conf.base_path);
    assert_eq!(again.user_agent, conf.user_agent);
    assert_eq!(again.api_key, Some(key));
    assert_eq!(as_map(&again.default_headers), as_map(&conf.default_headers));
}

#[test]
fn invalid_header_value_is_refused() {
    let config = PineconeClientConfig {
        api_key: Some("key".to_string()),
        additional_headers: Some(headers(&[("x-custom", "line\nbreak")])),
        ..Default::default()
    };
    let err = config.client(&no_env()).expect_err("a header value with a newline is not valid");
    assert!(matches!(err, PineconeError::InvalidHeadersError { .. }));
}
