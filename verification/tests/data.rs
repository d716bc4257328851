use pinecone_sdk::pinecone::data::{api_key_metadata, data_plane_outcome, Index};
use pinecone_sdk::utils::errors::PineconeError;
use pinecone_sdk::pinecone::{Environment, PineconeClient, PineconeClientConfig};

fn client() -> PineconeClient {
    PineconeClientConfig { api_key: Some("key".to_string()), ..Default::default() }
        .client(&Environment::default())
        .expect("client")
}

#[test]
fn test_index_full_endpoint() {
    let base_url = "http://127.0.0.1:54321";
    let index = client().index(base_url);
    assert_eq!(index.host, base_url);
}

#[test]
fn test_index_no_scheme() {
    let index = client().index("127.0.0.1:54321");
    assert_eq!(index.host, "https://127.0.0.1:54321");
}

#[test]
fn test_index_no_port() {
    let index = client().index("http://127.0.0.1");
    assert_eq!(index.host, "http://127.0.0.1:443");
}

#[test]
fn test_index_no_scheme_no_port() {
    let index = client().index("127.0.0.1");
    assert_eq!(index.host, "https://127.0.0.1:443");
}

#[test]
fn index_endpoint_edge_cases() {
    assert_eq!(PineconeClient::index_endpoint(""), "https://:443");
    assert_eq!(PineconeClient::index_endpoint("grpc+tls://h:1"), "https://grpc+tls://h:1");
    assert_eq!(PineconeClient::index_endpoint("host:"), "https://host::443");
    assert_eq!(PineconeClient::index_endpoint("host:80/path"), "https://host:80/path:443");
    let once = PineconeClient::index_endpoint("my-index.svc.pinecone.io");
    assert_eq!(once, "https://my-index.svc.pinecone.io:443");
    assert_eq!(PineconeClient::index_endpoint(&once), once);
    assert_eq!(PineconeClient::endpoint_with_port("https://h", true), "https://h");
    assert_eq!(PineconeClient::endpoint_with_port("https://h", false), "https://h:443");
}

#[test]
fn index_host_url_of_a_description() {
    assert_eq!(PineconeClient::index_host_url("https://h.io"), "https://h.io");
    assert_eq!(PineconeClient::index_host_url("h.io"), "https://h.io:443");
    assert_eq!(PineconeClient::index_host_url("http://h.io"), "https://http://h.io:443");
}

#[test]
fn data_plane_requests() {
    let list = Index::list_request("ns".to_string(), Some("doc#".to_string()), Some(10), None);
    assert_eq!(list.namespace, "ns");
    assert_eq!(list.prefix.as_deref(), Some("doc#"));
    assert_eq!(list.limit, Some(10));
    assert_eq!(list.pagination_token, None);

    let fetch = Index::fetch_request(vec!["1".to_string(), "2".to_string()], None);
    assert_eq!(fetch.ids, vec!["1", "2"]);
    assert_eq!(fetch.namespace, "");

    let del = Index::delete_by_id_request(vec!["a".to_string()], Some("ns".to_string()));
    assert_eq!(del.ids, vec!["a"]);
    assert!(!del.delete_all);
    assert_eq!(del.namespace, "ns");

    let all = Index::delete_all_request(None);
    assert!(all.ids.is_empty());
    assert!(all.delete_all);
    assert_eq!(all.namespace, "");
}

#[test]
fn data_plane_outcomes() {
    assert_eq!(data_plane_outcome::<u32>(Ok(7)), Ok(7));
    assert_eq!(
        data_plane_outcome::<u32>(Err("status: Unavailable".to_string())),
        Err(PineconeError::DataPlaneError { status: "status: Unavailable".to_string() })
    );
}

#[test]
fn api_key_goes_on_data_plane_requests() {
    assert_eq!(api_key_metadata("key-1"), Some(("api-key".to_string(), "key-1".to_string())));
    assert_eq!(api_key_metadata(""), None);
}
