use pinecone_sdk::openapi::models::model_index_embed::Metric as EmbedMetric;
use pinecone_sdk::openapi::models::ModelIndexEmbed;
use pinecone_sdk::models::index_model::text_field;
use pinecone_sdk::models::{
    Cloud, CollectionModel, EmbeddingsListUsage, FieldMapEntry, IndexList, IndexModel, IndexModelSpec,
    IndexModelStatus, Metric, Namespace, ParseError, State, VectorType, WaitPolicy,
};
use pinecone_sdk::openapi::models::create_index_request::Metric as RequestMetric;
use pinecone_sdk::openapi::models::index_model::Metric as ResponseMetric;
use pinecone_sdk::openapi::models::serverless_spec::Cloud as OpenApiCloud;
use pinecone_sdk::openapi::models::{
    collection_model::Status, EmbeddingsListUsage as OpenApiUsage, IndexList as OpenApiIndexList,
    IndexModel as OpenApiIndexModel,
};

fn openapi_index(name: &str, metric: ResponseMetric, ready: bool) -> OpenApiIndexModel {
    OpenApiIndexModel::new(
        name.to_string(),
        8,
        metric,
        format!("{}.svc.io", name),
        IndexModelSpec::new(),
        IndexModelStatus::new(ready, if ready { State::Ready } else { State::Initializing }),
    )
}

#[test]
fn cloud_names_and_parsing() {
    assert_eq!(Cloud::Gcp.as_str(), "gcp");
    assert_eq!(Cloud::Aws.as_str(), "aws");
    assert_eq!(Cloud::Azure.as_str(), "azure");
    for c in [Cloud::Gcp, Cloud::Aws, Cloud::Azure] {
        assert_eq!(Cloud::parse(c.as_str()), Ok(c));
        assert_eq!(Cloud::from(OpenApiCloud::from(c)), c);
    }
    assert_eq!(Cloud::parse("AWS"), Err(ParseError::VariantNotFound));
    assert_eq!(Cloud::parse(""), Err(ParseError::VariantNotFound));
    assert_eq!(Cloud::default(), Cloud::Gcp);
}

#[test]
fn metric_conversions_round_trip() {
    for m in [Metric::Cosine, Metric::Euclidean, Metric::Dotproduct] {
        assert_eq!(Metric::from(RequestMetric::from(m)), m);
        assert_eq!(Metric::from(ResponseMetric::from(m)), m);
    }
    assert_eq!(RequestMetric::from(Metric::Dotproduct), RequestMetric::Dotproduct);
    assert_eq!(Metric::default(), Metric::Cosine);
}

#[test]
fn vector_type_names() {
    for t in [VectorType::Dense, VectorType::Sparse, VectorType::Text, VectorType::Unknown] {
        assert_eq!(VectorType::parse(t.as_str()), Ok(t));
        assert_eq!(VectorType::from_described(t.as_str()), t);
    }
    assert_eq!(VectorType::parse("hybrid"), Err(ParseError::VariantNotFound));
    assert_eq!(VectorType::from_described("hybrid"), VectorType::Unknown);
    assert_eq!(VectorType::default(), VectorType::Dense);
}

#[test]
fn namespace_from_strings() {
    assert_eq!(Namespace::from("ns").name, "ns");
    assert_eq!(Namespace::from("ns".to_string()), Namespace::named("ns"));
    assert_eq!(Namespace::default().name, "");
}

#[test]
fn wait_policy_default_is_five_minutes() {
    assert_eq!(WaitPolicy::default(), WaitPolicy::WaitFor(300_000_000_000));
}

#[test]
fn usage_defaults_to_zero_tokens() {
    assert_eq!(EmbeddingsListUsage::from(OpenApiUsage { total_tokens: Some(1632) }).total_tokens, 1632);
    assert_eq!(EmbeddingsListUsage::from(OpenApiUsage { total_tokens: None }).total_tokens, 0);
}

#[test]
fn index_model_from_openapi() {
    let m = IndexModel::from(openapi_index("index-name", ResponseMetric::Euclidean, true));
    assert_eq!(m.name, "index-name");
    assert_eq!(m.dimension, Some(8));
    assert_eq!(m.tags, None);
    assert_eq!(m.embed, None);
    assert_eq!(m.vector_type, VectorType::Dense);
    assert_eq!(m.metric, Metric::Euclidean);
    assert_eq!(m.host, "index-name.svc.io");
    assert_eq!(m.deletion_protection, None);
    assert!(m.status.ready);
    assert_eq!(m.status.state, State::Ready);
}

#[test]
fn index_list_keeps_order() {
    let list = IndexList::from_openapi(OpenApiIndexList {
        indexes: Some(vec![
            openapi_index("a", ResponseMetric::Cosine, true),
            openapi_index("b", ResponseMetric::Dotproduct, false),
            openapi_index("c", ResponseMetric::Euclidean, true),
        ]),
    });
    let names: Vec<String> = list.indexes.as_ref().unwrap().iter().map(|m| m.name.clone()).collect();
    assert_eq!(names, vec!["a", "b", "c"]);
    assert_eq!(list.indexes.as_ref().unwrap()[1].metric, Metric::Dotproduct);
    assert_eq!(IndexList::from_openapi(OpenApiIndexList { indexes: None }).indexes, None);
    assert_eq!(IndexList::from_openapi(OpenApiIndexList { indexes: Some(vec![]) }).indexes, Some(vec![]));
}

#[test]
fn field_map_text_field() {
    assert_eq!(text_field(&vec![]), None);
    assert_eq!(text_field(&vec![FieldMapEntry::TextField("chunk".to_string())]), Some("chunk".to_string()));
    assert_eq!(
        text_field(&vec![
            FieldMapEntry::TextField("first".to_string()),
            FieldMapEntry::TextField("last".to_string())
        ]),
        Some("last".to_string())
    );
}

#[test]
fn collection_model_new() {
    let c = CollectionModel::new("c".to_string(), Status::Ready, "us-east1-gcp".to_string());
    assert_eq!(c.name, "c");
    assert_eq!(c.status, Status::Ready);
    assert_eq!(c.environment, "us-east1-gcp");
    assert_eq!(Status::default(), Status::Initializing);
}

#[test]
fn index_model_carries_tags_embed_and_vector_type() {
    let mut api = openapi_index("e", ResponseMetric::Cosine, true);
    api.dimension = None;
    let mut tags = std::collections::HashMap::new();
    tags.insert("team".to_string(), "search".to_string());
    api.tags = Some(tags.clone());
    let embed = ModelIndexEmbed {
        model: "multilingual-e5-large".to_string(),
        metric: Some(EmbedMetric::Cosine),
        dimension: Some(1024),
        vector_type: Some("dense".to_string()),
        field_map: Some(serde_json::from_str(r#"{"text":"chunk"}"#).unwrap()),
        read_parameters: None,
        write_parameters: None,
    };
    api.embed = Some(Box::new(embed.clone()));
    api.vector_type = VectorType::Sparse;
    let m = IndexModel::from(api);
    assert_eq!(m.dimension, None);
    assert_eq!(m.tags, Some(tags));
    assert_eq!(m.embed, Some(embed));
    assert_eq!(m.vector_type, VectorType::Sparse);
}
