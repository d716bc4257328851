pub mod collection_list;
pub mod collection_model;
pub mod configure_index_request;
pub mod configure_index_request_spec;
pub mod configure_index_request_spec_pod;
pub mod create_collection_request;
pub mod create_index_request;
pub mod deletion_protection;
pub mod embed_request;
pub mod embeddings_list_usage;
pub mod index_list;
pub mod index_model;
pub mod index_model_spec;
pub mod index_model_status;
pub mod index_spec;
pub mod list_indexes_401_response;
pub mod model_index_embed;
pub mod pod_spec;
pub mod pod_spec_metadata_config;
pub mod serverless_spec;

pub use self::collection_list::CollectionList;
pub use self::collection_model::CollectionModel;
pub use self::configure_index_request::ConfigureIndexRequest;
pub use self::configure_index_request_spec::ConfigureIndexRequestSpec;
pub use self::configure_index_request_spec_pod::ConfigureIndexRequestSpecPod;
pub use self::create_collection_request::CreateCollectionRequest;
pub use self::create_index_request::CreateIndexRequest;
pub use self::deletion_protection::DeletionProtection;
pub use self::embed_request::{EmbedRequest, EmbedRequestInputsInner, EmbedRequestParameters};
pub use self::embeddings_list_usage::EmbeddingsListUsage;
pub use self::index_list::IndexList;
pub use self::index_model::IndexModel;
pub use self::index_model_spec::IndexModelSpec;
pub use self::index_model_status::IndexModelStatus;
pub use self::index_spec::IndexSpec;
pub use self::list_indexes_401_response::{ListIndexes401Response, ListIndexes401ResponseError};
pub use self::model_index_embed::ModelIndexEmbed;
pub use self::pod_spec::PodSpec;
pub use self::pod_spec_metadata_config::PodSpecMetadataConfig;
pub use self::serverless_spec::ServerlessSpec;
