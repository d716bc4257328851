//! Models of the SDK's public interface, and their conversions from and to the API's models.

pub mod cloud;
pub mod create_index_request_params;
pub mod embeddings_list_usage;
pub mod index_list;
pub mod index_model;
pub mod metric;
pub mod namespace;
pub mod vector_type;
pub mod wait_policy;

pub use self::cloud::{Cloud, ParseError};
pub use self::embeddings_list_usage::EmbeddingsListUsage;
pub use self::index_list::IndexList;
pub use self::index_model::{FieldMapEntry, IndexModel};
pub use self::metric::Metric;
pub use self::namespace::Namespace;
pub use self::vector_type::VectorType;
pub use self::wait_policy::WaitPolicy;
pub use crate::openapi::models::{
    index_model_status::State, CollectionList, CollectionModel, ConfigureIndexRequest,
    ConfigureIndexRequestSpec, ConfigureIndexRequestSpecPod, CreateCollectionRequest,
    DeletionProtection, EmbedRequestParameters, IndexModelSpec, IndexModelStatus, IndexSpec,
    PodSpec, PodSpecMetadataConfig, ServerlessSpec,
};
