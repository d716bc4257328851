use super::{Metric, VectorType};
use crate::models::metric::metric_from_response;
use crate::openapi::models::index_model::IndexModel as OpenApiIndexModel;
use crate::openapi::models::index_model::Metric as ResponseMetric;
use crate::openapi::models::{DeletionProtection, IndexModelSpec, IndexModelStatus, ModelIndexEmbed};
use std::collections::HashMap;
use crate::utils::text::owned;
use vstd::prelude::*;

verus! {

/// IndexModel : The IndexModel describes the configuration and status of a Pinecone index.
#[derive(Clone, Debug, PartialEq)]
pub struct IndexModel {
    /// Index name
    pub name: String,
    /// Index dimension
    pub dimension: Option<i32>,
    /// Index metric
    pub metric: Metric,
    /// Index host
    pub host: String,
    /// Index deletion protection configuration
    pub deletion_protection: Option<DeletionProtection>,
    /// Index specs
    pub spec: IndexModelSpec,
    /// Index model specs
    pub status: IndexModelStatus,
    /// Index tags
    pub tags: Option<HashMap<String, String>>,
    /// Index embedding configuration
    pub embed: Option<ModelIndexEmbed>,
    /// Index vector type
    pub vector_type: VectorType,
}

/// The SDK's description of an index for the API's description.
pub open spec fn index_model_from_openapi(m: OpenApiIndexModel) -> IndexModel {
    IndexModel {
        name: m.name,
        dimension: m.dimension,
        metric: metric_from_response(m.metric),
        host: m.host,
        deletion_protection: m.deletion_protection,
        spec: *m.spec,
        status: *m.status,
        tags: m.tags,
        embed: match m.embed {
            Some(e) => Some(*e),
            None => None,
        },
        vector_type: m.vector_type,
    }
}

impl From<OpenApiIndexModel> for IndexModel {
    fn from(openapi_index_model: OpenApiIndexModel) -> (r: IndexModel)
        ensures
            r == index_model_from_openapi(openapi_index_model),
    {
        IndexModel {
            name: openapi_index_model.name,
            dimension: openapi_index_model.dimension,
            metric: Metric::from(openapi_index_model.metric),
            host: openapi_index_model.host,
            deletion_protection: openapi_index_model.deletion_protection,
            spec: *openapi_index_model.spec,
            status: *openapi_index_model.status,
            tags: openapi_index_model.tags,
            embed: match openapi_index_model.embed {
                Some(e) => Some(*e),
                None => None,
            },
            vector_type: openapi_index_model.vector_type,
        }
    }
}

impl vstd::std_specs::convert::FromSpecImpl<OpenApiIndexModel> for IndexModel {
    open spec fn obeys_from_spec() -> bool {
        true
    }

    open spec fn from_spec(v: OpenApiIndexModel) -> IndexModel {
        index_model_from_openapi(v)
    }
}

/// Describing an index in the SDK's terms changes nothing of the API's description: the
/// name, dimension, host, deletion protection, deployment spec, status, tags, embedding model
/// and vector type are those of the description, and the metric is the one of the same name.
pub proof fn index_model_keeps_the_description(m: OpenApiIndexModel)
    ensures
        index_model_from_openapi(m).name == m.name,
        index_model_from_openapi(m).dimension == m.dimension,
        index_model_from_openapi(m).host == m.host,
        index_model_from_openapi(m).deletion_protection == m.deletion_protection,
        index_model_from_openapi(m).spec == *m.spec,
        index_model_from_openapi(m).status == *m.status,
        index_model_from_openapi(m).tags == m.tags,
        m.embed is None ==> index_model_from_openapi(m).embed is None,
        m.embed matches Some(e) ==> index_model_from_openapi(m).embed == Some(*e),
        index_model_from_openapi(m).vector_type == m.vector_type,
        m.metric == ResponseMetric::Cosine ==> index_model_from_openapi(m).metric == Metric::Cosine,
        m.metric == ResponseMetric::Euclidean ==> index_model_from_openapi(m).metric == Metric::Euclidean,
        m.metric == ResponseMetric::Dotproduct ==> index_model_from_openapi(m).metric == Metric::Dotproduct,
{
}

/// A field mapping entry by type.
#[derive(Clone, Debug, PartialEq)]
pub enum FieldMapEntry {
    /// The name of the text field from your document model that is embedded.
    TextField(String),
}

/// The text field that a field map names: the field of its last entry (each entry sets the
/// map's single key `text`), or none for an empty map.
pub open spec fn text_field_of(entries: Seq<FieldMapEntry>) -> Option<Seq<char>> {
    if entries.len() == 0 {
        None
    } else {
        match entries.last() {
            FieldMapEntry::TextField(name) => Some(name@),
        }
    }
}

/// The value of the key `text` in the field map of an index with integrated embedding.
pub fn text_field(entries: &Vec<FieldMapEntry>) -> (r: Option<String>)
    ensures
        r.deep_view() == text_field_of(entries@),
{
    if entries.len() == 0 {
        None
    } else {
        match &entries[entries.len() - 1] {
            FieldMapEntry::TextField(name) => Some(owned(name.as_str())),
        }
    }
}

} // verus!
