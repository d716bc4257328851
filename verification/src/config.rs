//! The settings of a client, as a plain record.

use crate::pinecone::DEFAULT_CONTROLLER_HOST;
use crate::utils::headers::Headers;
use crate::utils::text::owned;
use vstd::prelude::*;

verus! {

/// Configuration for the Pinecone SDK struct.
#[derive(Debug, Clone)]
pub struct Config {
    /// The API key for your Pinecone project.
    pub api_key: String,
    /// The controller host.
    pub controller_url: String,
    /// Headers to be included in all requests.
    pub additional_headers: Headers,
    /// Optional sourceTag that is applied to the User-Agent header with all requests.
    pub source_tag: Option<String>,
}

impl Config {
    /// Builds a new Config struct: the default controller host and no additional headers.
    pub fn new(api_key: String, source_tag: Option<String>) -> (r: Config)
        ensures
            r.api_key == api_key,
            r.controller_url@ == DEFAULT_CONTROLLER_HOST@,
            r.additional_headers@ == Map::<Seq<char>, Seq<char>>::empty(),
            r.source_tag == source_tag,
    {
        Config { api_key, controller_url: owned(DEFAULT_CONTROLLER_HOST), additional_headers: Headers::new(), source_tag }
    }
}

} // verus!
