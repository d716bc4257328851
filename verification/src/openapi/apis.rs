//! The plain description of what the HTTP transport of the control plane reports and uses.

use crate::utils::headers::Headers;
use vstd::prelude::*;

verus! {

/// The status and body of an HTTP response that reported an error.
#[derive(Clone, Debug, PartialEq)]
pub struct ResponseContent {
    /// The HTTP status code.
    pub status: u16,
    /// The response body.
    pub content: String,
}

/// What a call of the control plane API can fail with.
#[derive(Clone, Debug, PartialEq)]
pub enum Error {
    /// The HTTP client failed; its message.
    Reqwest(String),
    /// The response could not be (de)serialized; the message.
    Serde(String),
    /// An I/O error; its message.
    Io(String),
    /// The server answered with an error status.
    ResponseError(ResponseContent),
}

/// An API key and its optional prefix.
#[derive(Clone, Debug, PartialEq)]
pub struct ApiKey {
    /// Prefix written before the key.
    pub prefix: Option<String>,
    /// The key.
    pub key: String,
}

/// Settings that every call of the control plane API uses.
#[derive(Clone, Debug)]
pub struct Configuration {
    /// The base URL of the API.
    pub base_path: String,
    /// The User-Agent header.
    pub user_agent: Option<String>,
    /// The API key.
    pub api_key: Option<ApiKey>,
    /// Headers sent with every request.
    pub default_headers: Headers,
}

/// What a configuration holds: the base URL, the User-Agent, the API key as its prefix and
/// key, and the headers sent with every request.
pub struct ConfigurationView {
    /// The base URL of the API.
    pub base_path: Seq<char>,
    /// The User-Agent header.
    pub user_agent: Option<Seq<char>>,
    /// The API key: its prefix and the key.
    pub api_key: Option<(Option<Seq<char>>, Seq<char>)>,
    /// Headers sent with every request.
    pub default_headers: Map<Seq<char>, Seq<char>>,
}

impl View for Configuration {
    type V = ConfigurationView;

    open spec fn view(&self) -> ConfigurationView {
        ConfigurationView {
            base_path: self.base_path@,
            user_agent: self.user_agent.deep_view(),
            api_key: match self.api_key {
                Some(k) => Some((k.prefix.deep_view(), k.key@)),
                None => None,
            },
            default_headers: self.default_headers@,
        }
    }
}

} // verus!
