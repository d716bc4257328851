//! The client: how its settings are resolved from arguments, the environment and defaults.

pub mod control;
pub mod data;
pub mod inference;

use crate::openapi::apis::{ApiKey, Configuration, ConfigurationView};
use crate::utils::errors::PineconeError;
use crate::utils::headers::{json_headers, parse_json_headers, valid_headers, Headers};
use crate::utils::text::{eq_ignore_ascii_case_seq, owned};
use crate::utils::user_agent::{get_user_agent, user_agent_text};
use crate::version::API_VERSION;
use vstd::prelude::*;

verus! {

/// The `PINECONE_API_VERSION_KEY` is the key for the Pinecone API version header.
pub const PINECONE_API_VERSION_KEY: &'static str = "X-Pinecone-Api-Version";

/// The controller host used when neither an argument nor the environment gives one.
pub const DEFAULT_CONTROLLER_HOST: &'static str = "https://api.pinecone.io";

/// The values of the environment variables that configure a client.
#[derive(Clone, Debug, Default)]
pub struct Environment {
    /// The value of `PINECONE_API_KEY`, if set.
    pub api_key: Option<String>,
    /// The value of `PINECONE_CONTROLLER_HOST`, if set.
    pub controller_host: Option<String>,
    /// The value of `PINECONE_ADDITIONAL_HEADERS` (a JSON object of strings), if set.
    pub additional_headers: Option<String>,
}

/// The `PineconeClientConfig` struct takes in the parameters to configure the Pinecone client.
#[derive(Debug)]
pub struct PineconeClientConfig {
    /// Pinecone API key
    pub api_key: Option<String>,
    /// The Pinecone controller host
    pub control_plane_host: Option<String>,
    /// Additional headers to be included in all requests
    pub additional_headers: Option<Headers>,
    /// The source tag
    pub source_tag: Option<String>,
}

impl Default for PineconeClientConfig {
    /// A configuration that leaves every setting to the environment and the defaults.
    fn default() -> (r: PineconeClientConfig)
        ensures
            r.api_key is None,
            r.control_plane_host is None,
            r.additional_headers is None,
            r.source_tag is None,
    {
        PineconeClientConfig { api_key: None, control_plane_host: None, additional_headers: None, source_tag: None }
    }
}

/// What a client holds.
pub struct ClientView {
    /// The API key.
    pub api_key: Seq<char>,
    /// The controller host.
    pub controller_url: Seq<char>,
    /// Headers included in all requests.
    pub additional_headers: Map<Seq<char>, Seq<char>>,
    /// The source tag.
    pub source_tag: Option<Seq<char>>,
    /// The User-Agent.
    pub user_agent: Option<Seq<char>>,
}

/// The `PineconeClient` struct is the main entry point for interacting with Pinecone via this Rust SDK.
#[derive(Debug)]
pub struct PineconeClient {
    api_key: String,
    controller_url: String,
    additional_headers: Headers,
    source_tag: Option<String>,
    user_agent: Option<String>,
}

impl View for PineconeClient {
    type V = ClientView;

    closed spec fn view(&self) -> ClientView {
        ClientView {
            api_key: self.api_key@,
            controller_url: self.controller_url@,
            additional_headers: self.additional_headers@,
            source_tag: self.source_tag.deep_view(),
            user_agent: self.user_agent.deep_view(),
        }
    }
}

/// The value an argument gives, else the value the environment gives.
pub open spec fn arg_or_env(arg: Option<Seq<char>>, env: Option<Seq<char>>) -> Option<Seq<char>> {
    match arg {
        Some(v) => Some(v),
        None => env,
    }
}

/// The controller host: the argument's, else the environment's, else the default.
pub open spec fn resolve_host(arg: Option<Seq<char>>, env: Option<Seq<char>>) -> Seq<char> {
    match arg_or_env(arg, env) {
        Some(h) => h,
        None => DEFAULT_CONTROLLER_HOST@,
    }
}

/// The additional headers: the argument's, else those the environment's JSON describes, else
/// none. `None` when the argument gives none and the environment's value is not a JSON
/// object of strings.
pub open spec fn resolve_headers(
    arg: Option<Map<Seq<char>, Seq<char>>>,
    env: Option<Seq<char>>,
) -> Option<Map<Seq<char>, Seq<char>>> {
    match arg {
        Some(h) => Some(h),
        None => match env {
            Some(text) => json_headers(text),
            None => Some(Map::empty()),
        },
    }
}

/// Some header name equals `X-Pinecone-Api-Version` without regard to ASCII case.
pub open spec fn has_api_version(h: Map<Seq<char>, Seq<char>>) -> bool {
    exists|k: Seq<char>| #[trigger] h.contains_key(k) && eq_ignore_ascii_case_seq(k, PINECONE_API_VERSION_KEY@)
}

/// The headers with the API version header added, unless some header already names it
/// (without regard to ASCII case).
pub open spec fn with_api_version(h: Map<Seq<char>, Seq<char>>) -> Map<Seq<char>, Seq<char>> {
    if has_api_version(h) {
        h
    } else {
        h.insert(PINECONE_API_VERSION_KEY@, API_VERSION@)
    }
}

/// Every request carries an API version header: the headers with the version added name it
/// (without regard to ASCII case), keep every header they had with its value, add at most
/// the one header `X-Pinecone-Api-Version`, and adding the version twice changes nothing.
pub proof fn api_version_header_always_present(h: Map<Seq<char>, Seq<char>>)
    ensures
        has_api_version(with_api_version(h)),
        forall|k: Seq<char>| #[trigger] h.contains_key(k) ==> with_api_version(h).contains_key(k)
            && with_api_version(h)[k] == h[k],
        forall|k: Seq<char>|
            #[trigger] with_api_version(h).contains_key(k) ==> h.contains_key(k) || k
                == PINECONE_API_VERSION_KEY@,
        with_api_version(with_api_version(h)) == with_api_version(h),
{
    if !has_api_version(h) {
        let k = PINECONE_API_VERSION_KEY@;
        assert(with_api_version(h).contains_key(k));
        assert(eq_ignore_ascii_case_seq(k, PINECONE_API_VERSION_KEY@));
        assert forall|j: Seq<char>| #[trigger] h.contains_key(j) implies with_api_version(h).contains_key(j)
            && with_api_version(h)[j] == h[j] by {
            if j == k {
                assert(eq_ignore_ascii_case_seq(j, PINECONE_API_VERSION_KEY@));
            }
        }
    }
}

/// The message of the error for a missing API key.
pub open spec fn api_key_missing_message() -> Seq<char> {
    "API key is not provided as an argument nor as an environment variable"@
}

/// The message of the error for headers in the environment that are not JSON.
pub open spec fn headers_not_json_message() -> Seq<char> {
    "Provided headers are not valid. Expects JSON."@
}

/// The message of the error for headers that the HTTP client does not accept.
pub open spec fn headers_invalid_message() -> Seq<char> {
    "Provided headers are not valid"@
}

/// What constructing a client from the arguments `api_key`, `host`, `headers`, `source_tag`
/// and the environment `env` gives: a missing API key, headers in the environment that are not
/// JSON, or headers (with the API version header added) that the HTTP client does not accept
/// are errors; otherwise the client holds the resolved settings.
pub open spec fn client_outcome(
    api_key: Option<Seq<char>>,
    host: Option<Seq<char>>,
    headers: Option<Map<Seq<char>, Seq<char>>>,
    source_tag: Option<Seq<char>>,
    env: &Environment,
    r: Result<PineconeClient, PineconeError>,
) -> bool {
    let key = arg_or_env(api_key, env.api_key.deep_view());
    let hs = resolve_headers(headers, env.additional_headers.deep_view());
    match r {
        Err(PineconeError::APIKeyMissingError { message }) => key is None && message@ == api_key_missing_message(),
        Err(PineconeError::InvalidHeadersError { message }) => {
            &&& key is Some
            &&& (hs is None && message@ == headers_not_json_message()) || (hs matches Some(h) && !valid_headers(
                with_api_version(h),
            ) && message@ == headers_invalid_message())
        },
        Err(_) => false,
        Ok(c) => {
            &&& key == Some(c@.api_key)
            &&& (hs matches Some(h) && c@.additional_headers == with_api_version(h))
            &&& valid_headers(c@.additional_headers)
            &&& c@.controller_url == resolve_host(host, env.controller_host.deep_view())
            &&& c@.source_tag == source_tag
            &&& c@.user_agent == Some(user_agent_text(source_tag))
        },
    }
}

/// What constructing a client with `PineconeClient::new` from the arguments `api_key`,
/// `host`, `headers`, `source_tag` and the environment `env` gives: a missing API key or
/// headers in the environment that are not JSON are errors; otherwise the client holds the
/// resolved settings, with the headers as given.
pub open spec fn new_outcome(
    api_key: Option<Seq<char>>,
    host: Option<Seq<char>>,
    headers: Option<Map<Seq<char>, Seq<char>>>,
    source_tag: Option<Seq<char>>,
    env: &Environment,
    r: Result<PineconeClient, PineconeError>,
) -> bool {
    let key = arg_or_env(api_key, env.api_key.deep_view());
    let hs = resolve_headers(headers, env.additional_headers.deep_view());
    match r {
        Err(PineconeError::APIKeyMissingError { message }) => key is None && message@ == api_key_missing_message(),
        Err(PineconeError::InvalidHeadersError { message }) => key is Some && hs is None && message@
            == headers_not_json_message(),
        Err(_) => false,
        Ok(c) => {
            &&& key == Some(c@.api_key)
            &&& hs == Some(c@.additional_headers)
            &&& c@.controller_url == resolve_host(host, env.controller_host.deep_view())
            &&& c@.source_tag == source_tag
            &&& c@.user_agent == Some(user_agent_text(source_tag))
        },
    }
}

/// The configuration of the API calls that a client gives: its controller host as base path,
/// its User-Agent, its API key without prefix, and its headers with the API version header
/// added unless one is already present (ignoring ASCII case).
pub open spec fn openapi_config_of(c: ClientView) -> ConfigurationView {
    ConfigurationView {
        base_path: c.controller_url,
        user_agent: c.user_agent,
        api_key: Some((None, c.api_key)),
        default_headers: with_api_version(c.additional_headers),
    }
}

/// The configuration of a client constructed with an API key, a host and headers as
/// arguments: the host is the base path, the User-Agent is the one its source tag gives, the
/// API key is the argument without prefix, and the headers are the given ones with the API
/// version header added unless one is already present (ignoring ASCII case). Being a function
/// of the client alone, every call on the same client gives the same configuration.
pub proof fn openapi_config_of_new_client(
    api_key: Seq<char>,
    host: Seq<char>,
    headers: Map<Seq<char>, Seq<char>>,
    source_tag: Option<Seq<char>>,
    env: &Environment,
    c: PineconeClient,
)
    requires
        new_outcome(Some(api_key), Some(host), Some(headers), source_tag, env, Ok(c)),
    ensures
        openapi_config_of(c@) == (ConfigurationView {
            base_path: host,
            user_agent: Some(user_agent_text(source_tag)),
            api_key: Some((None, api_key)),
            default_headers: with_api_version(headers),
        }),
{
}

/// Constructing a client with `PineconeClient::new` takes each setting from its argument,
/// else from the environment: the API key is the argument's, else the environment's, and is
/// missing only when neither gives one; the controller host is the argument's, else the
/// environment's, else `https://api.pinecone.io`; headers given as an argument are the
/// client's headers as they are, and then, with an API key at hand, construction succeeds.
pub proof fn new_takes_arguments_then_environment(
    api_key: Option<Seq<char>>,
    host: Option<Seq<char>>,
    headers: Option<Map<Seq<char>, Seq<char>>>,
    source_tag: Option<Seq<char>>,
    env: &Environment,
    r: Result<PineconeClient, PineconeError>,
)
    requires
        new_outcome(api_key, host, headers, source_tag, env, r),
    ensures
        api_key matches Some(k) ==> !(r matches Err(PineconeError::APIKeyMissingError { .. })),
        api_key matches Some(k) ==> (r matches Ok(c) ==> c@.api_key == k),
        api_key is None && env.api_key is Some ==> !(r matches Err(PineconeError::APIKeyMissingError { .. })),
        api_key is None && env.api_key is Some ==> (r matches Ok(c) ==> c@.api_key == env.api_key->0@),
        api_key is None && env.api_key is None ==> r matches Err(PineconeError::APIKeyMissingError { .. }),
        host matches Some(h) ==> (r matches Ok(c) ==> c@.controller_url == h),
        host is None && env.controller_host is Some ==> (r matches Ok(c) ==> c@.controller_url
            == env.controller_host->0@),
        host is None && env.controller_host is None ==> (r matches Ok(c) ==> c@.controller_url
            == "https://api.pinecone.io"@),
        headers is Some && (api_key is Some || env.api_key is Some) ==> (r matches Ok(c)
            && c@.additional_headers == headers->0),
{
}

/// Building a client from a `PineconeClientConfig` takes each setting from the configuration,
/// else from the environment: the API key is the configuration's, else the environment's, and
/// is missing only when neither gives one; the controller host is the configuration's, else
/// the environment's, else `https://api.pinecone.io`; headers given in the configuration are
/// kept (with the API version header added unless present) whatever the environment holds.
pub proof fn client_takes_configuration_then_environment(
    api_key: Option<Seq<char>>,
    host: Option<Seq<char>>,
    headers: Option<Map<Seq<char>, Seq<char>>>,
    source_tag: Option<Seq<char>>,
    env: &Environment,
    r: Result<PineconeClient, PineconeError>,
)
    requires
        client_outcome(api_key, host, headers, source_tag, env, r),
    ensures
        api_key matches Some(k) ==> !(r matches Err(PineconeError::APIKeyMissingError { .. })),
        api_key matches Some(k) ==> (r matches Ok(c) ==> c@.api_key == k),
        api_key is None && env.api_key is Some ==> !(r matches Err(PineconeError::APIKeyMissingError { .. })),
        api_key is None && env.api_key is Some ==> (r matches Ok(c) ==> c@.api_key == env.api_key->0@),
        api_key is None && env.api_key is None ==> r matches Err(PineconeError::APIKeyMissingError { .. }),
        host matches Some(h) ==> (r matches Ok(c) ==> c@.controller_url == h),
        host is None && env.controller_host is Some ==> (r matches Ok(c) ==> c@.controller_url
            == env.controller_host->0@),
        host is None && env.controller_host is None ==> (r matches Ok(c) ==> c@.controller_url
            == "https://api.pinecone.io"@),
        headers matches Some(h) ==> (r matches Ok(c) ==> c@.additional_headers == with_api_version(h)),
{
}

/// Helper function to add the API version header to the headers.
pub fn add_api_version_header(headers: &mut Headers)
    ensures
        final(headers)@ == old(headers)@.insert(PINECONE_API_VERSION_KEY@, API_VERSION@),
{
    headers.insert(owned(PINECONE_API_VERSION_KEY), owned(API_VERSION));
}

/// Adds the API version header unless some header already names it (without regard to ASCII case).
fn ensure_api_version_header(headers: &mut Headers)
    ensures
        final(headers)@ == with_api_version(old(headers)@),
{
    if !headers.contains_key_ignore_ascii_case(PINECONE_API_VERSION_KEY) {
        add_api_version_header(headers);
    }
}

/// The headers that the arguments or the environment give (see `resolve_headers`).
fn headers_from(arg: Option<Headers>, env: &Option<String>) -> (r: Option<Headers>)
    ensures
        match r {
            Some(h) => resolve_headers(
                match arg {
                    Some(a) => Some(a@),
                    None => None,
                },
                env.deep_view(),
            ) == Some(h@),
            None => resolve_headers(
                match arg {
                    Some(a) => Some(a@),
                    None => None,
                },
                env.deep_view(),
            ) is None,
        },
{
    match arg {
        Some(h) => Some(h),
        None => match env {
            Some(text) => parse_json_headers(text.as_str()),
            None => Some(Headers::new()),
        },
    }
}

fn opt_owned(s: &Option<String>) -> (r: Option<String>)
    ensures
        r.deep_view() == s.deep_view(),
{
    match s {
        Some(v) => Some(owned(v.as_str())),
        None => None,
    }
}

impl PineconeClientConfig {
    /// The additional headers of the configuration, by their map.
    pub open spec fn headers_view(&self) -> Option<Map<Seq<char>, Seq<char>>> {
        match self.additional_headers {
            Some(h) => Some(h@),
            None => None,
        }
    }

    /// Constructs a `PineconeClient` from this configuration and the environment variables
    /// `env`: the API key and the controller host come from the arguments, else the
    /// environment (the host else defaults to `https://api.pinecone.io`); the additional
    /// headers come from the argument, else from the JSON in the environment, else none, and
    /// get the API version header unless one is already present (ignoring ASCII case).
    pub fn client(self, env: &Environment) -> (r: Result<PineconeClient, PineconeError>)
        ensures
            client_outcome(
                self.api_key.deep_view(),
                self.control_plane_host.deep_view(),
                self.headers_view(),
                self.source_tag.deep_view(),
                env,
                r,
            ),
    {
        let api_key = match self.api_key {
            Some(key) => key,
            None => match opt_owned(&env.api_key) {
                Some(key) => key,
                None => {
                    return Err(
                        PineconeError::APIKeyMissingError {
                            message: owned("API key is not provided as an argument nor as an environment variable"),
                        },
                    );
                },
            },
        };
        let controller_host = match self.control_plane_host {
            Some(h) => h,
            None => match opt_owned(&env.controller_host) {
                Some(h) => h,
                None => owned(DEFAULT_CONTROLLER_HOST),
            },
        };
        let user_agent = match &self.source_tag {
            Some(t) => get_user_agent(Some(t.as_str())),
            None => get_user_agent(None),
        };
        let mut additional_headers = match headers_from(self.additional_headers, &env.additional_headers) {
            Some(h) => h,
            None => {
                return Err(
                    PineconeError::InvalidHeadersError {
                        message: owned("Provided headers are not valid. Expects JSON."),
                    },
                );
            },
        };
        ensure_api_version_header(&mut additional_headers);
        if !additional_headers.all_valid() {
            return Err(PineconeError::InvalidHeadersError { message: owned("Provided headers are not valid") });
        }
        Ok(
            PineconeClient {
                api_key,
                controller_url: controller_host,
                additional_headers,
                source_tag: self.source_tag,
                user_agent: Some(user_agent),
            },
        )
    }
}

impl PineconeClient {
    /// Constructs a client from the arguments and the environment variables `env`, as
    /// `PineconeClientConfig::client` does, except that the headers are kept as given: the
    /// API version header is added by `openapi_config`, and the HTTP client checks the headers
    /// when it is built.
    pub fn new(
        api_key: Option<&str>,
        control_plane_host: Option<&str>,
        additional_headers: Option<Headers>,
        source_tag: Option<&str>,
        env: &Environment,
    ) -> (r: Result<PineconeClient, PineconeError>)
        ensures
            new_outcome(
                match api_key {
                    Some(k) => Some(k@),
                    None => None,
                },
                match control_plane_host {
                    Some(h) => Some(h@),
                    None => None,
                },
                match additional_headers {
                    Some(h) => Some(h@),
                    None => None,
                },
                match source_tag {
                    Some(t) => Some(t@),
                    None => None,
                },
                env,
                r,
            ),
    {
        let api_key = match api_key {
            Some(key) => owned(key),
            None => match opt_owned(&env.api_key) {
                Some(key) => key,
                None => {
                    return Err(
                        PineconeError::APIKeyMissingError {
                            message: owned("API key is not provided as an argument nor as an environment variable"),
                        },
                    );
                },
            },
        };
        let controller_host = match control_plane_host {
            Some(h) => owned(h),
            None => match opt_owned(&env.controller_host) {
                Some(h) => h,
                None => owned(DEFAULT_CONTROLLER_HOST),
            },
        };
        let additional_headers = match headers_from(additional_headers, &env.additional_headers) {
            Some(h) => h,
            None => {
                return Err(
                    PineconeError::InvalidHeadersError {
                        message: owned("Provided headers are not valid. Expects JSON."),
                    },
                );
            },
        };
        let user_agent = get_user_agent(source_tag);
        let source_tag = match source_tag {
            Some(t) => Some(owned(t)),
            None => None,
        };
        Ok(
            PineconeClient {
                api_key,
                controller_url: controller_host,
                additional_headers,
                source_tag,
                user_agent: Some(user_agent),
            },
        )
    }

    /// Returns the OpenAPI configuration object: the controller host as base path, the
    /// User-Agent, the API key without prefix, and the additional headers with the API version
    /// header added unless one is already present (ignoring ASCII case). The headers must be
    /// ones the HTTP client accepts, as those of a client built by `PineconeClientConfig::client`
    /// are.
    pub fn openapi_config(&self) -> (r: Configuration)
        requires
            valid_headers(self@.additional_headers),
        ensures
            r.base_path@ == self@.controller_url,
            r.user_agent.deep_view() == self@.user_agent,
            r.api_key matches Some(k) && k.prefix is None && k.key@ == self@.api_key,
            r.default_headers@ == with_api_version(self@.additional_headers),
            r@ == openapi_config_of(self@),
    {
        let mut headers = self.additional_headers.clone();
        ensure_api_version_header(&mut headers);
        Configuration {
            base_path: owned(self.controller_url.as_str()),
            user_agent: opt_owned(&self.user_agent),
            api_key: Some(ApiKey { prefix: None, key: owned(self.api_key.as_str()) }),
            default_headers: headers,
        }
    }

    /// The API key.
    pub fn get_api_key(&self) -> (r: String)
        ensures
            r@ == self@.api_key,
    {
        owned(self.api_key.as_str())
    }

    /// The controller host.
    pub fn controller_url(&self) -> (r: &String)
        ensures
            r@ == self@.controller_url,
    {
        &self.controller_url
    }

    /// The headers included in all requests.
    pub fn additional_headers(&self) -> (r: &Headers)
        ensures
            r@ == self@.additional_headers,
    {
        &self.additional_headers
    }

    /// The source tag.
    pub fn source_tag(&self) -> (r: &Option<String>)
        ensures
            r.deep_view() == self@.source_tag,
    {
        &self.source_tag
    }

    /// The User-Agent.
    pub fn user_agent(&self) -> (r: &Option<String>)
        ensures
            r.deep_view() == self@.user_agent,
    {
        &self.user_agent
    }
}

/// Constructs a `PineconeClient` with every setting left to the environment variables `env`
/// and the defaults, as `PineconeClientConfig::default().client(env)` does.
pub fn default_client(env: &Environment) -> (r: Result<PineconeClient, PineconeError>)
    ensures
        client_outcome(None, None, None, None, env, r),
{
    PineconeClientConfig::default().client(env)
}

} // verus!
