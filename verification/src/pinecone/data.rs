//! Where the data plane of an index is reached: the endpoint of an index host.

use crate::pinecone::PineconeClient;
use crate::utils::pattern::{
    ascii_letter, ascii_port_suffix, port_pattern, regex_is_match, regex_match, scheme_prefixed,
};
use crate::utils::errors::PineconeError;
use crate::utils::text::{concat, occurs_at, owned, starts_with};
use crate::utils::user_agent::all_ascii;
use vstd::prelude::*;

verus! {

/// The host with `https://` put in front of it, unless it starts with a scheme.
pub open spec fn endpoint_with_scheme(host: Seq<char>) -> Seq<char> {
    if scheme_prefixed(host) {
        host
    } else {
        "https://"@ + host
    }
}

/// The endpoint with `:443` put after it, unless `has_port` says it ends with a port.
pub open spec fn endpoint_with_port(endpoint: Seq<char>, has_port: bool) -> Seq<char> {
    if has_port {
        endpoint
    } else {
        endpoint + ":443"@
    }
}

/// The endpoint of an index host: with the scheme `https://` unless it has one, then with the
/// port `443` unless the port pattern matches it.
pub open spec fn index_endpoint_text(host: Seq<char>) -> Seq<char> {
    let h = endpoint_with_scheme(host);
    endpoint_with_port(h, regex_is_match(port_pattern(), h))
}

/// The URL of an index host as a describe call reports it: kept when it starts with
/// `https://`, else `https://` before it and `:443` after it.
pub open spec fn index_host_url_text(host: Seq<char>) -> Seq<char> {
    if occurs_at(host, "https://"@, 0) {
        host
    } else {
        "https://"@ + host + ":443"@
    }
}

proof fn lemma_scheme_kept(h: Seq<char>, tail: Seq<char>)
    requires
        scheme_prefixed(h),
    ensures
        scheme_prefixed(h + tail),
{
    let n = choose|n: int|
        1 <= n && n + 3 <= h.len() && (forall|i: int| 0 <= i < n ==> ascii_letter(#[trigger] h[i]))
            && #[trigger] h[n] == ':' && h[n + 1] == '/' && h[n + 2] == '/';
    let s = h + tail;
    assert(forall|i: int| 0 <= i < n ==> s[i] == h[i]);
    assert(s[n] == ':' && s[n + 1] == '/' && s[n + 2] == '/');
    assert(forall|i: int| 0 <= i < n ==> ascii_letter(#[trigger] s[i]));
}

proof fn lemma_https_scheme(host: Seq<char>)
    ensures
        scheme_prefixed("https://"@ + host),
{
    reveal_strlit("https://");
    let s = "https://"@ + host;
    assert(s[0] == 'h' && s[1] == 't' && s[2] == 't' && s[3] == 'p' && s[4] == 's');
    assert(forall|i: int| 0 <= i < 5 ==> ascii_letter(#[trigger] s[i]));
    assert(s[5] == ':' && s[6] == '/' && s[7] == '/');
}

proof fn lemma_default_port(h: Seq<char>)
    ensures
        ascii_port_suffix(h + ":443"@),
{
    reveal_strlit(":443");
    let s = h + ":443"@;
    let k = h.len() as int;
    assert(s[k] == ':');
    assert(forall|i: int| k < i < s.len() ==> '0' <= #[trigger] s[i] && s[i] <= '9');
}

impl PineconeClient {
    /// Match the scheme in a host string: one or more ASCII letters, then `://`, at its start.
    fn has_scheme(host: &str) -> (r: bool)
        ensures
            r == scheme_prefixed(host@),
    {
        regex_match("^[a-zA-Z]+://", host)
    }

    /// Match the port in a host string: `:` and one or more digits at its end.
    fn has_port(host: &str) -> (r: bool)
        ensures
            r == regex_is_match(port_pattern(), host@),
            ascii_port_suffix(host@) ==> r,
            all_ascii(host@) ==> (r <==> ascii_port_suffix(host@)),
    {
        regex_match(":\\d+$", host)
    }

    /// Puts the port `443` after an endpoint that has no port (`has_port` is false).
    pub fn endpoint_with_port(endpoint: &str, has_port: bool) -> (r: String)
        ensures
            r@ == endpoint_with_port(endpoint@, has_port),
    {
        if has_port {
            owned(endpoint)
        } else {
            concat(endpoint, ":443")
        }
    }

    /// The endpoint of the index at `host`: if the host does not contain a scheme, it gets
    /// `https://`; if it then does not contain a port, it gets `443`.
    pub fn index_endpoint(host: &str) -> (r: String)
        ensures
            r@ == index_endpoint_text(host@),
            scheme_prefixed(r@),
            scheme_prefixed(host@) ==> occurs_at(r@, host@, 0),
            all_ascii(host@) ==> ascii_port_suffix(r@),
    {
        let endpoint = if PineconeClient::has_scheme(host) {
            owned(host)
        } else {
            concat("https://", host)
        };
        proof {
            if !scheme_prefixed(host@) {
                lemma_https_scheme(host@);
            }
        }
        let has_port = PineconeClient::has_port(endpoint.as_str());
        let r = PineconeClient::endpoint_with_port(endpoint.as_str(), has_port);
        proof {
            if !has_port {
                lemma_scheme_kept(endpoint@, ":443"@);
                lemma_default_port(endpoint@);
            }
            if all_ascii(host@) && !scheme_prefixed(host@) {
                reveal_strlit("https://");
                assert(all_ascii(endpoint@)) by {
                    assert forall|i: int| 0 <= i < endpoint@.len() implies (endpoint@[i] as u32) < 128 by {
                        if i >= 8 {
                            assert(endpoint@[i] == host@[i - 8]);
                        }
                    }
                }
            }
            if scheme_prefixed(host@) {
                assert(r@.subrange(0, host@.len() as int) == host@);
            }
        }
        r
    }

    /// Targets an index for data operations: the index at `host`, reached at
    /// `index_endpoint(host)`.
    pub fn index(&self, host: &str) -> (r: Index)
        ensures
            r.host@ == index_endpoint_text(host@),
    {
        Index { host: PineconeClient::index_endpoint(host) }
    }

    /// The URL of an index whose describe call reported `host`: kept when it starts with
    /// `https://`, else `https://` before it and `:443` after it.
    pub fn index_host_url(host: &str) -> (r: String)
        ensures
            r@ == index_host_url_text(host@),
    {
        if starts_with(host, "https://") {
            owned(host)
        } else {
            let h = concat("https://", host);
            concat(h.as_str(), ":443")
        }
    }
}

/// An index targeted for data operations.
pub struct Index {
    /// The endpoint of the index host.
    pub host: String,
}

/// The request that lists the IDs of the vectors in a namespace.
#[derive(Clone, Debug, PartialEq)]
pub struct ListRequest {
    /// The namespace to list vectors from.
    pub namespace: String,
    /// Only IDs with this prefix are listed.
    pub prefix: Option<String>,
    /// The largest number of IDs to return.
    pub limit: Option<u32>,
    /// The token of the page to return.
    pub pagination_token: Option<String>,
}

/// The request that fetches vectors by ID from a namespace.
#[derive(Clone, Debug, PartialEq)]
pub struct FetchRequest {
    /// The IDs of the vectors to fetch.
    pub ids: Vec<String>,
    /// The namespace to fetch vectors from; empty for the default namespace.
    pub namespace: String,
}

/// The request that deletes vectors by ID, or all vectors, from a namespace.
#[derive(Clone, Debug, PartialEq)]
pub struct DeleteRequest {
    /// The IDs of the vectors to delete.
    pub ids: Vec<String>,
    /// Whether every vector of the namespace is deleted.
    pub delete_all: bool,
    /// The namespace to delete vectors from; empty for the default namespace.
    pub namespace: String,
}

/// What a data-plane operation gives for the outcome of its call: the server's response, or,
/// when the call failed, a `DataPlaneError` with the status the server reported.
pub fn data_plane_outcome<T>(outcome: Result<T, String>) -> (r: Result<T, PineconeError>)
    ensures
        match outcome {
            Ok(v) => r == Ok::<T, PineconeError>(v),
            Err(status) => r == Err::<T, PineconeError>(PineconeError::DataPlaneError { status }),
        },
{
    match outcome {
        Ok(v) => Ok(v),
        Err(status) => Err(PineconeError::DataPlaneError { status }),
    }
}

/// The metadata entry that carries the API key on a data-plane request, `api-key`, or none
/// when the key is empty.
pub fn api_key_metadata(api_key: &str) -> (r: Option<(String, String)>)
    ensures
        api_key@.len() == 0 <==> r is None,
        r matches Some(entry) ==> entry.0@ == "api-key"@ && entry.1@ == api_key@,
{
    if api_key.unicode_len() == 0 {
        None
    } else {
        Some((owned("api-key"), owned(api_key)))
    }
}

/// The name of a namespace as a request carries it: the given one, else the default (empty) one.
pub open spec fn namespace_name(namespace: Option<String>) -> Seq<char> {
    match namespace {
        Some(n) => n@,
        None => Seq::empty(),
    }
}

/// A request carries a given namespace unchanged, and the default namespace as the empty
/// name.
pub proof fn namespace_is_carried_unchanged(n: String)
    ensures
        namespace_name(Some(n)) == n@,
        namespace_name(None).len() == 0,
{
}

fn namespace_or_default(namespace: Option<String>) -> (r: String)
    ensures
        r@ == namespace_name(namespace),
        namespace matches Some(n) ==> r == n,
        namespace is None ==> r@.len() == 0,
{
    match namespace {
        Some(n) => n,
        None => String::new(),
    }
}

impl Index {
    /// The request of a list operation: the IDs of the vectors in `namespace`, optionally only
    /// those with `prefix`, at most `limit` of them, from the page of `pagination_token`.
    pub fn list_request(
        namespace: String,
        prefix: Option<String>,
        limit: Option<u32>,
        pagination_token: Option<String>,
    ) -> (r: ListRequest)
        ensures
            r == (ListRequest { namespace, prefix, limit, pagination_token }),
    {
        ListRequest { namespace, prefix, limit, pagination_token }
    }

    /// The request of a fetch operation: the vectors with the given IDs, from the given
    /// namespace or else the default one.
    pub fn fetch_request(ids: Vec<String>, namespace: Option<String>) -> (r: FetchRequest)
        ensures
            r.ids == ids,
            r.namespace@ == namespace_name(namespace),
            namespace matches Some(n) ==> r.namespace == n,
            namespace is None ==> r.namespace@.len() == 0,
    {
        FetchRequest { ids, namespace: namespace_or_default(namespace) }
    }

    /// The request of a delete-by-ID operation: the vectors with the given IDs, from the given
    /// namespace or else the default one.
    pub fn delete_by_id_request(ids: Vec<String>, namespace: Option<String>) -> (r: DeleteRequest)
        ensures
            r.ids == ids,
            !r.delete_all,
            r.namespace@ == namespace_name(namespace),
            namespace matches Some(n) ==> r.namespace == n,
            namespace is None ==> r.namespace@.len() == 0,
    {
        DeleteRequest { ids, delete_all: false, namespace: namespace_or_default(namespace) }
    }

    /// The request of a delete-all operation: every vector of the given namespace or else the
    /// default one.
    pub fn delete_all_request(namespace: Option<String>) -> (r: DeleteRequest)
        ensures
            r.ids@.len() == 0,
            r.delete_all,
            r.namespace@ == namespace_name(namespace),
            namespace matches Some(n) ==> r.namespace == n,
            namespace is None ==> r.namespace@.len() == 0,
    {
        DeleteRequest { ids: Vec::new(), delete_all: true, namespace: namespace_or_default(namespace) }
    }
}

} // verus!
