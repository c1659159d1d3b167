//! Persona records for the Soulgraph service: a validated data model, its wire
//! form, and the request/response protocol that moves records to and from the
//! remote store.

use vstd::prelude::*;
use vstd::string::StringExecFns;
use crate::json::Json;
use crate::transport::{Method, Request};

pub mod clock;
pub mod entity;
pub mod id;
pub mod json;
pub mod memories;
pub mod metadata;
pub mod personality;
pub mod scalar;
pub mod soul;
pub mod transport;
pub mod violation;
pub mod wire;

verus! {

/// The address of a resource: the base address of the store, then the
/// endpoint.
pub fn format_url(base_url: &str, endpoint: &str) -> (r: String)
    ensures
        r@ == base_url@ + endpoint@,
{
    base_url.to_owned().concat(endpoint)
}

/// The endpoint under which records are created.
pub open spec fn spec_collection_path() -> Seq<char> {
    "/personality"@
}

/// The endpoint of the record stored under an identifier.
pub open spec fn spec_resource_path(id: Seq<char>) -> Seq<char> {
    "/personality/"@ + id
}

/// The endpoint of the record stored under an identifier.
pub fn resource_path(id: &str) -> (r: String)
    ensures
        r@ == spec_resource_path(id@),
{
    "/personality/".to_owned().concat(id)
}

/// The headers that every request to the store carries: the credential, and
/// JSON as the type sent and accepted.
pub open spec fn spec_headers(api_key: Seq<char>) -> Seq<(Seq<char>, Seq<char>)> {
    seq![
        ("X-API-KEY"@, api_key),
        ("content-type"@, "application/json"@),
        ("accept"@, "application/json"@),
    ]
}

/// How to reach the store: where it is, and the credential to show. A client
/// is not changed once made.
#[derive(Debug, Clone, PartialEq)]
pub struct Soulgraph {
    pub api_key: String,
    pub base_url: String,
}

/// Collects what a `Soulgraph` is made of.
#[derive(Debug)]
pub struct SoulgraphBuilder {
    pub key: Option<String>,
    pub url: Option<String>,
}

impl Default for SoulgraphBuilder {
    fn default() -> (r: SoulgraphBuilder)
        ensures
            r.key is None,
            r.url is None,
    {
        SoulgraphBuilder { key: None, url: None }
    }
}

impl SoulgraphBuilder {
    pub fn new() -> (r: SoulgraphBuilder)
        ensures
            r.key is None,
            r.url is None,
    {
        SoulgraphBuilder { key: None, url: None }
    }

    pub fn api_key(self, key: &str) -> (r: SoulgraphBuilder)
        ensures
            r.key.deep_view() == Some(key@),
            r.url == self.url,
    {
        let mut next = self;
        next.key = Some(key.to_owned());
        next
    }

    pub fn base_url(self, url: &str) -> (r: SoulgraphBuilder)
        ensures
            r.url.deep_view() == Some(url@),
            r.key == self.key,
    {
        let mut next = self;
        next.url = Some(url.to_owned());
        next
    }

    /// Makes the client. Both the credential and the address must have been
    /// set.
    pub fn build(self) -> (r: Soulgraph)
        requires
            self.key is Some,
            self.url is Some,
        ensures
            Some(r.api_key) == self.key,
            Some(r.base_url) == self.url,
    {
        let SoulgraphBuilder { key, url } = self;
        Soulgraph { api_key: key.unwrap(), base_url: url.unwrap() }
    }
}

impl Soulgraph {
    pub fn builder() -> (r: SoulgraphBuilder)
        ensures
            r.key is None,
            r.url is None,
    {
        SoulgraphBuilder::new()
    }

    pub fn new(api_key: &str, base_url: &str) -> (r: Soulgraph)
        ensures
            r.api_key@ == api_key@,
            r.base_url@ == base_url@,
    {
        Soulgraph { api_key: api_key.to_owned(), base_url: base_url.to_owned() }
    }

    /// The headers that every request of this client carries.
    pub fn headers(&self) -> (r: Vec<(String, String)>)
        ensures
            r.deep_view() == spec_headers(self.api_key@),
    {
        let mut out: Vec<(String, String)> = Vec::new();
        out.push(("X-API-KEY".to_owned(), self.api_key.clone()));
        out.push(("content-type".to_owned(), "application/json".to_owned()));
        out.push(("accept".to_owned(), "application/json".to_owned()));
        assert(out.deep_view() =~= spec_headers(self.api_key@));
        out
    }

    /// The request that a verb, an endpoint and a body make with this client.
    pub open spec fn request(self, method: Method, endpoint: Seq<char>, body: Option<Json>) -> (
        Method,
        Seq<char>,
        Option<Json>,
    ) {
        (method, self.base_url@ + endpoint, body)
    }

    /// A GET request to the endpoint.
    pub fn get(self, endpoint: &str) -> (r: Request)
        ensures
            (r.method, r.url@, r.body) == self.request(Method::Get, endpoint@, None),
    {
        Request {
            method: Method::Get,
            url: format_url(self.base_url.as_str(), endpoint),
            body: None,
        }
    }

    /// A POST request to the endpoint with the document as its body.
    pub fn post(self, endpoint: &str, json: Json) -> (r: Request)
        ensures
            (r.method, r.url@, r.body) == self.request(Method::Post, endpoint@, Some(json)),
    {
        Request {
            method: Method::Post,
            url: format_url(self.base_url.as_str(), endpoint),
            body: Some(json),
        }
    }

    /// A PUT request to the endpoint with the document as its body.
    pub fn put(self, endpoint: &str, json: Json) -> (r: Request)
        ensures
            (r.method, r.url@, r.body) == self.request(Method::Put, endpoint@, Some(json)),
    {
        Request {
            method: Method::Put,
            url: format_url(self.base_url.as_str(), endpoint),
            body: Some(json),
        }
    }

    /// A PATCH request to the endpoint with the document as its body.
    pub fn patch(self, endpoint: &str, json: Json) -> (r: Request)
        ensures
            (r.method, r.url@, r.body) == self.request(Method::Patch, endpoint@, Some(json)),
    {
        Request {
            method: Method::Patch,
            url: format_url(self.base_url.as_str(), endpoint),
            body: Some(json),
        }
    }

    /// A DELETE request to the endpoint.
    pub fn delete(self, endpoint: &str) -> (r: Request)
        ensures
            (r.method, r.url@, r.body) == self.request(Method::Delete, endpoint@, None),
    {
        Request {
            method: Method::Delete,
            url: format_url(self.base_url.as_str(), endpoint),
            body: None,
        }
    }
}

} // verus!
