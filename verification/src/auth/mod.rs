//! Authentication of requests.
//!
//! A provider decorates the head of a request with what the API needs to
//! accept it. The head is all a provider reads of a request: its method, its
//! URL and the path of the URL.

pub mod oauth1;

use crate::error::Error;
use vstd::prelude::*;

verus! {

/// The method of an HTTP request.
#[derive(Debug, Clone)]
pub enum HttpMethod {
    Get,
    Post,
    Put,
    Delete,
    /// Any other method, by its name.
    Other(String),
}

/// The head of a request: what a provider needs to know of it, and the
/// `Authorization` header value that a provider gives it.
#[derive(Debug, Clone)]
pub struct RequestHead {
    /// The method of the request.
    pub method: HttpMethod,
    /// The whole URL.
    pub url: String,
    /// The path of the URL.
    pub path: String,
    /// The value of the `Authorization` header, once authenticated.
    pub authorization: Option<String>,
}

/// Something that can authenticate requests.
pub trait AuthProvider: Send + Sync {
    /// The request with its credentials added, or the reason why it cannot
    /// be authenticated.
    fn authenticate(&self, request: RequestHead) -> Result<RequestHead, Error>;

    /// Whether this provider can authenticate requests to `endpoint`.
    fn supports_endpoint(&self, endpoint: &str) -> bool;
}

impl HttpMethod {
    /// The name of the method as it is written in a request.
    pub open spec fn spec_name(&self) -> Seq<char> {
        match self {
            HttpMethod::Get => "GET"@,
            HttpMethod::Post => "POST"@,
            HttpMethod::Put => "PUT"@,
            HttpMethod::Delete => "DELETE"@,
            HttpMethod::Other(name) => name@,
        }
    }

    /// The name of the method as it is written in a request.
    pub fn name(&self) -> (name: &str)
        ensures
            name@ == self.spec_name(),
    {
        match self {
            HttpMethod::Get => "GET",
            HttpMethod::Post => "POST",
            HttpMethod::Put => "PUT",
            HttpMethod::Delete => "DELETE",
            HttpMethod::Other(name) => name.as_str(),
        }
    }
}

impl RequestHead {
    /// The head of a request that is not authenticated yet.
    pub fn new(method: HttpMethod, url: &str, path: &str) -> (head: Self)
        ensures
            head.method == method,
            head.url@ == url@,
            head.path@ == path@,
            head.authorization is None,
    {
        RequestHead { method, url: url.to_owned(), path: path.to_owned(), authorization: None }
    }
}

} // verus!
