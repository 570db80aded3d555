//! Requests as the router sees them.

use crate::http::headers::Headers;
use crate::http::method::{method_named, Method};
use crate::http::version::Version;
use vstd::prelude::*;

verus! {

/// Why a request could not be taken from a connection.
#[derive(Debug, PartialEq, Eq, Clone, Copy, Structural)]
pub enum RequestParseError {
    SocketClosed,
    InvalidUrl,
    InvalidMethod,
    InvalidHttpRequest,
}

/// A parsed request. The router reads the method and the path; it never
/// looks at the version, the headers or the body.
#[derive(Debug)]
pub struct HttpRequest {
    /// The request's method
    pub method: Method,
    /// The path of the request's URL, percent-encoded, as `/a/b/c`
    pub path: String,
    /// The request's version
    pub version: Version,
    /// The request's headers
    pub headers: Headers,
    /// HTTP body
    pub body: Option<Vec<u8>>,
}

impl HttpRequest {
    /// Whether the bytes read so far end the header block: the third byte
    /// from the end is a line feed, as in a line end followed by an empty
    /// line.
    pub open spec fn block_complete(buffer: Seq<u8>) -> bool {
        buffer.len() >= 3 && buffer[buffer.len() - 3] == 0x0a
    }

    /// Whether the bytes read so far end the header block.
    pub fn header_block_complete(buffer: &[u8]) -> (complete: bool)
        ensures
            complete == HttpRequest::block_complete(buffer@),
    {
        let n = buffer.len();
        n >= 3 && buffer[n - 3] == 0x0a
    }

    /// Assembles a request from the parts of a parsed request line and
    /// header block. The method token must name a method, the version byte a
    /// supported version, and the path must begin with `/`.
    pub fn from_parts(
        method: &str,
        path: String,
        minor: u8,
        headers: Headers,
        body: Option<Vec<u8>>,
    ) -> (r: Result<HttpRequest, RequestParseError>)
        ensures
            match r {
                Ok(request) => method_named(method@) == Ok::<Method, ()>(request.method)
                    && Version::of_minor(minor) == Ok::<
                    Version,
                    crate::http::version::InvalidHttpVersion,
                >(request.version) && request.path@ == path@ && path@.len() > 0 && path@[0] == '/'
                    && request.headers@ == headers@ && request.body == body,
                Err(e) => if method_named(method@) is Err {
                    e == RequestParseError::InvalidMethod
                } else if Version::of_minor(minor) is Err {
                    e == RequestParseError::InvalidHttpRequest
                } else {
                    e == RequestParseError::InvalidUrl && (path@.len() == 0 || path@[0] != '/')
                },
            },
    {
        let method = match Method::parse(method) {
            Ok(method) => method,
            Err(_) => {
                return Err(RequestParseError::InvalidMethod);
            },
        };
        let version = match Version::from_minor(minor) {
            Ok(version) => version,
            Err(_) => {
                return Err(RequestParseError::InvalidHttpRequest);
            },
        };
        if crate::cut::strip_prefix(path.as_str(), crate::url_pattern::pattern::SLASH).is_none() {
            return Err(RequestParseError::InvalidUrl);
        }
        Ok(HttpRequest { method, path, version, headers, body })
    }
}

} // verus!
