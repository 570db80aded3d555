//! The HTTP vocabulary the router speaks: methods, status codes, versions,
//! requests and responses.

pub mod headers;
pub mod method;
pub mod request;
pub mod response;
pub mod status;
pub mod version;

pub use headers::Headers;
pub use method::Method;
pub use request::{HttpRequest, RequestParseError};
pub use response::{HttpResponse, HttpResponseBuilder};
pub use status::StatusCode;
pub use version::{InvalidHttpVersion, Version};
