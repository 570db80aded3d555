use vstd::prelude::*;

verus! {

/// The status of a response: one of the codes this library knows.
#[derive(Debug, PartialEq, Eq, Hash, Clone, Copy, Structural)]
pub enum StatusCode {
    /// `200`
    Success,
    /// `201`
    Created,
    /// `202`
    Accepted,
    /// `206`
    PartialContent,
    /// `300`
    MultipleChoices,
    /// `301`
    MovedPermanently,
    /// `302`
    Found,
    /// `400`
    BadRequest,
    /// `401`
    Unauthorized,
    /// `403`
    Forbidden,
    /// `404`
    NotFound,
    /// `405`
    MethodNotAllowed,
    /// `406`
    NotAcceptable,
    /// `411`
    LengthRequired,
    /// `418`
    ImATeapot,
    /// `426`
    UpgradeRequired,
    /// `429`
    TooManyRequests,
    /// `500`
    InternalServerError,
    /// `501`
    NotImplemented,
    /// `502`
    BadGateway,
    /// `503`
    ServiceUnavailable,
    /// `504`
    GatewayTimeout,
}

impl StatusCode {
    pub const OK: StatusCode = StatusCode::Success;

    pub const CREATED: StatusCode = StatusCode::Created;

    pub const ACCEPTED: StatusCode = StatusCode::Accepted;

    pub const PARTIAL_CONTENT: StatusCode = StatusCode::PartialContent;

    pub const MULTIPLE_CHOICES: StatusCode = StatusCode::MultipleChoices;

    pub const MOVED_PERMANENTLY: StatusCode = StatusCode::MovedPermanently;

    pub const FOUND: StatusCode = StatusCode::Found;

    pub const BAD_REQUEST: StatusCode = StatusCode::BadRequest;

    pub const UNAUTHORIZED: StatusCode = StatusCode::Unauthorized;

    pub const FORBIDDEN: StatusCode = StatusCode::Forbidden;

    pub const NOT_FOUND: StatusCode = StatusCode::NotFound;

    pub const METHOD_NOT_ALLOWED: StatusCode = StatusCode::MethodNotAllowed;

    pub const NOT_ACCEPTABLE: StatusCode = StatusCode::NotAcceptable;

    pub const LENGTH_REQUIRED: StatusCode = StatusCode::LengthRequired;

    pub const IM_A_TEAPOT: StatusCode = StatusCode::ImATeapot;

    pub const UPGRADE_REQUIRED: StatusCode = StatusCode::UpgradeRequired;

    pub const TOO_MANY_REQUESTS: StatusCode = StatusCode::TooManyRequests;

    pub const INTERNAL_SERVER_ERROR: StatusCode = StatusCode::InternalServerError;

    pub const NOT_IMPLEMENTED: StatusCode = StatusCode::NotImplemented;

    pub const BAD_GATEWAY: StatusCode = StatusCode::BadGateway;

    pub const SERVICE_UNAVAILABLE: StatusCode = StatusCode::ServiceUnavailable;

    pub const GATEWAY_TIMEOUT: StatusCode = StatusCode::GatewayTimeout;

    /// The number of the status.
    pub open spec fn number(self) -> u16 {
        match self {
            StatusCode::Success => 200,
            StatusCode::Created => 201,
            StatusCode::Accepted => 202,
            StatusCode::PartialContent => 206,
            StatusCode::MultipleChoices => 300,
            StatusCode::MovedPermanently => 301,
            StatusCode::Found => 302,
            StatusCode::BadRequest => 400,
            StatusCode::Unauthorized => 401,
            StatusCode::Forbidden => 403,
            StatusCode::NotFound => 404,
            StatusCode::MethodNotAllowed => 405,
            StatusCode::NotAcceptable => 406,
            StatusCode::LengthRequired => 411,
            StatusCode::ImATeapot => 418,
            StatusCode::UpgradeRequired => 426,
            StatusCode::TooManyRequests => 429,
            StatusCode::InternalServerError => 500,
            StatusCode::NotImplemented => 501,
            StatusCode::BadGateway => 502,
            StatusCode::ServiceUnavailable => 503,
            StatusCode::GatewayTimeout => 504,
        }
    }

    /// The status line text: a number and a reason phrase.
    pub open spec fn line(self) -> Seq<char> {
        match self {
            StatusCode::Success => "200 OK"@,
            StatusCode::Created => "201 CREATED"@,
            StatusCode::Accepted => "202 ACCEPTED"@,
            StatusCode::PartialContent => "206 PARTIAL_CONTENT"@,
            StatusCode::MultipleChoices => "300 MULTIPLE_CHOICES"@,
            StatusCode::MovedPermanently => "301 MOVED_PERMANENTLY"@,
            StatusCode::Found => "302 FOUND"@,
            StatusCode::BadRequest => "400 BAD_REQUEST"@,
            StatusCode::Unauthorized => "400 UNAUTHORIZED"@,
            StatusCode::Forbidden => "403 FORBIDDEN"@,
            StatusCode::NotFound => "404 NOT_FOUND"@,
            StatusCode::MethodNotAllowed => "405 METHOD_NOT_ALLOWED"@,
            StatusCode::NotAcceptable => "406 NOT_ACCEPTABLE"@,
            StatusCode::LengthRequired => "411 LENGTH_REQUIRED"@,
            StatusCode::ImATeapot => "418 IM_A_TEAPOT"@,
            StatusCode::UpgradeRequired => "426 UPGRADE_REQUIRED"@,
            StatusCode::TooManyRequests => "429 TOO_MANY_REQUESTS"@,
            StatusCode::InternalServerError => "500 INTERNAL_SERVER_ERROR"@,
            StatusCode::NotImplemented => "501 NOT_IMPLEMENTED"@,
            StatusCode::BadGateway => "502 BAD_GATEWAY"@,
            StatusCode::ServiceUnavailable => "503 SERVICE_UNAVAILABLE"@,
            StatusCode::GatewayTimeout => "504 GATEWAY_TIMEOUT"@,
        }
    }

    /// The number of the status.
    pub fn code(&self) -> (number: u16)
        ensures
            number == self.number(),
    {
        match self {
            StatusCode::Success => 200,
            StatusCode::Created => 201,
            StatusCode::Accepted => 202,
            StatusCode::PartialContent => 206,
            StatusCode::MultipleChoices => 300,
            StatusCode::MovedPermanently => 301,
            StatusCode::Found => 302,
            StatusCode::BadRequest => 400,
            StatusCode::Unauthorized => 401,
            StatusCode::Forbidden => 403,
            StatusCode::NotFound => 404,
            StatusCode::MethodNotAllowed => 405,
            StatusCode::NotAcceptable => 406,
            StatusCode::LengthRequired => 411,
            StatusCode::ImATeapot => 418,
            StatusCode::UpgradeRequired => 426,
            StatusCode::TooManyRequests => 429,
            StatusCode::InternalServerError => 500,
            StatusCode::NotImplemented => 501,
            StatusCode::BadGateway => 502,
            StatusCode::ServiceUnavailable => 503,
            StatusCode::GatewayTimeout => 504,
        }
    }

    /// The status with the given number, if this library knows it.
    pub fn from_code(number: u16) -> (status: Option<StatusCode>)
        ensures
            match status {
                Some(s) => s.number() == number,
                None => forall|s: StatusCode| s.number() != number,
            },
    {
        match number {
            200 => Some(StatusCode::Success),
            201 => Some(StatusCode::Created),
            202 => Some(StatusCode::Accepted),
            206 => Some(StatusCode::PartialContent),
            300 => Some(StatusCode::MultipleChoices),
            301 => Some(StatusCode::MovedPermanently),
            302 => Some(StatusCode::Found),
            400 => Some(StatusCode::BadRequest),
            401 => Some(StatusCode::Unauthorized),
            403 => Some(StatusCode::Forbidden),
            404 => Some(StatusCode::NotFound),
            405 => Some(StatusCode::MethodNotAllowed),
            406 => Some(StatusCode::NotAcceptable),
            411 => Some(StatusCode::LengthRequired),
            418 => Some(StatusCode::ImATeapot),
            426 => Some(StatusCode::UpgradeRequired),
            429 => Some(StatusCode::TooManyRequests),
            500 => Some(StatusCode::InternalServerError),
            501 => Some(StatusCode::NotImplemented),
            502 => Some(StatusCode::BadGateway),
            503 => Some(StatusCode::ServiceUnavailable),
            504 => Some(StatusCode::GatewayTimeout),
            _ => None,
        }
    }

    /// The status as it is written in a status line.
    pub fn as_str(&self) -> (text: &'static str)
        ensures
            text@ == self.line(),
    {
        match self {
            StatusCode::Success => "200 OK",
            StatusCode::Created => "201 CREATED",
            StatusCode::Accepted => "202 ACCEPTED",
            StatusCode::PartialContent => "206 PARTIAL_CONTENT",
            StatusCode::MultipleChoices => "300 MULTIPLE_CHOICES",
            StatusCode::MovedPermanently => "301 MOVED_PERMANENTLY",
            StatusCode::Found => "302 FOUND",
            StatusCode::BadRequest => "400 BAD_REQUEST",
            StatusCode::Unauthorized => "400 UNAUTHORIZED",
            StatusCode::Forbidden => "403 FORBIDDEN",
            StatusCode::NotFound => "404 NOT_FOUND",
            StatusCode::MethodNotAllowed => "405 METHOD_NOT_ALLOWED",
            StatusCode::NotAcceptable => "406 NOT_ACCEPTABLE",
            StatusCode::LengthRequired => "411 LENGTH_REQUIRED",
            StatusCode::ImATeapot => "418 IM_A_TEAPOT",
            StatusCode::UpgradeRequired => "426 UPGRADE_REQUIRED",
            StatusCode::TooManyRequests => "429 TOO_MANY_REQUESTS",
            StatusCode::InternalServerError => "500 INTERNAL_SERVER_ERROR",
            StatusCode::NotImplemented => "501 NOT_IMPLEMENTED",
            StatusCode::BadGateway => "502 BAD_GATEWAY",
            StatusCode::ServiceUnavailable => "503 SERVICE_UNAVAILABLE",
            StatusCode::GatewayTimeout => "504 GATEWAY_TIMEOUT",
        }
    }

    /// The status as it is written in a status line, owned.
    pub fn to_string(&self) -> (text: String)
        ensures
            text@ == self.line(),
    {
        self.as_str().to_owned()
    }
}

impl Default for StatusCode {
    fn default() -> (status: StatusCode)
        ensures
            status == StatusCode::OK,
    {
        StatusCode::OK
    }
}

} // verus!
