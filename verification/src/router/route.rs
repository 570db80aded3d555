//! A route: a method, a compiled pattern and the handler that serves it.

use crate::http::method::Method;
use crate::http::request::HttpRequest;
use crate::http::response::HttpResponse;
use crate::url_pattern::capture::{capture_views, CaptureView, PathCapture, SegmentPatternValue};
use crate::url_pattern::error::InvalidUrlPattern;
use crate::url_pattern::pattern::{compile, match_path, well_formed, UrlPattern};
use crate::url_pattern::segment::SegmentPatternView;
use vstd::prelude::*;

verus! {

/// The signal of a handler that a captured value is not of the type it
/// expects. It is no error: the router goes on to the next route.
#[derive(Debug, PartialEq, Eq, Clone, Copy, Structural)]
pub struct SegmentTypeMissmatch;

/// What a handler hands back: a response, or the signal that a capture is
/// of the wrong type.
pub type Handled = Result<HttpResponse, SegmentTypeMissmatch>;

/// The handler may be called with any captures and any request.
pub open spec fn handler_total<H>(handler: H) -> bool where
    H: for <'a, 'b>Fn(Vec<SegmentPatternValue<'a>>, &'b HttpRequest) -> Handled,
 {
    forall|captures: Vec<SegmentPatternValue>, request: &HttpRequest|
        call_requires(handler, (captures, request))
}

/// A route: requests of one method whose path matches one pattern go to one
/// handler.
pub struct DefaultRoute<H> where
    H: for <'a, 'b>Fn(Vec<SegmentPatternValue<'a>>, &'b HttpRequest) -> Handled,
 {
    method: Method,
    url_pattern: UrlPattern,
    handler: H,
}

/// The name under which routes are spoken of.
pub type Route<H> = DefaultRoute<H>;

impl<H> DefaultRoute<H> where
    H: for <'a, 'b>Fn(Vec<SegmentPatternValue<'a>>, &'b HttpRequest) -> Handled,
 {
    /// The method that the route serves.
    pub closed spec fn method(self) -> Method {
        self.method
    }

    /// The pattern that the route serves.
    pub closed spec fn pattern(self) -> Seq<SegmentPatternView> {
        self.url_pattern@
    }

    /// The handler of the route.
    pub closed spec fn handler(self) -> H {
        self.handler
    }
}

/// What a route captures from a request: nothing where the method differs
/// or the pattern does not match the path.
pub open spec fn route_captures<H>(route: DefaultRoute<H>, request: &HttpRequest) -> Option<
    Seq<CaptureView>,
> where
    H: for <'a, 'b>Fn(Vec<SegmentPatternValue<'a>>, &'b HttpRequest) -> Handled,
 {
    if request.method != route.method() {
        None
    } else {
        match_path(route.pattern(), request.path@)
    }
}

impl<H> DefaultRoute<H> where
    H: for <'a, 'b>Fn(Vec<SegmentPatternValue<'a>>, &'b HttpRequest) -> Handled,
 {
    #[verifier::type_invariant]
    pub closed spec fn valid(self) -> bool {
        handler_total(self.handler)
    }

    /// Makes a route; the pattern is compiled from its template.
    pub fn new(method: Method, url_pattern: &str, handler: H) -> (r: Result<
        Self,
        InvalidUrlPattern,
    >)
        requires
            handler_total(handler),
        ensures
            match r {
                Ok(route) => compile(url_pattern@) == Ok::<
                    Seq<SegmentPatternView>,
                    InvalidUrlPattern,
                >(route.pattern()) && well_formed(route.pattern()) && route.method() == method
                    && route.handler() == handler,
                Err(e) => compile(url_pattern@) == Err::<
                    Seq<SegmentPatternView>,
                    InvalidUrlPattern,
                >(e),
            },
    {
        match UrlPattern::parse(url_pattern) {
            Ok(url_pattern) => Ok(DefaultRoute::from_pattern(method, url_pattern, handler)),
            Err(e) => Err(e),
        }
    }

    /// Makes a route from a pattern that is compiled already.
    pub fn from_pattern(method: Method, url_pattern: UrlPattern, handler: H) -> (route: Self)
        requires
            handler_total(handler),
        ensures
            route.method() == method,
            route.pattern() == url_pattern@,
            route.handler() == handler,
    {
        DefaultRoute { method, url_pattern, handler }
    }

    /// The captures of the route on a request, or `None` where the method
    /// differs or the pattern does not match.
    pub fn match_uri<'a>(&self, request: &'a HttpRequest) -> (r: Option<PathCapture<'a>>)
        ensures
            match r {
                Some(captures) => route_captures(*self, request) == Some(capture_views(captures@)),
                None => route_captures(*self, request) is None,
            },
    {
        if request.method != self.method {
            None
        } else {
            self.url_pattern.match_path(request.path.as_str())
        }
    }

    /// Hands the captures and the request to the handler. Its answer is
    /// returned as it is, the signal of a mismatch too.
    pub fn invoke<'a>(&self, path_capture: PathCapture<'a>, request: &HttpRequest) -> (r: Handled)
        ensures
            call_ensures(self.handler(), (path_capture, request), r),
    {
        proof {
            use_type_invariant(self);
        }
        (self.handler)(path_capture, request)
    }
}

} // verus!
