//! The route table and dispatch.
//!
//! Routes are tried in the order in which they were mounted. A route that
//! does not match is passed over; so is one whose handler signals a capture
//! of the wrong type. The first response ends the walk.

use crate::http::method::Method;
use crate::http::request::HttpRequest;
use crate::http::response::HttpResponse;
use crate::router::route::{
    handler_total, route_captures, DefaultRoute, Handled, SegmentTypeMissmatch,
};
use crate::url_pattern::capture::{capture_views, SegmentPatternValue};
use crate::url_pattern::error::InvalidUrlPattern;
use crate::url_pattern::pattern::{compile, UrlPattern};
use crate::url_pattern::segment::SegmentPatternView;
use vstd::prelude::*;

verus! {

/// The outcome of dispatch when no route and no fallback produced a
/// response. It is for the caller to map it to a status.
#[derive(Debug, PartialEq, Eq, Clone, Copy, Structural)]
pub struct UnhandledRequest;

/// What dispatch hands back: a handler's response, or the word that the
/// request was not handled.
pub type Dispatched = Result<HttpResponse, UnhandledRequest>;

/// The route is passed over on this request: it does not match, or its
/// handler may signal a capture of the wrong type.
pub open spec fn passes<H>(route: DefaultRoute<H>, request: &HttpRequest) -> bool where
    H: for <'a, 'b>Fn(Vec<SegmentPatternValue<'a>>, &'b HttpRequest) -> Handled,
 {
    match route_captures(route, request) {
        None => true,
        Some(views) => exists|captures: Vec<SegmentPatternValue>|
            capture_views(captures@) == views && #[trigger] call_ensures(
                route.handler(),
                (captures, request),
                Err::<HttpResponse, SegmentTypeMissmatch>(SegmentTypeMissmatch),
            ),
    }
}

/// The route serves this request with this response: it matches, and its
/// handler may answer the captures with the response.
pub open spec fn responds<H>(
    route: DefaultRoute<H>,
    request: &HttpRequest,
    response: HttpResponse,
) -> bool where H: for <'a, 'b>Fn(Vec<SegmentPatternValue<'a>>, &'b HttpRequest) -> Handled {
    match route_captures(route, request) {
        None => false,
        Some(views) => exists|captures: Vec<SegmentPatternValue>|
            capture_views(captures@) == views && #[trigger] call_ensures(
                route.handler(),
                (captures, request),
                Ok::<HttpResponse, SegmentTypeMissmatch>(response),
            ),
    }
}

/// Every route before place `n` is passed over on this request.
pub open spec fn all_pass<H>(routes: Seq<DefaultRoute<H>>, n: int, request: &HttpRequest) -> bool where
    H: for <'a, 'b>Fn(Vec<SegmentPatternValue<'a>>, &'b HttpRequest) -> Handled,
 {
    forall|j: int| 0 <= j < n ==> passes(#[trigger] routes[j], request)
}

/// What the fallback may answer when it is called without captures.
pub open spec fn fallback_answers<H>(fallback: H, request: &HttpRequest, answer: Handled) -> bool where
    H: for <'a, 'b>Fn(Vec<SegmentPatternValue<'a>>, &'b HttpRequest) -> Handled,
 {
    exists|captures: Vec<SegmentPatternValue>|
        captures@.len() == 0 && #[trigger] call_ensures(fallback, (captures, request), answer)
}

/// The outcomes that dispatch may have on a route table.
///
/// A response comes from the first route that is not passed over, or, where
/// every route is passed over, from the fallback. The request is unhandled
/// where every route is passed over and there is no fallback, or the
/// fallback itself signals a mismatch.
pub open spec fn dispatches<H>(
    routes: Seq<DefaultRoute<H>>,
    fallback: Option<H>,
    request: &HttpRequest,
    outcome: Dispatched,
) -> bool where H: for <'a, 'b>Fn(Vec<SegmentPatternValue<'a>>, &'b HttpRequest) -> Handled {
    match outcome {
        Ok(response) => {
            ||| exists|i: int|
                0 <= i < routes.len() && all_pass(routes, i, request) && responds(
                    #[trigger] routes[i],
                    request,
                    response,
                )
            ||| (all_pass(routes, routes.len() as int, request) && fallback is Some
                && fallback_answers(
                fallback->Some_0,
                request,
                Ok::<HttpResponse, SegmentTypeMissmatch>(response),
            ))
        },
        Err(_) => all_pass(routes, routes.len() as int, request) && (fallback is Some
            ==> fallback_answers(
            fallback->Some_0,
            request,
            Err::<HttpResponse, SegmentTypeMissmatch>(SegmentTypeMissmatch),
        )),
    }
}

/// An ordered table of routes and an optional fallback handler.
pub struct Router<H> where
    H: for <'a, 'b>Fn(Vec<SegmentPatternValue<'a>>, &'b HttpRequest) -> Handled,
 {
    routes: Vec<DefaultRoute<H>>,
    fallback_handler: Option<H>,
}

impl<H> Router<H> where
    H: for <'a, 'b>Fn(Vec<SegmentPatternValue<'a>>, &'b HttpRequest) -> Handled,
 {
    #[verifier::type_invariant]
    pub closed spec fn valid(self) -> bool {
        self.fallback_handler is Some ==> handler_total(self.fallback_handler->Some_0)
    }

    /// The routes, in the order in which they were mounted.
    pub closed spec fn routes(self) -> Seq<DefaultRoute<H>> {
        self.routes@
    }

    /// The fallback handler, if one was registered.
    pub closed spec fn fallback_handler(self) -> Option<H> {
        self.fallback_handler
    }

    /// A router without routes and without fallback.
    pub fn new() -> (router: Router<H>)
        ensures
            router.routes() == Seq::<DefaultRoute<H>>::empty(),
            router.fallback_handler() is None,
    {
        Router { routes: Vec::new(), fallback_handler: None }
    }

    /// The number of routes.
    pub fn len(&self) -> (n: usize)
        ensures
            n == self.routes().len(),
    {
        self.routes.len()
    }

    /// Mounts a handler on a method and a path template. The route is added
    /// after those already mounted; a template that does not compile leaves
    /// no route behind and its error is returned.
    pub fn mount(self, method: Method, url_pattern: &str, handler: H) -> (r: Result<
        Self,
        InvalidUrlPattern,
    >)
        requires
            handler_total(handler),
        ensures
            match r {
                Ok(router) => {
                    &&& router.routes().len() == self.routes().len() + 1
                    &&& router.routes().drop_last() == self.routes()
                    &&& router.fallback_handler() == self.fallback_handler()
                    &&& router.routes().last().method() == method
                    &&& router.routes().last().handler() == handler
                    &&& compile(url_pattern@) == Ok::<Seq<SegmentPatternView>, InvalidUrlPattern>(
                        router.routes().last().pattern(),
                    )
                },
                Err(e) => compile(url_pattern@) == Err::<
                    Seq<SegmentPatternView>,
                    InvalidUrlPattern,
                >(e),
            },
    {
        proof {
            use_type_invariant(&self);
        }
        let route = match DefaultRoute::new(method, url_pattern, handler) {
            Ok(route) => route,
            Err(e) => {
                return Err(e);
            },
        };
        let Router { routes, fallback_handler } = self;
        let mut routes = routes;
        routes.push(route);
        Ok(Router { routes, fallback_handler })
    }

    /// Mounts a handler on several methods and one template: one route for
    /// each method, in the order given, after the routes already mounted.
    /// The template is compiled once, before any route is mounted: where it
    /// does not compile, no route is left behind and its error is returned,
    /// also where no method is given.
    pub fn mount_all(self, methods: Vec<Method>, url_pattern: &str, handler: H) -> (r: Result<
        Self,
        InvalidUrlPattern,
    >) where H: Copy
        requires
            handler_total(handler),
        ensures
            match r {
                Ok(router) => {
                    &&& compile(url_pattern@) is Ok
                    &&& router.routes().len() == self.routes().len() + methods@.len()
                    &&& router.routes().subrange(0, self.routes().len() as int) == self.routes()
                    &&& router.fallback_handler() == self.fallback_handler()
                    &&& forall|k: int|
                        0 <= k < methods@.len() ==> {
                            let route = #[trigger] router.routes()[self.routes().len() + k];
                            &&& route.method() == methods@[k]
                            &&& route.handler() == handler
                            &&& compile(url_pattern@) == Ok::<
                                Seq<SegmentPatternView>,
                                InvalidUrlPattern,
                            >(route.pattern())
                        }
                },
                Err(e) => compile(url_pattern@) == Err::<
                    Seq<SegmentPatternView>,
                    InvalidUrlPattern,
                >(e),
            },
    {
        proof {
            use_type_invariant(&self);
        }
        let pattern = match UrlPattern::parse(url_pattern) {
            Ok(pattern) => pattern,
            Err(e) => {
                return Err(e);
            },
        };
        let ghost before = self.routes();
        let Router { routes, fallback_handler } = self;
        let mut routes = routes;
        let mut i: usize = 0;
        assert(routes@.subrange(0, before.len() as int) =~= before);
        while i < methods.len()
            invariant
                i <= methods@.len(),
                handler_total(handler),
                compile(url_pattern@) == Ok::<Seq<SegmentPatternView>, InvalidUrlPattern>(
                    pattern@,
                ),
                routes@.len() == before.len() + i,
                routes@.subrange(0, before.len() as int) == before,
                forall|k: int|
                    0 <= k < i ==> {
                        let route = #[trigger] routes@[before.len() + k];
                        &&& route.method() == methods@[k]
                        &&& route.handler() == handler
                        &&& route.pattern() == pattern@
                    },
            decreases methods@.len() - i,
        {
            let ghost so_far = routes@;
            routes.push(DefaultRoute::from_pattern(methods[i], pattern.clone(), handler));
            proof {
                assert(routes@.subrange(0, before.len() as int) =~= so_far.subrange(
                    0,
                    before.len() as int,
                ));
                assert forall|k: int| 0 <= k < i + 1 implies {
                    let route = #[trigger] routes@[before.len() + k];
                    &&& route.method() == methods@[k]
                    &&& route.handler() == handler
                    &&& route.pattern() == pattern@
                } by {
                    if k < i {
                        assert(routes@[before.len() + k] == so_far[before.len() + k]);
                    }
                }
            }
            i += 1;
        }
        Ok(Router { routes, fallback_handler })
    }

    /// Registers the fallback handler, in place of an earlier one.
    pub fn fallback(self, handler: H) -> (router: Self)
        requires
            handler_total(handler),
        ensures
            router.routes() == self.routes(),
            router.fallback_handler() == Some(handler),
    {
        let Router { routes, fallback_handler: _ } = self;
        Router { routes, fallback_handler: Some(handler) }
    }

    /// Routes the request to the first route that matches it and whose
    /// handler accepts its captures; to the fallback where there is none.
    pub fn route(&self, req: HttpRequest) -> (outcome: Dispatched)
        ensures
            dispatches(self.routes(), self.fallback_handler(), &req, outcome),
    {
        proof {
            use_type_invariant(self);
        }
        let mut i: usize = 0;
        while i < self.routes.len()
            invariant
                i <= self.routes.len(),
                all_pass(self.routes(), i as int, &req),
            decreases self.routes.len() - i,
        {
            let route = &self.routes[i];
            if let Some(captures) = route.match_uri(&req) {
                match route.invoke(captures, &req) {
                    Ok(response) => {
                        return Ok(response);
                    },
                    Err(signal) => {
                        // The handler vetoed the captures: the route counts as
                        // one that does not match.
                        assert(signal == SegmentTypeMissmatch);
                    },
                }
            }
            i += 1;
        }
        match &self.fallback_handler {
            Some(handler) => {
                let captures: Vec<SegmentPatternValue> = Vec::new();
                let answer = handler(captures, &req);
                match answer {
                    Ok(response) => Ok(response),
                    Err(signal) => {
                        assert(signal == SegmentTypeMissmatch);
                        Err(UnhandledRequest)
                    },
                }
            },
            None => Err(UnhandledRequest),
        }
    }
}

} // verus!
