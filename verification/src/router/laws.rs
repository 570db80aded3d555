//! What dispatch promises about the order of routes.

use crate::http::request::HttpRequest;
use crate::http::response::HttpResponse;
use crate::router::route::{route_captures, DefaultRoute, Handled, SegmentTypeMissmatch};
use crate::router::router::{all_pass, dispatches, passes, responds, Dispatched};
use crate::url_pattern::capture::{capture_views, SegmentPatternValue};
use vstd::prelude::*;

verus! {

/// The route matches the request, and whatever its handler answers to the
/// captures is this response.
pub open spec fn always_answers<H>(
    route: DefaultRoute<H>,
    request: &HttpRequest,
    response: HttpResponse,
) -> bool where H: for <'a, 'b>Fn(Vec<SegmentPatternValue<'a>>, &'b HttpRequest) -> Handled {
    &&& route_captures(route, request) is Some
    &&& forall|captures: Vec<SegmentPatternValue>, answer: Handled|
        capture_views(captures@) == route_captures(route, request)->Some_0
            && #[trigger] call_ensures(route.handler(), (captures, request), answer) ==> answer
            == Ok::<HttpResponse, SegmentTypeMissmatch>(response)
}

/// The route does not match the request, or whatever its handler answers to
/// the captures is the signal of a mismatch.
pub open spec fn always_passes<H>(route: DefaultRoute<H>, request: &HttpRequest) -> bool where
    H: for <'a, 'b>Fn(Vec<SegmentPatternValue<'a>>, &'b HttpRequest) -> Handled,
 {
    route_captures(route, request) is Some ==> forall|
        captures: Vec<SegmentPatternValue>,
        answer: Handled,
    |
        capture_views(captures@) == route_captures(route, request)->Some_0
            && #[trigger] call_ensures(route.handler(), (captures, request), answer)
            ==> answer is Err
}

/// First match wins: where the routes before place `i` never serve the
/// request and the route at place `i` always answers it with one response,
/// dispatch yields that response, whatever routes come after.
pub proof fn lemma_first_match_wins<H>(
    routes: Seq<DefaultRoute<H>>,
    fallback: Option<H>,
    request: &HttpRequest,
    i: int,
    response: HttpResponse,
    outcome: Dispatched,
) where H: for <'a, 'b>Fn(Vec<SegmentPatternValue<'a>>, &'b HttpRequest) -> Handled
    requires
        0 <= i < routes.len(),
        forall|j: int| 0 <= j < i ==> always_passes(#[trigger] routes[j], request),
        always_answers(routes[i], request, response),
        dispatches(routes, fallback, request, outcome),
    ensures
        outcome == Ok::<HttpResponse, crate::router::router::UnhandledRequest>(response),
{
    // The route at place `i` is not passed over, so the walk cannot go beyond
    // it; the routes before it are all passed over, so it cannot end before.
    assert(!passes(routes[i], request));
    if let Ok(other) = outcome {
        let k = choose|k: int|
            0 <= k < routes.len() && all_pass(routes, k, request) && responds(
                #[trigger] routes[k],
                request,
                other,
            );
        assert(k == i);
    }
}

/// Dispatch is sensitive to order: of two routes that both always answer a
/// request, each with its own response, the one mounted first serves it.
/// With the two in the other order the other one serves it.
pub proof fn lemma_order_decides<H>(
    first: DefaultRoute<H>,
    second: DefaultRoute<H>,
    fallback: Option<H>,
    request: &HttpRequest,
    first_response: HttpResponse,
    second_response: HttpResponse,
    outcome: Dispatched,
    swapped_outcome: Dispatched,
) where H: for <'a, 'b>Fn(Vec<SegmentPatternValue<'a>>, &'b HttpRequest) -> Handled
    requires
        always_answers(first, request, first_response),
        always_answers(second, request, second_response),
        dispatches(seq![first, second], fallback, request, outcome),
        dispatches(seq![second, first], fallback, request, swapped_outcome),
    ensures
        outcome == Ok::<HttpResponse, crate::router::router::UnhandledRequest>(first_response),
        swapped_outcome == Ok::<HttpResponse, crate::router::router::UnhandledRequest>(second_response),
        first_response != second_response ==> outcome != swapped_outcome,
{
    lemma_first_match_wins(seq![first, second], fallback, request, 0, first_response, outcome);
    lemma_first_match_wins(
        seq![second, first],
        fallback,
        request,
        0,
        second_response,
        swapped_outcome,
    );
}

/// Fall-through: a route whose handler vetoes the captures counts as not
/// matching, and the next route that answers serves the request.
pub proof fn lemma_fall_through<H>(
    vetoing: DefaultRoute<H>,
    serving: DefaultRoute<H>,
    fallback: Option<H>,
    request: &HttpRequest,
    response: HttpResponse,
    outcome: Dispatched,
) where H: for <'a, 'b>Fn(Vec<SegmentPatternValue<'a>>, &'b HttpRequest) -> Handled
    requires
        always_passes(vetoing, request),
        always_answers(serving, request, response),
        dispatches(seq![vetoing, serving], fallback, request, outcome),
    ensures
        outcome == Ok::<HttpResponse, crate::router::router::UnhandledRequest>(response),
{
    lemma_first_match_wins(seq![vetoing, serving], fallback, request, 1, response, outcome);
}

} // verus!
