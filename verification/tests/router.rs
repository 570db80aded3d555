use reels::http::{Headers, HttpRequest, HttpResponse, Method, StatusCode, Version};
use reels::router::coerce::{rest, single, unsigned};
use reels::router::{Args, DefaultRoute, Router, SegmentTypeMissmatch, UnhandledRequest};
use reels::url_pattern::{InvalidUrlPattern, SegmentPatternValue};

type Handler = for<'a, 'b> fn(
    Vec<SegmentPatternValue<'a>>,
    &'b HttpRequest,
) -> Result<HttpResponse, SegmentTypeMissmatch>;

fn request(method: Method, path: &str) -> HttpRequest {
    HttpRequest {
        method,
        path: path.to_owned(),
        version: Version::HTTP_11,
        headers: Headers::new(),
        body: None,
    }
}

fn text(body: String) -> HttpResponse {
    HttpResponse::builder().body(body).finalize()
}

fn user_uid(
    captures: Vec<SegmentPatternValue<'_>>,
    _request: &HttpRequest,
) -> Result<HttpResponse, SegmentTypeMissmatch> {
    let uid = unsigned(single(&captures, 0)?)?;
    Ok(text(format!("uid {}", uid)))
}

fn user_name(
    captures: Vec<SegmentPatternValue<'_>>,
    _request: &HttpRequest,
) -> Result<HttpResponse, SegmentTypeMissmatch> {
    let name = single(&captures, 0)?;
    Ok(text(format!("name {}", name)))
}

fn index(
    _captures: Vec<SegmentPatternValue<'_>>,
    _request: &HttpRequest,
) -> Result<HttpResponse, SegmentTypeMissmatch> {
    Ok(text("index".to_owned()))
}

fn not_found(
    captures: Vec<SegmentPatternValue<'_>>,
    _request: &HttpRequest,
) -> Result<HttpResponse, SegmentTypeMissmatch> {
    let segments = rest(&captures, 0)?;
    Ok(HttpResponse::builder()
        .status(StatusCode::NOT_FOUND)
        .body(format!("lost at /{}", segments.join("/")))
        .finalize())
}

fn last_resort(
    captures: Vec<SegmentPatternValue<'_>>,
    request: &HttpRequest,
) -> Result<HttpResponse, SegmentTypeMissmatch> {
    assert!(captures.is_empty());
    Ok(text(format!("fallback {}", request.path)))
}

fn never(
    _captures: Vec<SegmentPatternValue<'_>>,
    _request: &HttpRequest,
) -> Result<HttpResponse, SegmentTypeMissmatch> {
    Err(SegmentTypeMissmatch)
}

fn body_of(response: &HttpResponse) -> String {
    String::from_utf8(response.body.clone()).unwrap()
}

#[test]
fn typed_routes_fall_through() {
    let router: Router<Handler> = Router::new()
        .mount(Method::Get, "/users/<uid>", user_uid as Handler)
        .unwrap()
        .mount(Method::Get, "/users/<name>", user_name as Handler)
        .unwrap();
    let response = router.route(request(Method::Get, "/users/42")).unwrap();
    assert_eq!(body_of(&response), "uid 42");
    let response = router.route(request(Method::Get, "/users/alice")).unwrap();
    assert_eq!(body_of(&response), "name alice");
}

#[test]
fn order_of_mounting_decides() {
    let router: Router<Handler> = Router::new()
        .mount(Method::Get, "/users/<name>", user_name as Handler)
        .unwrap()
        .mount(Method::Get, "/users/<uid>", user_uid as Handler)
        .unwrap();
    let response = router.route(request(Method::Get, "/users/42")).unwrap();
    assert_eq!(body_of(&response), "name 42");

    let router: Router<Handler> = Router::new()
        .mount(Method::Get, "/users/<uid>", user_uid as Handler)
        .unwrap()
        .mount(Method::Get, "/users/<name>", user_name as Handler)
        .unwrap();
    let response = router.route(request(Method::Get, "/users/42")).unwrap();
    assert_eq!(body_of(&response), "uid 42");
}

#[test]
fn first_response_ends_the_walk() {
    let router: Router<Handler> = Router::new()
        .mount(Method::Get, "/users/<uid>", user_uid as Handler)
        .unwrap()
        .mount(Method::Get, "/users/<name>", user_name as Handler)
        .unwrap()
        .mount(Method::Get, "/", index as Handler)
        .unwrap()
        .mount(Method::Get, "/<segments..>", not_found as Handler)
        .unwrap();
    assert_eq!(router.len(), 4);
    assert_eq!(body_of(&router.route(request(Method::Get, "/")).unwrap()), "index");
    let response = router.route(request(Method::Get, "/a/b")).unwrap();
    assert_eq!(response.status, StatusCode::NOT_FOUND);
    assert_eq!(body_of(&response), "lost at /a/b");
    assert_eq!(response.headers.get("content-length"), Some("12"));
}

#[test]
fn method_must_agree() {
    let router: Router<Handler> = Router::new()
        .mount(Method::Post, "/users/<name>", user_name as Handler)
        .unwrap();
    assert_eq!(
        router.route(request(Method::Get, "/users/a")).err(),
        Some(UnhandledRequest)
    );
    assert!(router.route(request(Method::Post, "/users/a")).is_ok());
}

#[test]
fn unhandled_without_fallback() {
    let router: Router<Handler> = Router::new();
    assert_eq!(
        router.route(request(Method::Get, "/")).err(),
        Some(UnhandledRequest)
    );
    let router: Router<Handler> = Router::new()
        .mount(Method::Get, "/users/<uid>", user_uid as Handler)
        .unwrap();
    assert_eq!(
        router.route(request(Method::Get, "/users/alice")).err(),
        Some(UnhandledRequest)
    );
    assert_eq!(
        router.route(request(Method::Get, "/other")).err(),
        Some(UnhandledRequest)
    );
}

#[test]
fn fallback_serves_what_no_route_serves() {
    let router: Router<Handler> = Router::new()
        .mount(Method::Get, "/users/<uid>", user_uid as Handler)
        .unwrap()
        .fallback(last_resort as Handler);
    let response = router.route(request(Method::Get, "/users/alice")).unwrap();
    assert_eq!(body_of(&response), "fallback /users/alice");
    let response = router.route(request(Method::Get, "/users/7")).unwrap();
    assert_eq!(body_of(&response), "uid 7");
    let router: Router<Handler> = Router::new().fallback(never as Handler);
    assert_eq!(
        router.route(request(Method::Get, "/")).err(),
        Some(UnhandledRequest)
    );
}

#[test]
fn mount_reports_grammar_errors() {
    let router: Router<Handler> = Router::new();
    assert_eq!(
        router
            .mount(Method::Get, "/<a..>/b", index as Handler)
            .err(),
        Some(InvalidUrlPattern::InvalidKleenePosition)
    );
    let router: Router<Handler> = Router::new();
    assert_eq!(
        router.mount(Method::Get, "users", index as Handler).err(),
        Some(InvalidUrlPattern::MissingForwardSlash)
    );
    assert_eq!(
        DefaultRoute::new(Method::Get, "/<1>", index as Handler).err(),
        Some(InvalidUrlPattern::InvalidIdentifier)
    );
    assert_eq!(
        DefaultRoute::new(Method::Get, "/<a", index as Handler).err(),
        Some(InvalidUrlPattern::MissingClosingAngleBracket)
    );
}

#[test]
fn route_matches_and_invokes() {
    let route = DefaultRoute::new(Method::Get, "/users/<uid>", user_uid as Handler).unwrap();
    let get = request(Method::Get, "/users/5");
    let captures = route.match_uri(&get).unwrap();
    assert_eq!(body_of(&route.invoke(captures, &get).unwrap()), "uid 5");
    let other = request(Method::Get, "/users/x");
    let captures = route.match_uri(&other).unwrap();
    assert_eq!(route.invoke(captures, &other).err(), Some(SegmentTypeMissmatch));
    assert!(route.match_uri(&request(Method::Put, "/users/5")).is_none());
    assert!(route.match_uri(&request(Method::Get, "/users")).is_none());
    assert!(route.match_uri(&request(Method::Get, "users/5")).is_none());
    let pattern = reels::url_pattern::UrlPattern::parse("/users/<uid>").unwrap();
    let route = DefaultRoute::from_pattern(Method::Post, pattern, user_uid as Handler);
    let post = request(Method::Post, "/users/9");
    let captures = route.match_uri(&post).unwrap();
    assert_eq!(body_of(&route.invoke(captures, &post).unwrap()), "uid 9");
    assert!(route.match_uri(&get).is_none());
}

#[test]
fn closures_are_handlers() {
    let greeting = "hello".to_owned();
    let router = Router::new()
        .mount(
            Method::Get,
            "/<who>",
            move |captures: Vec<SegmentPatternValue<'_>>, _request: &HttpRequest| {
                let who = single(&captures, 0)?;
                Ok(text(format!("{} {}", greeting, who)))
            },
        )
        .unwrap();
    let response = router.route(request(Method::Get, "/world")).unwrap();
    assert_eq!(body_of(&response), "hello world");
}

#[test]
fn coercions() {
    let captures = vec![
        SegmentPatternValue::Wildcard("12"),
        SegmentPatternValue::WildcardKleene(vec!["a", "b"]),
    ];
    assert_eq!(single(&captures, 0), Ok("12"));
    assert_eq!(single(&captures, 1), Err(SegmentTypeMissmatch));
    assert_eq!(single(&captures, 2), Err(SegmentTypeMissmatch));
    assert_eq!(rest(&captures, 1), Ok(vec!["a", "b"]));
    assert_eq!(rest(&captures, 0), Err(SegmentTypeMissmatch));
    assert_eq!(rest(&captures, 2), Err(SegmentTypeMissmatch));
}

#[test]
fn unsigned_numbers() {
    for text in [
        "0", "7", "42", "007", "+5", "4294967295", "4294967296", "4294967300", "99999999999",
        "", "+", "-1", "1a", "a1", " 1", "1 ", "++1", "1+", "\u{0663}", "12345678",
    ] {
        assert_eq!(
            unsigned(text).ok(),
            text.parse::<u32>().ok(),
            "{:?}",
            text
        );
    }
    assert_eq!(unsigned("4294967295"), Ok(4294967295));
    assert_eq!(unsigned("4294967296"), Err(SegmentTypeMissmatch));
}

#[test]
fn declaration_arguments() {
    let args = Args::parse("/users/<username>").unwrap();
    assert!(args.methods.is_empty());
    assert_eq!(args.url.to_string(), "/users/<username>");
    let all = Args::parse("/").unwrap().or_all_methods();
    assert_eq!(
        all.methods,
        vec!["Get", "Put", "Head", "Post", "Patch", "Trace", "Delete", "Connect", "Options"]
    );
    let one = Args::parse("/").unwrap().method("Get").or_all_methods();
    assert_eq!(one.methods, vec!["Get"]);
    assert_eq!(
        Args::parse("/<a..>/b").err(),
        Some(InvalidUrlPattern::InvalidKleenePosition)
    );
    assert_eq!(
        Args::refusal(InvalidUrlPattern::InvalidIdentifier),
        "Not a valid url pattern Url capture is not a valid identifier"
    );
}

fn shared_between_threads<T: Sync + Send>(_value: &T) {}

#[test]
fn dispatch_leaves_the_router_as_it_is() {
    let router: Router<Handler> = Router::new()
        .mount(Method::Get, "/users/<uid>", user_uid as Handler)
        .unwrap()
        .mount(Method::Get, "/users/<name>", user_name as Handler)
        .unwrap();
    shared_between_threads(&router);
    let first = &router;
    let second = &router;
    for round in 0..50u32 {
        let response = first
            .route(request(Method::Get, &format!("/users/{}", round)))
            .unwrap();
        assert_eq!(body_of(&response), format!("uid {}", round));
        let response = second
            .route(request(Method::Get, &format!("/users/w{}", round)))
            .unwrap();
        assert_eq!(body_of(&response), format!("name w{}", round));
        assert_eq!(router.len(), 2);
    }
}

#[test]
fn one_handler_on_several_methods() {
    let router: Router<Handler> = Router::new()
        .mount(Method::Get, "/", index as Handler)
        .unwrap()
        .mount_all(vec![Method::Get, Method::Post], "/users/<name>", user_name as Handler)
        .unwrap();
    assert_eq!(router.len(), 3);
    assert!(router.route(request(Method::Get, "/users/a")).is_ok());
    assert!(router.route(request(Method::Post, "/users/a")).is_ok());
    assert_eq!(
        router.route(request(Method::Put, "/users/a")).err(),
        Some(UnhandledRequest)
    );
    let router: Router<Handler> = Router::new()
        .mount_all(vec![], "/users", index as Handler)
        .unwrap();
    assert_eq!(router.len(), 0);
    let router: Router<Handler> = Router::new();
    assert_eq!(
        router.mount_all(vec![], "no slash", index as Handler).err(),
        Some(InvalidUrlPattern::MissingForwardSlash)
    );
    let router: Router<Handler> = Router::new();
    assert_eq!(
        router
            .mount_all(vec![Method::Get], "no slash", index as Handler)
            .err(),
        Some(InvalidUrlPattern::MissingForwardSlash)
    );
}
