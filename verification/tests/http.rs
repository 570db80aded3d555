use reels::http::response::decimal_string;
use reels::http::{
    Headers, HttpRequest, HttpResponse, HttpResponseBuilder, InvalidHttpVersion, Method,
    RequestParseError, StatusCode, Version,
};

#[test]
fn method_tokens() {
    assert_eq!(Method::parse("GET"), Ok(Method::Get));
    assert_eq!(Method::parse("PUT"), Ok(Method::Put));
    assert_eq!(Method::parse("HEAD"), Ok(Method::Head));
    assert_eq!(Method::parse("POST"), Ok(Method::Post));
    assert_eq!(Method::parse("PATCH"), Ok(Method::Patch));
    assert_eq!(Method::parse("TRACE"), Ok(Method::Trace));
    assert_eq!(Method::parse("Delete"), Ok(Method::Delete));
    assert_eq!(Method::parse("CONNECT"), Ok(Method::Connect));
    assert_eq!(Method::parse("OPTIONS"), Ok(Method::Options));
    assert_eq!(Method::parse("get"), Err(()));
    assert_eq!(Method::parse("DELETE"), Err(()));
    assert_eq!(Method::parse(""), Err(()));
    assert_eq!(Method::parse("GETS"), Err(()));
}

#[test]
fn versions() {
    assert_eq!(Version::default(), Version::HTTP_11);
    assert_eq!(Version::from_minor(0), Ok(Version::HTTP_10));
    assert_eq!(Version::from_minor(1), Ok(Version::HTTP_10));
    assert_eq!(Version::from_minor(2), Err(InvalidHttpVersion));
    assert_eq!(Version::HTTP_10.as_str(), "HTTP/1.0");
    assert_eq!(Version::HTTP_11.as_str(), "HTTP/1.1");
    assert!(Version::HTTP_10 < Version::HTTP_11);
}

#[test]
fn status_lines() {
    assert_eq!(StatusCode::default(), StatusCode::OK);
    assert_eq!(StatusCode::OK.to_string(), "200 OK");
    assert_eq!(StatusCode::NOT_FOUND.to_string(), "404 NOT_FOUND");
    assert_eq!(StatusCode::UNAUTHORIZED.to_string(), "400 UNAUTHORIZED");
    assert_eq!(StatusCode::GATEWAY_TIMEOUT.to_string(), "504 GATEWAY_TIMEOUT");
    assert_eq!(StatusCode::IM_A_TEAPOT.code(), 418);
    assert_eq!(StatusCode::UNAUTHORIZED.code(), 401);
    assert_eq!(StatusCode::from_code(301), Some(StatusCode::MOVED_PERMANENTLY));
    assert_eq!(StatusCode::from_code(299), None);
    for code in 0..=u16::MAX {
        if let Some(status) = StatusCode::from_code(code) {
            assert_eq!(status.code(), code);
        }
    }
}

#[test]
fn header_table() {
    let mut headers = Headers::new();
    assert_eq!(headers.len(), 0);
    assert_eq!(headers.get("a"), None);
    headers.insert("a".to_owned(), "1".to_owned());
    headers.insert("b".to_owned(), "2".to_owned());
    headers.insert("a".to_owned(), "3".to_owned());
    assert_eq!(headers.len(), 2);
    assert_eq!(headers.get("a"), Some("3"));
    assert_eq!(headers.get("b"), Some("2"));
    assert_eq!(headers.get("A"), None);
    assert_eq!(headers.field(0), ("a", "3"));
    assert_eq!(headers.field(1), ("b", "2"));
    let copy = headers.clone();
    assert_eq!(copy.len(), 2);
    assert_eq!(copy.get("a"), Some("3"));
}

#[test]
fn decimal_numbers() {
    assert_eq!(decimal_string(0), "0");
    assert_eq!(decimal_string(9), "9");
    assert_eq!(decimal_string(10), "10");
    assert_eq!(decimal_string(1203), "1203");
    assert_eq!(decimal_string(usize::MAX), usize::MAX.to_string());
}

#[test]
fn builder_steps() {
    let builder = HttpResponse::builder();
    assert_eq!(*builder.get_status(), StatusCode::OK);
    assert_eq!(builder.version, Version::HTTP_11);
    assert_eq!(builder.get_headers().len(), 0);
    assert!(builder.get_body().is_empty());
    let mut builder = HttpResponseBuilder::new()
        .status(StatusCode::CREATED)
        .header("content-type".to_owned(), "text/plain".to_owned())
        .body("h\u{e9}".to_owned());
    assert_eq!(*builder.get_status(), StatusCode::CREATED);
    assert_eq!(builder.get_headers().get("content-type"), Some("text/plain"));
    assert_eq!(builder.get_body(), &vec![0x68, 0xc3, 0xa9]);
    *builder.get_status_mut() = StatusCode::ACCEPTED;
    builder
        .get_headers_mut()
        .insert("x".to_owned(), "y".to_owned());
    builder.get_body_mut().push(0x21);
    let response = builder.finalize();
    assert_eq!(response.status, StatusCode::ACCEPTED);
    assert_eq!(response.version, Version::HTTP_11);
    assert_eq!(response.body, vec![0x68, 0xc3, 0xa9, 0x21]);
    assert_eq!(response.headers.len(), 3);
    assert_eq!(response.headers.get("content-length"), Some("4"));
    assert_eq!(response.headers.field(2), ("content-length", "4"));
}

#[test]
fn finalize_replaces_a_given_length() {
    let response = HttpResponse::builder()
        .header("content-length".to_owned(), "99".to_owned())
        .header("a".to_owned(), "b".to_owned())
        .body("hello".to_owned())
        .finalize();
    assert_eq!(response.headers.len(), 2);
    assert_eq!(response.headers.field(0), ("content-length", "5"));
}

#[test]
fn response_on_the_wire() {
    let response = HttpResponse::builder()
        .status(StatusCode::NOT_FOUND)
        .header("content-type".to_owned(), "text/html".to_owned())
        .body("Oops".to_owned())
        .finalize();
    let mut stream = b"x".to_vec();
    response.write(&mut stream);
    assert_eq!(
        String::from_utf8(stream).unwrap(),
        "xHTTP/1.1 404 NOT_FOUND\r\ncontent-type: text/html\r\ncontent-length: 4\r\n\r\nOops\r\n"
    );
    let mut stream = Vec::new();
    HttpResponse::builder().finalize().write(&mut stream);
    assert_eq!(
        String::from_utf8(stream).unwrap(),
        "HTTP/1.1 200 OK\r\ncontent-length: 0\r\n\r\n\r\n"
    );
}

#[test]
fn request_from_parts() {
    let request =
        HttpRequest::from_parts("GET", "/a/b".to_owned(), 1, Headers::new(), None).unwrap();
    assert_eq!(request.method, Method::Get);
    assert_eq!(request.path, "/a/b");
    assert_eq!(request.version, Version::HTTP_10);
    assert_eq!(request.body, None);
    assert_eq!(
        HttpRequest::from_parts("FETCH", "/".to_owned(), 1, Headers::new(), None).err(),
        Some(RequestParseError::InvalidMethod)
    );
    assert_eq!(
        HttpRequest::from_parts("GET", "/".to_owned(), 9, Headers::new(), None).err(),
        Some(RequestParseError::InvalidHttpRequest)
    );
    assert_eq!(
        HttpRequest::from_parts("GET", "a".to_owned(), 0, Headers::new(), None).err(),
        Some(RequestParseError::InvalidUrl)
    );
    assert_eq!(
        HttpRequest::from_parts("FETCH", "a".to_owned(), 9, Headers::new(), None).err(),
        Some(RequestParseError::InvalidMethod)
    );
}

#[test]
fn header_block_end() {
    assert!(HttpRequest::header_block_complete(b"GET / HTTP/1.1\r\n\r\n"));
    assert!(HttpRequest::header_block_complete(b"\n\r\n"));
    assert!(!HttpRequest::header_block_complete(b"GET / HTTP/1.1\r\n"));
    assert!(!HttpRequest::header_block_complete(b"\r\n"));
    assert!(!HttpRequest::header_block_complete(b""));
}

#[test]
fn response_copies_are_equal() {
    let response = HttpResponse::builder()
        .status(StatusCode::FOUND)
        .header("location".to_owned(), "/".to_owned())
        .body("moved".to_owned())
        .finalize();
    let copy = response.clone();
    assert_eq!(copy, response);
    assert_eq!(copy.headers.get("location"), Some("/"));
}
