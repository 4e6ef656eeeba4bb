use wasi_http_adapter::convert::{
    has_scheme_syntax, header_map_of, into_http_request, request_parts, to_http_method, to_http_scheme, uri_of,
    IncomingBody,
};
use wasi_http_adapter::error::{AdapterError, StreamError};
use wasi_http_adapter::wasi_http::{
    Fields, HostMethod, HostScheme, IncomingRequest, IncomingStream, OutgoingResponse,
    CONSUME_FAILED,
};
use wasi_http_adapter::wasi_streams::InputStream;

fn request(
    method: HostMethod,
    path_with_query: Option<&str>,
    scheme: Option<HostScheme>,
    authority: Option<&str>,
    headers: &[(&str, &str)],
) -> IncomingRequest {
    IncomingRequest::new(
        1,
        method,
        path_with_query.map(|s| s.to_string()),
        scheme,
        authority.map(|s| s.to_string()),
        Fields::new(headers),
    )
}

#[test]
fn closed_set_methods_convert_to_standard_constants() {
    let cases = vec![
        (HostMethod::Get, http::Method::GET),
        (HostMethod::Head, http::Method::HEAD),
        (HostMethod::Post, http::Method::POST),
        (HostMethod::Put, http::Method::PUT),
        (HostMethod::Delete, http::Method::DELETE),
        (HostMethod::Connect, http::Method::CONNECT),
        (HostMethod::Options, http::Method::OPTIONS),
        (HostMethod::Trace, http::Method::TRACE),
        (HostMethod::Patch, http::Method::PATCH),
    ];
    for (host, expected) in cases {
        assert_eq!(to_http_method(&host).unwrap(), expected);
    }
}

#[test]
fn closed_set_schemes_convert_to_standard_constants() {
    assert_eq!(to_http_scheme(&HostScheme::Http).unwrap(), http::uri::Scheme::HTTP);
    assert_eq!(to_http_scheme(&HostScheme::Https).unwrap(), http::uri::Scheme::HTTPS);
}

#[test]
fn extension_method_round_trips() {
    for token in ["PURGE", "get", "X-CUSTOM.1~"] {
        let m = to_http_method(&HostMethod::Other(token.to_string())).unwrap();
        assert_eq!(m.as_str(), token);
    }
}

#[test]
fn invalid_extension_methods_fail() {
    for token in ["", "BAD METHOD", "GE\nT", "a,b", "caf\u{e9}"] {
        assert!(to_http_method(&HostMethod::Other(token.to_string())).is_err());
    }
}

#[test]
fn extension_scheme_round_trips() {
    for token in ["ftp", "coap+tcp", "x-1.0"] {
        let s = to_http_scheme(&HostScheme::Other(token.to_string())).unwrap();
        assert_eq!(s.as_str(), token);
    }
}

#[test]
fn invalid_extension_schemes_fail() {
    for token in ["ht tp", "a:b", "ctl\u{1}", &"s".repeat(65), "~", "", "1abc", "a~b", "a/b"] {
        assert!(to_http_scheme(&HostScheme::Other(token.to_string())).is_err());
    }
}

#[test]
fn uri_without_parts_is_empty() {
    let req = request(HostMethod::Get, None, None, None, &[]);
    let uri = uri_of(&req).unwrap();
    assert!(uri.scheme().is_none());
    assert!(uri.authority().is_none());
    assert!(uri.query().is_none());
}

#[test]
fn uri_with_all_parts_is_their_concatenation() {
    let req = request(
        HostMethod::Get,
        Some("/a/b?x=1&y=2"),
        Some(HostScheme::Https),
        Some("example.com:8080"),
        &[],
    );
    let uri = uri_of(&req).unwrap();
    assert_eq!(uri.to_string(), "https://example.com:8080/a/b?x=1&y=2");
}

#[test]
fn uri_with_path_only() {
    let req = request(HostMethod::Get, Some("/echo"), None, None, &[]);
    assert_eq!(uri_of(&req).unwrap().to_string(), "/echo");
}

#[test]
fn uri_with_invalid_path_fails() {
    let req = request(HostMethod::Get, Some("/a b"), None, None, &[]);
    assert!(uri_of(&req).is_err());
    let req = request(HostMethod::Get, Some("/x"), Some(HostScheme::Http), Some("h"), &[]);
    assert!(uri_of(&req).is_ok());
    let req = request(HostMethod::Get, Some("/x\u{7f}"), Some(HostScheme::Http), Some("h"), &[]);
    assert!(uri_of(&req).is_err());
}

#[test]
fn uri_with_scheme_but_no_authority_fails() {
    let req = request(HostMethod::Get, Some("/"), Some(HostScheme::Http), None, &[]);
    assert!(uri_of(&req).is_err());
}

#[test]
fn uri_with_invalid_scheme_fails() {
    let req = request(
        HostMethod::Get,
        Some("/"),
        Some(HostScheme::Other("a b".to_string())),
        Some("h"),
        &[],
    );
    assert!(uri_of(&req).is_err());
}

#[test]
fn header_map_keeps_duplicates_in_order() {
    let fields = Fields::new(&[("a", "1"), ("B", "2"), ("a", "3"), ("b", "4")]);
    let map = header_map_of(&fields).unwrap();
    let a: Vec<&str> = map.get_all("a").iter().map(|v| v.to_str().unwrap()).collect();
    let b: Vec<&str> = map.get_all("b").iter().map(|v| v.to_str().unwrap()).collect();
    assert_eq!(a, vec!["1", "3"]);
    assert_eq!(b, vec!["2", "4"]);
    assert_eq!(map.len(), 4);
}

#[test]
fn header_map_of_no_fields_is_empty() {
    let map = header_map_of(&Fields::new(&[])).unwrap();
    assert!(map.is_empty());
}

#[test]
fn invalid_header_name_fails_whole_conversion() {
    let fields = Fields::new(&[("ok", "1"), ("bad name", "2"), ("fine", "3")]);
    assert!(header_map_of(&fields).is_err());
    assert!(header_map_of(&Fields::new(&[("", "x")])).is_err());
}

#[test]
fn invalid_header_value_fails_whole_conversion() {
    let fields = Fields::new(&[("ok", "1"), ("x", "line\nbreak")]);
    assert!(header_map_of(&fields).is_err());
    assert!(header_map_of(&Fields::new(&[("x", "tab\tok")])).is_ok());
}

#[test]
fn fields_keep_their_pairs() {
    let fields = Fields::new(&[("a", "1"), ("a", "2")]);
    assert_eq!(fields.len(), 2);
    assert_eq!(
        fields.entries(),
        vec![("a".to_string(), "1".to_string()), ("a".to_string(), "2".to_string())]
    );
    let owned = Fields::from_entries(vec![("k".to_string(), "v".to_string())]);
    assert_eq!(owned.entries(), vec![("k".to_string(), "v".to_string())]);
}

#[test]
fn end_to_end_echo_request() {
    let req = request(
        HostMethod::Post,
        Some("/echo"),
        None,
        None,
        &[("content-type", "text/plain")],
    );
    let converted = into_http_request(req, Ok(7)).unwrap();
    assert_eq!(converted.method(), http::Method::POST);
    assert_eq!(converted.uri().to_string(), "/echo");
    assert_eq!(converted.headers().get("content-type").unwrap(), "text/plain");

    let body = converted.body();
    assert_eq!(body.stream_handle(), 7);
    let mut received: Vec<u8> = Vec::new();
    let mut buf = [0u8; 16];
    let n = body.read(&mut buf, Ok((b"hello".to_vec(), false))).unwrap();
    received.extend_from_slice(&buf[..n]);
    let n = body.read(&mut buf, Ok((Vec::new(), true))).unwrap();
    assert_eq!(n, 0);
    assert_eq!(received, b"hello");

    let response = OutgoingResponse::new(200, Fields::new(&[]));
    assert_eq!(response.status_code, 200);
    let out = response.into_stream(Ok(9)).unwrap();
    assert_eq!(out.stream.handle, 9);
    let mut sent: Vec<u8> = Vec::new();
    let mut rest: &[u8] = &received;
    let mut accepted = [2u64, 3u64].into_iter();
    while !rest.is_empty() {
        let n = out.write(rest, Ok(accepted.next().unwrap())).unwrap();
        sent.extend_from_slice(&rest[..n]);
        rest = &rest[n..];
    }
    assert!(out.flush().is_ok());
    assert_eq!(sent, b"hello");
}

#[test]
fn request_with_invalid_method_fails_as_http_error() {
    let req = request(HostMethod::Other("BAD METHOD".to_string()), Some("/"), None, None, &[]);
    assert!(matches!(into_http_request(req, Ok(1)), Err(AdapterError::Http(_))));
}

#[test]
fn request_with_invalid_header_fails_as_http_error() {
    let req = request(HostMethod::Get, Some("/"), None, None, &[("bad name", "v")]);
    assert!(matches!(into_http_request(req, Ok(1)), Err(AdapterError::Http(_))));
}

#[test]
fn request_whose_body_is_refused_fails() {
    let req = request(HostMethod::Get, Some("/"), None, None, &[]);
    match into_http_request(req, Err(())) {
        Err(AdapterError::Other(msg)) => assert_eq!(msg, CONSUME_FAILED),
        _ => panic!("expected the consume error"),
    }
}

fn body(handle: u32) -> IncomingBody {
    IncomingBody::new(IncomingStream { stream: InputStream { handle } })
}

#[test]
fn trailers_present_give_a_header_map() {
    let trailers = body(3).finish_trailers(Some(Fields::new(&[("x-checksum", "abc")]))).unwrap();
    let map = trailers.unwrap();
    assert_eq!(map.len(), 1);
    assert_eq!(map.get("x-checksum").unwrap(), "abc");
}

#[test]
fn no_trailers_give_none() {
    assert!(body(3).finish_trailers(None).unwrap().is_none());
}

#[test]
fn empty_trailers_give_an_empty_map() {
    let map = body(3).finish_trailers(Some(Fields::new(&[]))).unwrap().unwrap();
    assert!(map.is_empty());
}

#[test]
fn invalid_trailers_fail_as_http_error() {
    let r = body(3).finish_trailers(Some(Fields::new(&[("x", "a\rb")])));
    assert!(matches!(r, Err(AdapterError::Http(_))));
}

#[test]
fn body_read_reports_stream_error() {
    let mut buf = [7u8; 4];
    let r = body(3).read(&mut buf, Err(StreamError {}));
    assert!(matches!(r, Err(AdapterError::WasiStream(_))));
    assert_eq!(buf, [7u8; 4]);
}

#[test]
fn request_parts_are_the_converted_metadata() {
    let req = request(
        HostMethod::Put,
        Some("/items/1?v=2"),
        Some(HostScheme::Http),
        Some("host.test"),
        &[("X-A", "1"), ("x-a", "2")],
    );
    let (method, uri, headers) = request_parts(&req).unwrap();
    assert_eq!(method, http::Method::PUT);
    assert_eq!(uri.to_string(), "http://host.test/items/1?v=2");
    let values: Vec<&str> = headers.get_all("x-a").iter().map(|v| v.to_str().unwrap()).collect();
    assert_eq!(values, vec!["1", "2"]);
}

#[test]
fn fragment_after_path_is_accepted() {
    let req = request(HostMethod::Get, Some("/a?q=1#frag ment"), None, None, &[]);
    assert_eq!(uri_of(&req).unwrap().to_string(), "/a?q=1");
}

#[test]
fn scheme_syntax_is_uri_scheme_syntax() {
    assert!(has_scheme_syntax("http"));
    assert!(has_scheme_syntax("svn+ssh"));
    assert!(has_scheme_syntax(&"a".repeat(64)));
    assert!(!has_scheme_syntax(&"a".repeat(65)));
    assert!(!has_scheme_syntax("9p"));
    assert!(!has_scheme_syntax(""));
    assert!(!has_scheme_syntax("caf\u{e9}"));
}
