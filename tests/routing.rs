use edge_proxy::{
    compose_target, contains_parent_segment, dispatch, relay, starts_with, target_uri, Failure,
    Route, ServerConfig,
};

fn config() -> ServerConfig {
    ServerConfig::new("8080", "/api", "http://localhost:9000", "./public").unwrap()
}

fn target_of(r: Route) -> String {
    match r {
        Route::Proxy(t) => t,
        other => panic!("expected a forwarded route, got {:?}", other),
    }
}

#[test]
fn api_request_is_forwarded_with_path_and_query() {
    let c = config();
    let r = dispatch(&c, "/api/users", Some("/api/users?active=true"));
    assert_eq!(target_of(r), "http://localhost:9000/api/users?active=true");
}

#[test]
fn forwarded_target_parses_as_the_same_uri() {
    let c = config();
    let t = target_of(dispatch(&c, "/api/users", Some("/api/users?active=true")));
    let u = target_uri(&t).unwrap();
    assert_eq!(u.to_string(), "http://localhost:9000/api/users?active=true");
    assert_eq!(u.path(), "/api/users");
    assert_eq!(u.query(), Some("active=true"));
}

#[test]
fn path_equal_to_prefix_is_forwarded() {
    let c = config();
    assert_eq!(target_of(dispatch(&c, "/api", Some("/api"))), "http://localhost:9000/api");
}

#[test]
fn prefix_match_is_literal_not_by_segment() {
    let c = config();
    assert_eq!(
        target_of(dispatch(&c, "/apix/y", None)),
        "http://localhost:9000/apix/y"
    );
}

#[test]
fn missing_path_and_query_falls_back_to_path() {
    assert_eq!(
        compose_target("http://up:1", "/api/a/", None),
        "http://up:1/api/a/"
    );
}

#[test]
fn forwarded_path_is_not_normalised() {
    let c = config();
    let t = target_of(dispatch(&c, "/api//a/./b/", Some("/api//a/./b/?x=%20&y")));
    assert_eq!(t, "http://localhost:9000/api//a/./b/?x=%20&y");
}

#[test]
fn api_path_with_parent_segment_is_still_forwarded() {
    let c = config();
    let t = target_of(dispatch(&c, "/api/../x", None));
    assert_eq!(t, "http://localhost:9000/api/../x");
}

#[test]
fn other_paths_are_served_statically() {
    let c = config();
    assert!(matches!(dispatch(&c, "/index.html", Some("/index.html")), Route::Static));
    assert!(matches!(dispatch(&c, "/missing.html", None), Route::Static));
    assert!(matches!(dispatch(&c, "/", None), Route::Static));
    assert!(matches!(dispatch(&c, "/ap", None), Route::Static));
}

#[test]
fn same_static_request_routes_the_same_twice() {
    let c = config();
    let a = dispatch(&c, "/index.html", Some("/index.html?v=1"));
    let b = dispatch(&c, "/index.html", Some("/index.html?v=1"));
    assert!(matches!(a, Route::Static));
    assert!(matches!(b, Route::Static));
}

#[test]
fn parent_segments_are_rejected_as_not_found() {
    let c = config();
    assert!(matches!(dispatch(&c, "/../etc/passwd", None), Route::Rejected));
    assert!(matches!(dispatch(&c, "/a/../../secret", None), Route::Rejected));
    assert!(matches!(dispatch(&c, "/a/..", None), Route::Rejected));
    assert!(matches!(dispatch(&c, "/a\\..\\b", None), Route::Rejected));
    assert_eq!(Failure::PathTraversalRejected.status_code(), 404);
    assert_eq!(
        Failure::PathTraversalRejected.client_message(),
        Failure::StaticNotFound.client_message()
    );
}

#[test]
fn dots_inside_names_are_not_parent_segments() {
    assert!(!contains_parent_segment("/..foo"));
    assert!(!contains_parent_segment("/a..b/c"));
    assert!(!contains_parent_segment("/foo../x"));
    assert!(!contains_parent_segment("/./a"));
    assert!(!contains_parent_segment(""));
    assert!(!contains_parent_segment("."));
    assert!(contains_parent_segment(".."));
    assert!(contains_parent_segment("x/../y"));
}

#[test]
fn literal_prefix_test() {
    assert!(starts_with("/api/v1", "/api"));
    assert!(starts_with("/api", "/api"));
    assert!(starts_with("/x", ""));
    assert!(!starts_with("/ap", "/api"));
    assert!(!starts_with("/API/v1", "/api"));
}

#[test]
fn malformed_target_is_a_gateway_failure() {
    let r = target_uri("http://localhost:9000/api/a b");
    assert_eq!(r.err(), Some(Failure::BadUpstreamUri));
    assert_eq!(Failure::BadUpstreamUri.status_code(), 502);
    assert_eq!(Failure::BadUpstreamUri.client_message(), "Bad Gateway");
}

#[test]
fn upstream_response_is_relayed_unchanged() {
    let resp = (201u16, vec![("x-up".to_string(), "1".to_string())], b"body".to_vec());
    let out: Result<_, Failure> = relay::<_, String>(Ok(resp.clone()));
    assert_eq!(out, Ok(resp));
}

#[test]
fn unreachable_upstream_gives_gateway_error_and_static_still_works() {
    let out: Result<u16, Failure> = relay(Err("connection refused".to_string()));
    assert_eq!(out, Err(Failure::UpstreamUnreachable));
    assert_eq!(Failure::UpstreamUnreachable.status_code(), 502);
    assert_eq!(Failure::UpstreamUnreachable.client_message(), "Bad Gateway");
    let c = config();
    assert!(matches!(dispatch(&c, "/index.html", None), Route::Static));
}

#[test]
fn failure_statuses_and_messages() {
    assert_eq!(Failure::StaticNotFound.status_code(), 404);
    assert_eq!(Failure::StaticNotFound.client_message(), "Not Found");
    assert_eq!(Failure::StaticIo.status_code(), 500);
    assert_eq!(Failure::StaticIo.client_message(), "Internal Server Error");
}
