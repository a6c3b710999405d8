use proxy_core::Config;
use proxy_core::model::ForwardRequest;
use proxy_core::model::HeaderEntry;
use proxy_core::model::LocalResponse;
use proxy_core::model::Method;
use proxy_core::model::ProxyResponse;
use proxy_core::model::RequestHead;
use proxy_core::model::ResponseHead;
use proxy_core::model::RouteDecision;
use proxy_core::model::UpstreamOutcome;
use proxy_core::pipeline::route_request;
use proxy_core::pipeline::upstream_to_proxy_response;

fn test_config() -> Config {
    Config {
        target: "http://upstream:9000".to_string(),
        port: 8080,
        blocked_folders: vec!["private".to_string()],
    }
}

fn header(name: &str, value: &str) -> HeaderEntry {
    HeaderEntry { name: name.to_string(), value: value.as_bytes().to_vec() }
}

fn get_request(path: &str, pq: &str, headers: Vec<HeaderEntry>) -> RequestHead {
    RequestHead {
        method: Method::Get,
        path: path.to_string(),
        path_and_query: Some(pq.to_string()),
        headers,
    }
}

#[test]
fn blocked_path_gets_403_and_is_not_forwarded() {
    let req = get_request("/private/secret.txt", "/private/secret.txt", vec![]);
    match route_request(req, &test_config()) {
        RouteDecision::Respond(LocalResponse { status, body }) => {
            assert_eq!(status, 403);
            assert_eq!(body, "Access to this folder is forbidden");
        }
        RouteDecision::Forward(_) => panic!("blocked path was forwarded"),
    }
}

#[test]
fn blocked_path_wins_over_disallowed_method() {
    let mut req = get_request("/private", "/private", vec![]);
    req.method = Method::Delete;
    match route_request(req, &test_config()) {
        RouteDecision::Respond(LocalResponse { status, .. }) => assert_eq!(status, 403),
        RouteDecision::Forward(_) => panic!("blocked path was forwarded"),
    }
}

#[test]
fn put_delete_patch_get_405_and_are_not_forwarded() {
    for method in [Method::Put, Method::Delete, Method::Patch] {
        let mut req = get_request("/public", "/public", vec![]);
        req.method = method;
        match route_request(req, &test_config()) {
            RouteDecision::Respond(LocalResponse { status, body }) => {
                assert_eq!(status, 405);
                assert_eq!(body, "method not allowed (we only use get and post.)");
            }
            RouteDecision::Forward(_) => panic!("disallowed method was forwarded"),
        }
    }
}

#[test]
fn get_to_open_path_is_forwarded_with_rewritten_uri() {
    let req = get_request("/public", "/public?q=1", vec![]);
    match route_request(req, &test_config()) {
        RouteDecision::Forward(ForwardRequest { method, uri, headers }) => {
            assert_eq!(method, Method::Get);
            assert_eq!(uri, "http://upstream:9000/public?q=1");
            assert!(headers.is_empty());
        }
        RouteDecision::Respond(_) => panic!("open GET was not forwarded"),
    }
}

#[test]
fn post_is_forwarded_too() {
    let mut req = get_request("/items", "/items", vec![]);
    req.method = Method::Post;
    match route_request(req, &test_config()) {
        RouteDecision::Forward(ForwardRequest { method, .. }) => assert_eq!(method, Method::Post),
        RouteDecision::Respond(_) => panic!("POST was not forwarded"),
    }
}

#[test]
fn missing_path_and_query_defaults_to_slash() {
    let mut req = get_request("", "", vec![]);
    req.path_and_query = None;
    match route_request(req, &test_config()) {
        RouteDecision::Forward(ForwardRequest { uri, .. }) => {
            assert_eq!(uri, "http://upstream:9000/");
        }
        RouteDecision::Respond(_) => panic!("open GET was not forwarded"),
    }
}

#[test]
fn inbound_headers_are_copied_verbatim_in_order() {
    let headers = vec![
        header("host", "example.com"),
        header("x-test", "abc"),
        header("accept", "*/*"),
        header("x-test", "second"),
    ];
    let req = get_request("/public", "/public", headers.clone());
    match route_request(req, &test_config()) {
        RouteDecision::Forward(ForwardRequest { headers: out, .. }) => assert_eq!(out, headers),
        RouteDecision::Respond(_) => panic!("open GET was not forwarded"),
    }
}

#[test]
fn transport_failure_becomes_502_bad_gateway() {
    match upstream_to_proxy_response(UpstreamOutcome::TransportFailure) {
        ProxyResponse::Local(LocalResponse { status, body }) => {
            assert_eq!(status, 502);
            assert_eq!(body, "Bad Gateway");
        }
        ProxyResponse::Forwarded(_) => panic!("transport failure forwarded a response"),
    }
}

#[test]
fn plain_text_content_type_is_rewritten_to_utf8() {
    let upstream = ResponseHead { status: 200, headers: vec![header("content-type", "text/plain")] };
    match upstream_to_proxy_response(UpstreamOutcome::Response(upstream)) {
        ProxyResponse::Forwarded(ResponseHead { status, headers }) => {
            assert_eq!(status, 200);
            assert_eq!(headers, vec![header("content-type", "text/plain; charset=utf-8")]);
        }
        ProxyResponse::Local(_) => panic!("upstream response was replaced"),
    }
}

#[test]
fn existing_charset_parameter_is_discarded() {
    let upstream = ResponseHead {
        status: 200,
        headers: vec![header("content-type", "text/plain; charset=iso-8859-1")],
    };
    match upstream_to_proxy_response(UpstreamOutcome::Response(upstream)) {
        ProxyResponse::Forwarded(ResponseHead { headers, .. }) => {
            assert_eq!(headers, vec![header("content-type", "text/plain; charset=utf-8")]);
        }
        ProxyResponse::Local(_) => panic!("upstream response was replaced"),
    }
}

#[test]
fn other_content_types_pass_through_unchanged() {
    for value in ["text/html", "application/json", "Text/Plain", "text/plai"] {
        let upstream = ResponseHead { status: 200, headers: vec![header("content-type", value)] };
        match upstream_to_proxy_response(UpstreamOutcome::Response(upstream)) {
            ProxyResponse::Forwarded(ResponseHead { headers, .. }) => {
                assert_eq!(headers, vec![header("content-type", value)]);
            }
            ProxyResponse::Local(_) => panic!("upstream response was replaced"),
        }
    }
}

#[test]
fn missing_content_type_passes_through_unchanged() {
    let upstream = ResponseHead {
        status: 204,
        headers: vec![header("x-extra", "1"), header("server", "demo")],
    };
    match upstream_to_proxy_response(UpstreamOutcome::Response(upstream.clone())) {
        ProxyResponse::Forwarded(head) => assert_eq!(head, upstream),
        ProxyResponse::Local(_) => panic!("upstream response was replaced"),
    }
}

#[test]
fn status_and_other_headers_survive_the_rewrite() {
    let upstream = ResponseHead {
        status: 418,
        headers: vec![
            header("server", "demo"),
            header("content-type", "text/plain; version=2"),
            header("x-extra", "kept"),
        ],
    };
    match upstream_to_proxy_response(UpstreamOutcome::Response(upstream)) {
        ProxyResponse::Forwarded(ResponseHead { status, headers }) => {
            assert_eq!(status, 418);
            assert_eq!(
                headers,
                vec![
                    header("server", "demo"),
                    header("content-type", "text/plain; charset=utf-8"),
                    header("x-extra", "kept"),
                ]
            );
        }
        ProxyResponse::Local(_) => panic!("upstream response was replaced"),
    }
}

#[test]
fn identical_requests_get_identical_decisions() {
    let config = test_config();
    let req = get_request("/public", "/public?q=1", vec![header("x-test", "abc")]);
    let first = route_request(req.clone(), &config);
    let second = route_request(req, &config);
    assert_eq!(first, second);

    let upstream = ResponseHead { status: 200, headers: vec![header("content-type", "text/plain")] };
    let a = upstream_to_proxy_response(UpstreamOutcome::Response(upstream.clone()));
    let b = upstream_to_proxy_response(UpstreamOutcome::Response(upstream));
    assert_eq!(a, b);
}

#[test]
fn default_config_matches_the_example_file() {
    let config = Config::default();
    assert_eq!(config.target, "http://localhost:8000");
    assert_eq!(config.port, 8080);
    assert_eq!(config.blocked_folders, vec!["private".to_string()]);
}
