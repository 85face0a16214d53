use std::sync::Arc;

use doorbell::proxy::forward::{
    bad_gateway, connect_failure_response, handle, map_connection_refused_to_bad_gateway, no_match,
    Dispatch, Reply,
};
use doorbell::proxy::request::{split_authority, target_of, Header, Peer, Request, Response, Uri};
use doorbell::proxy::routes::filter::{by_header, by_host, by_path, has_header, ByPath};
use doorbell::proxy::routes::make_route;
use doorbell::proxy::routes::map::{
    add_forward_headers, add_header, add_prefix, AddPrefix, resolve_uri, return_early, set_header, set_host,
    set_port, set_scheme, strip_path,
};
use doorbell::proxy::routes::rules::{JustFilter, JustMap, Rule};
use doorbell::proxy::routes::services::MakeService;
use doorbell::proxy::routes::util::{change_path_prefix, either, stack, Stack};
use doorbell::proxy::routes::Route;
use doorbell::proxy::{ListenAddr, Proxy};
use doorbell::Error;

struct Upstream(u8);

impl MakeService for Upstream {
    type Service = u8;

    fn make(&self) -> u8 {
        self.0
    }
}

fn request(path: &str, headers: &[(&str, &str)]) -> Request {
    Request {
        method: b"GET".to_vec(),
        uri: Uri { scheme: None, authority: None, path: path.as_bytes().to_vec(), query: None },
        headers: headers
            .iter()
            .map(|(n, v)| Header { name: n.as_bytes().to_vec(), value: v.as_bytes().to_vec() })
            .collect(),
        peer: None,
    }
}

fn absolute(scheme: &str, host: &str, path: &str) -> Request {
    let mut r = request(path, &[]);
    r.uri.scheme = Some(scheme.as_bytes().to_vec());
    r.uri.authority = Some(host.as_bytes().to_vec());
    r
}

fn header<'a>(r: &'a Request, name: &str) -> Option<&'a [u8]> {
    r.headers.iter().find(|h| h.name == name.as_bytes()).map(|h| h.value.as_slice())
}

fn rejected_body(e: Error) -> Vec<u8> {
    match e {
        Error::Rejected(resp) => {
            assert_eq!(resp.status, 404);
            resp.body
        },
        Error::Upstream(_) => panic!("expected a rejection"),
    }
}

fn forwarded<S>(d: Dispatch<S>) -> (Request, S) {
    match d {
        Dispatch::Forward(r, s) => (r, s),
        _ => panic!("expected the request to be forwarded"),
    }
}

fn responded<S>(d: Dispatch<S>) -> Response {
    match d {
        Dispatch::Respond(r) => r,
        _ => panic!("expected a response"),
    }
}

#[test]
fn no_match_body_names_reason() {
    let r = no_match("because");
    assert_eq!(r.status, 404);
    assert_eq!(r.body, b"No match: because\n".to_vec());
}

#[test]
fn bad_gateway_response() {
    let r = bad_gateway();
    assert_eq!(r.status, 502);
    assert_eq!(r.body, b"Bad Gateway\n".to_vec());
}

#[test]
fn upstream_down_gives_bad_gateway() {
    let rt = tokio::runtime::Builder::new_current_thread().enable_all().build().unwrap();
    let res = rt.block_on(async {
        let client: hyper::Client<hyper::client::HttpConnector, hyper::Body> = hyper::Client::new();
        let req = hyper::Request::get("http://127.0.0.1:1/").body(hyper::Body::empty()).unwrap();
        client.request(req).await
    });
    match map_connection_refused_to_bad_gateway(res) {
        Ok(Reply::Local(r)) => {
            assert_eq!(r.status, 502);
            assert_eq!(r.body, b"Bad Gateway\n".to_vec());
        },
        _ => panic!("expected a local 502"),
    }
}

#[test]
fn upstream_response_passes_through() {
    match map_connection_refused_to_bad_gateway::<u8>(Ok(7)) {
        Ok(Reply::Upstream(7)) => {},
        _ => panic!("expected the upstream response"),
    }
}

#[test]
fn connect_failure_is_bad_gateway() {
    let r = connect_failure_response(true).unwrap();
    assert_eq!(r.status, 502);
    assert_eq!(r.body, b"Bad Gateway\n".to_vec());
    assert!(connect_failure_response(false).is_none());
}

#[test]
fn strip_prefix_and_forward() {
    let rules = stack(resolve_uri("https"), stack(by_path("/test/"), strip_path("/test/", false)))
        .extend(set_host("127.0.0.1"))
        .extend(set_port(8081))
        .extend(set_scheme("http"));
    let routes = make_route(rules, Upstream(1));
    let d = handle(&routes, request("/test/abc", &[("host", "example")]), None);
    let (r, svc) = forwarded(d);
    assert_eq!(svc, 1);
    assert_eq!(r.uri.path, b"abc".to_vec());
    assert_eq!(target_of(&r.uri), b"http://127.0.0.1:8081/abc".to_vec());
    assert_eq!(r.uri.authority, Some(b"127.0.0.1:8081".to_vec()));
    assert_eq!(r.uri.scheme, Some(b"http".to_vec()));
}

#[test]
fn prefix_rewrite() {
    let routes = make_route(change_path_prefix("/hello", "/world"), Upstream(1));
    let (r, _) = forwarded(handle(&routes, request("/hello/x", &[]), None));
    assert_eq!(r.uri.path, b"/world/x".to_vec());
    let resp = responded(handle(&routes, request("/other", &[]), None));
    assert_eq!(resp.status, 404);
    assert_eq!(resp.body, b"No match: no matching route\n".to_vec());
}

#[test]
fn greedy_alternation() {
    let table = either(make_route(by_path("/a"), Upstream(1)), make_route(by_path("/"), Upstream(2)));
    let (_, svc) = forwarded(handle(&table, request("/a/x", &[]), None));
    assert_eq!(svc, 1);
    let (_, svc) = forwarded(handle(&table, request("/b", &[]), None));
    assert_eq!(svc, 2);
    let resp = responded(handle(&table, request("x", &[]), None));
    assert_eq!(resp.body, b"No match: no matching route\n".to_vec());
}

#[test]
fn greedy_alternation_of_rules() {
    let alt = either(change_path_prefix("/a", "/one"), change_path_prefix("/", "/two"));
    let r = alt.map(request("/a/x", &[])).ok().unwrap();
    assert_eq!(r.uri.path, b"/one/x".to_vec());
    let r = alt.map(request("/b", &[])).ok().unwrap();
    assert_eq!(r.uri.path, b"/twob".to_vec());
}

#[test]
fn missing_host() {
    let routes = make_route(resolve_uri("https"), Upstream(1));
    let resp = responded(handle(&routes, request("/x", &[]), None));
    assert_eq!(resp.status, 404);
    assert_eq!(resp.body, b"No match: ResolveUri: no host header\n".to_vec());
}

#[test]
fn non_utf8_host_is_missing() {
    let mut req = request("/x", &[]);
    req.headers.push(Header { name: b"host".to_vec(), value: vec![0xff, 0x41] });
    let e = resolve_uri("https").map(req).err().unwrap();
    assert_eq!(rejected_body(e), b"No match: ResolveUri: no host header\n".to_vec());
}

#[test]
fn forwarding_headers() {
    let rules = stack(resolve_uri("https"), add_forward_headers("https", 3001));
    let routes = make_route(rules, Upstream(1));
    let peer = Peer { ip: b"10.0.0.5".to_vec(), port: 4444 };
    let (r, _) = forwarded(handle(&routes, request("/x", &[("host", "example.com")]), Some(peer)));
    assert_eq!(header(&r, "x-forwarded-for"), Some(&b"10.0.0.5"[..]));
    assert_eq!(header(&r, "x-forwarded-proto"), Some(&b"https"[..]));
    assert_eq!(header(&r, "x-forwarded-port"), Some(&b"3001"[..]));
    assert_eq!(header(&r, "x-forwarded-host"), Some(&b"example.com"[..]));
    assert_eq!(r.peer.unwrap().port, 4444);
}

#[test]
fn forwarding_headers_without_peer() {
    let r = add_forward_headers("http", 80).map(request("/x", &[])).ok().unwrap();
    assert_eq!(header(&r, "x-forwarded-for"), None);
    assert_eq!(header(&r, "x-forwarded-host"), None);
    assert_eq!(header(&r, "x-forwarded-proto"), Some(&b"http"[..]));
    assert_eq!(header(&r, "x-forwarded-port"), Some(&b"80"[..]));
}

#[test]
fn forwarded_host_prefers_uri_host() {
    let mut req = absolute("https", "upstream.test:8443", "/x");
    req.headers.push(Header { name: b"host".to_vec(), value: b"client.test".to_vec() });
    let r = add_forward_headers("https", 443).map(req).ok().unwrap();
    assert_eq!(header(&r, "x-forwarded-host"), Some(&b"upstream.test"[..]));
}

#[test]
fn resolve_uri_twice_is_once() {
    let m = resolve_uri("https");
    let once = m.map(request("/p", &[("host", "example.com:8080")])).ok().unwrap();
    assert_eq!(once.uri.scheme, Some(b"https".to_vec()));
    assert_eq!(once.uri.authority, Some(b"example.com:8080".to_vec()));
    let twice = m.map(request("/p", &[("host", "example.com:8080")])).ok().unwrap();
    let twice = m.map(twice).ok().unwrap();
    assert_eq!(twice.uri.scheme, once.uri.scheme);
    assert_eq!(twice.uri.authority, once.uri.authority);
    assert_eq!(twice.uri.path, once.uri.path);
}

#[test]
fn resolve_uri_keeps_absolute_target() {
    let r = resolve_uri("https").map(absolute("http", "a.test", "/z")).ok().unwrap();
    assert_eq!(r.uri.scheme, Some(b"http".to_vec()));
    assert_eq!(r.uri.authority, Some(b"a.test".to_vec()));
}

#[test]
fn request_targets() {
    let mut r = request("/a", &[]);
    assert_eq!(target_of(&r.uri), b"/a".to_vec());
    r.uri.query = Some(b"x=1".to_vec());
    assert_eq!(target_of(&r.uri), b"/a?x=1".to_vec());
    let r = absolute("https", "h.test", "");
    assert_eq!(target_of(&r.uri), b"https://h.test/".to_vec());
}

#[test]
fn authority_split() {
    assert_eq!(split_authority(&b"example.com:8080".to_vec()), (b"example.com".to_vec(), Some(8080)));
    assert_eq!(split_authority(&b"example.com".to_vec()), (b"example.com".to_vec(), None));
    assert_eq!(split_authority(&b"example.com:99999".to_vec()), (b"example.com:99999".to_vec(), None));
    assert_eq!(split_authority(&b"example.com:".to_vec()), (b"example.com:".to_vec(), None));
    assert_eq!(split_authority(&b"h:65535".to_vec()), (b"h".to_vec(), Some(65535)));
}

#[test]
fn strip_then_add_prefix_is_identity() {
    let s = stack(strip_path("/api", false), add_prefix("/api"));
    let r = s.map(request("/api/v1/x", &[])).ok().unwrap();
    assert_eq!(r.uri.path, b"/api/v1/x".to_vec());
}

#[test]
fn strip_path_strict_rejects() {
    let e = strip_path("/api", false).map(request("/other", &[])).err().unwrap();
    assert_eq!(rejected_body(e), b"No match: StripPath: path doesn't match prefix\n".to_vec());
}

#[test]
fn strip_path_permissive_passes() {
    let r = strip_path("/api", true).map(request("/other", &[])).ok().unwrap();
    assert_eq!(r.uri.path, b"/other".to_vec());
    let r = strip_path("/api", true).map(request("/api/x", &[])).ok().unwrap();
    assert_eq!(r.uri.path, b"/x".to_vec());
}

#[test]
fn stack_matches_both() {
    let s: Stack<_, _> = stack(by_path("/a"), has_header("X-Key"));
    assert!(s.matches(&request("/a", &[("x-key", "1")])));
    assert!(!s.matches(&request("/a", &[])));
    assert!(!s.matches(&request("/b", &[("x-key", "1")])));
}

#[test]
fn stack_stops_at_first_error() {
    let s = stack(strip_path("/a", false), add_prefix("/b"));
    let e = s.map(request("/c", &[])).err().unwrap();
    assert_eq!(rejected_body(e), b"No match: StripPath: path doesn't match prefix\n".to_vec());
}

#[test]
fn header_filters() {
    let f = by_header("X-Mode", "on");
    assert!(f.matches(&request("/", &[("x-mode", "on")])));
    assert!(!f.matches(&request("/", &[("x-mode", "off")])));
    assert!(!f.matches(&request("/", &[])));
    assert!(has_header("x-mode").matches(&request("/", &[("x-mode", "")])));
}

#[test]
fn host_filter() {
    let f = by_host("a.test");
    assert!(f.matches(&absolute("https", "a.test", "/")));
    assert!(!f.matches(&absolute("https", "b.test", "/")));
    assert!(!f.matches(&request("/", &[("host", "a.test")])));
}

#[test]
fn set_and_add_header() {
    let req = request("/", &[("x-a", "1"), ("x-b", "2"), ("x-a", "3")]);
    let r = set_header("X-A", "9").map(req).ok().unwrap();
    let values: Vec<&[u8]> = r.headers.iter().filter(|h| h.name == b"x-a").map(|h| h.value.as_slice()).collect();
    assert_eq!(values, vec![&b"9"[..]]);
    assert_eq!(header(&r, "x-b"), Some(&b"2"[..]));
    let r = add_header("x-b", "4").map(r).ok().unwrap();
    let values: Vec<&[u8]> = r.headers.iter().filter(|h| h.name == b"x-b").map(|h| h.value.as_slice()).collect();
    assert_eq!(values, vec![&b"2"[..], &b"4"[..]]);
}

#[test]
fn set_port_needs_absolute_target() {
    let e = set_port(80).map(request("/", &[])).err().unwrap();
    assert_eq!(rejected_body(e), b"No match: SetPort: cannot set port\n".to_vec());
    let r = set_port(9000).map(absolute("http", "h", "/")).ok().unwrap();
    assert_eq!(r.uri.authority, Some(b"h:9000".to_vec()));
    let r = set_port(9001).map(absolute("http", "h:80", "/")).ok().unwrap();
    assert_eq!(r.uri.authority, Some(b"h:9001".to_vec()));
    let e = set_port(80).map(absolute("file", "h", "/")).err().unwrap();
    assert_eq!(rejected_body(e), b"No match: SetPort: cannot set port\n".to_vec());
}

#[test]
fn set_host_checks_host() {
    let e = set_host("bad host").map(absolute("http", "h", "/")).err().unwrap();
    assert_eq!(rejected_body(e), b"No match: SetHost: cannot set host\n".to_vec());
    let e = set_host("ok.test").map(request("/", &[])).err().unwrap();
    assert_eq!(rejected_body(e), b"No match: SetHost: cannot set host\n".to_vec());
    let r = set_host("ok.test").map(absolute("http", "h:81", "/")).ok().unwrap();
    assert_eq!(r.uri.authority, Some(b"ok.test:81".to_vec()));
    let r = set_host("[::1]").map(absolute("http", "h", "/")).ok().unwrap();
    assert_eq!(r.uri.authority, Some(b"[::1]".to_vec()));
}

#[test]
fn set_scheme_keeps_kind() {
    let r = set_scheme("HTTP").map(absolute("https", "h", "/")).ok().unwrap();
    assert_eq!(r.uri.scheme, Some(b"http".to_vec()));
    let e = set_scheme("foo").map(absolute("https", "h", "/")).err().unwrap();
    assert_eq!(rejected_body(e), b"No match: SetScheme: cannot set scheme\n".to_vec());
}

#[test]
fn return_early_modes() {
    let r = return_early(request("/x", &[]), true, "why").ok().unwrap();
    assert_eq!(r.uri.path, b"/x".to_vec());
    let e = return_early(request("/x", &[]), false, "why").err().unwrap();
    assert_eq!(rejected_body(e), b"No match: why\n".to_vec());
}

#[test]
fn rejection_is_returned_as_response() {
    let routes = make_route(strip_path("/a", false), Upstream(1));
    let resp = responded(handle(&routes, request("/b", &[]), None));
    assert_eq!(resp.body, b"No match: StripPath: path doesn't match prefix\n".to_vec());
}

#[test]
fn route_matches_as_rule() {
    let routes = make_route(by_path("/a"), Upstream(3));
    assert!(routes.matches(&request("/a/b", &[])));
    assert!(!routes.matches(&request("/b", &[])));
}

#[test]
fn proxy_builder_keeps_address() {
    let p = Proxy::on(ListenAddr { ip: [127, 0, 0, 1], port: 3001 })
        .http()
        .with_routes(make_route(by_path("/"), Upstream(1)));
    assert_eq!(p.on.port, 3001);
    assert_eq!(p.on.ip, [127, 0, 0, 1]);
}

#[test]
fn wrappers_from_filters_and_maps() {
    let f: JustFilter<ByPath> = ByPath { prefix: b"/p".to_vec() }.into();
    assert!(f.matches(&request("/p/q", &[])));
    assert!(!f.matches(&request("/q", &[])));
    let m: JustMap<AddPrefix> = AddPrefix { prefix: b"/v2".to_vec() }.into();
    assert!(m.matches(&request("/q", &[])));
    assert_eq!(m.map(request("/q", &[])).ok().unwrap().uri.path, b"/v2/q".to_vec());
}

#[test]
fn shared_rules_and_routes() {
    let rule = Arc::new(change_path_prefix("/a", "/b"));
    assert!(rule.matches(&request("/a/1", &[])));
    assert_eq!(rule.map(request("/a/1", &[])).ok().unwrap().uri.path, b"/b/1".to_vec());
    let table = Arc::new(make_route(by_path("/"), Upstream(5)));
    let (_, svc) = forwarded(handle(&table, request("/x", &[]), None));
    assert_eq!(svc, 5);
}

#[test]
fn header_names_ignore_case() {
    let r = set_header("X-Token", "t").map(request("/", &[("x-token", "old")])).ok().unwrap();
    assert_eq!(r.headers.len(), 1);
    assert_eq!(header(&r, "x-token"), Some(&b"t"[..]));
    assert!(by_header("X-TOKEN", "t").matches(&r));
}

#[test]
fn header_filter_takes_utf8() {
    let f = by_header("x-name", "é");
    assert!(f.matches(&request("/", &[("x-name", "é")])));
    let mut req = request("/", &[]);
    req.headers.push(Header { name: b"x-name".to_vec(), value: vec![0xc3] });
    assert!(!f.matches(&req));
}

#[test]
fn resolve_uri_keeps_host_value() {
    let r = resolve_uri("https").map(request("/x", &[("host", "a:08080")])).ok().unwrap();
    assert_eq!(r.uri.authority, Some(b"a:08080".to_vec()));
    assert_eq!(target_of(&r.uri), b"https://a:08080/x".to_vec());
}

#[test]
fn host_header_in_any_case() {
    let r = resolve_uri("https").map(request("/x", &[("Host", "example.com")])).ok().unwrap();
    assert_eq!(r.uri.authority, Some(b"example.com".to_vec()));
    assert!(has_header("host").matches(&request("/", &[("HOST", "x")])));
}
