use vstd::prelude::*;
use vstd::string::{is_ascii, is_ascii_spec_bytes, StringSliceAdditionalSpecFns};
use crate::proxy::forward::{decision, no_match_view, no_route_reason, DispatchView};
use crate::proxy::request::{decimal, header_value, lemma_set_header, lower, same_name, starts_with, RequestView};
use super::map::{forwarded_headers, AddForwardHeaders, AddPrefix, RequestMap, ResolveUri, StripPath};
use super::rules::{JustMap, Rule};
use super::util::{Alternatives, Stack};
use super::Route;

verus! {

/// The four forwarding header names are told apart, in any case.
pub proof fn lemma_forward_names_distinct()
    ensures
        !same_name("x-forwarded-proto".spec_bytes(), "x-forwarded-port".spec_bytes()),
        !same_name("x-forwarded-proto".spec_bytes(), "x-forwarded-for".spec_bytes()),
        !same_name("x-forwarded-proto".spec_bytes(), "x-forwarded-host".spec_bytes()),
        !same_name("x-forwarded-port".spec_bytes(), "x-forwarded-for".spec_bytes()),
        !same_name("x-forwarded-port".spec_bytes(), "x-forwarded-host".spec_bytes()),
        !same_name("x-forwarded-for".spec_bytes(), "x-forwarded-host".spec_bytes()),
{
    reveal_strlit("x-forwarded-proto");
    reveal_strlit("x-forwarded-port");
    reveal_strlit("x-forwarded-for");
    reveal_strlit("x-forwarded-host");
    assert(is_ascii("x-forwarded-proto"));
    assert(is_ascii("x-forwarded-port"));
    assert(is_ascii("x-forwarded-for"));
    assert(is_ascii("x-forwarded-host"));
    is_ascii_spec_bytes("x-forwarded-proto");
    is_ascii_spec_bytes("x-forwarded-port");
    is_ascii_spec_bytes("x-forwarded-for");
    is_ascii_spec_bytes("x-forwarded-host");
    assert(lower("x-forwarded-proto".spec_bytes()).len() == 17);
    assert(lower("x-forwarded-port".spec_bytes()).len() == 16);
    assert(lower("x-forwarded-for".spec_bytes()).len() == 15);
    assert(lower("x-forwarded-host".spec_bytes()).len() == 16);
    assert(lower("x-forwarded-port".spec_bytes())[12] != lower("x-forwarded-host".spec_bytes())[12]);
}

/// A request that the routing table does not match is answered with the
/// canonical "no matching route" 404, whatever else the table holds.
pub proof fn lemma_unmatched_gets_no_match<R: Route>(routes: R, req: RequestView)
    requires
        !routes.spec_matches(req),
    ensures
        decision(routes, req) == DispatchView::Respond(no_match_view(no_route_reason())),
{
}

/// A stack matches exactly when both of its rules match, and then maps as the
/// second rule applied to what the first produced.
pub proof fn lemma_stack<A: Rule, B: Rule>(s: Stack<A, B>, req: RequestView)
    ensures
        s.spec_matches(req) == (s.a.spec_matches(req) && s.b.spec_matches(req)),
        s.spec_map(req) == match s.a.spec_map(req) {
            Ok(m) => s.b.spec_map(m),
            Err(e) => Err(e),
        },
{
}

/// When the first alternative matches, it is the one that maps the request,
/// whatever the second one would do.
pub proof fn lemma_alternatives_greedy_rule<A: Rule, B: Rule>(alt: Alternatives<A, B>, req: RequestView)
    requires
        alt.a.spec_matches(req),
    ensures
        alt.spec_matches(req),
        alt.spec_map(req) == alt.a.spec_map(req),
{
}

/// When the first route matches, it is the one that the request is
/// dispatched to, whatever the second one would do.
pub proof fn lemma_alternatives_greedy_route<A: Route, B: Route<Service = A::Service>>(
    alt: Alternatives<A, B>,
    req: RequestView,
)
    requires
        alt.a.spec_matches(req),
    ensures
        alt.spec_matches(req),
        alt.spec_route(req) == alt.a.spec_route(req),
        forall|s: A::Service| alt.spec_serves(req, s) == alt.a.spec_serves(req, s),
{
}

/// When the first route does not match, the request is dispatched as the
/// second route would dispatch it.
pub proof fn lemma_alternatives_fall_through<A: Route, B: Route<Service = A::Service>>(
    alt: Alternatives<A, B>,
    req: RequestView,
)
    requires
        !alt.a.spec_matches(req),
    ensures
        alt.spec_matches(req) == alt.b.spec_matches(req),
        alt.spec_route(req) == alt.b.spec_route(req),
        forall|s: A::Service| alt.spec_serves(req, s) == alt.b.spec_serves(req, s),
{
}

/// Resolving a target twice gives what resolving it once gave.
pub proof fn lemma_resolve_uri_idempotent(m: ResolveUri, req: RequestView)
    ensures
        match m.result(req) {
            Ok(once) => m.result(once) == Ok::<RequestView, crate::ErrorView>(once),
            Err(_) => true,
        },
{
}

/// Stripping a prefix that the path has and then putting it back gives the
/// request that came in.
pub proof fn lemma_strip_then_add_prefix(s: Stack<JustMap<StripPath>, JustMap<AddPrefix>>, req: RequestView)
    requires
        !s.a.map.permissive,
        s.a.map.prefix@ == s.b.map.prefix@,
        starts_with(req.uri.path, s.a.map.prefix@),
    ensures
        s.spec_map(req) == Ok::<RequestView, crate::ErrorView>(req),
{
    let p = s.a.map.prefix@;
    let path = req.uri.path;
    assert(p + path.subrange(p.len() as int, path.len() as int) =~= path);
    let mapped = s.a.spec_map(req);
    assert(mapped matches Ok(m) && s.b.spec_map(m) == Ok::<RequestView, crate::ErrorView>(req));
}

/// Adding forwarding headers always sets the protocol and the port, and sets
/// `X-Forwarded-For` to the peer's address exactly when the peer is known (on
/// requests that did not bring that header along).
pub proof fn lemma_forward_headers(m: AddForwardHeaders, req: RequestView)
    ensures
        m.result(req) is Ok,
        header_value(forwarded_headers(req, m.proto@, m.port), "x-forwarded-proto".spec_bytes()) == Some(m.proto@),
        header_value(forwarded_headers(req, m.proto@, m.port), "x-forwarded-port".spec_bytes()) == Some(decimal(m.port as nat)),
        match req.peer {
            Some(p) => header_value(forwarded_headers(req, m.proto@, m.port), "x-forwarded-for".spec_bytes()) == Some(p.ip),
            None => header_value(forwarded_headers(req, m.proto@, m.port), "x-forwarded-for".spec_bytes()) == header_value(req.headers, "x-forwarded-for".spec_bytes()),
        },
        header_value(req.headers, "x-forwarded-for".spec_bytes()) is None ==> (header_value(
            forwarded_headers(req, m.proto@, m.port),
            "x-forwarded-for".spec_bytes(),
        ) is Some <==> req.peer is Some),
{
    lemma_forward_names_distinct();
    let proto_name = "x-forwarded-proto".spec_bytes();
    let port_name = "x-forwarded-port".spec_bytes();
    let for_name = "x-forwarded-for".spec_bytes();
    let host_name = "x-forwarded-host".spec_bytes();
    let h1 = crate::proxy::request::set_header_spec(req.headers, proto_name, m.proto@);
    let h2 = crate::proxy::request::set_header_spec(h1, port_name, decimal(m.port as nat));
    let h3 = match req.peer {
        Some(p) => crate::proxy::request::set_header_spec(h2, for_name, p.ip),
        None => h2,
    };
    let names = seq![proto_name, port_name, for_name];
    assert forall|k: int| 0 <= k < 3 implies header_value(forwarded_headers(req, m.proto@, m.port), #[trigger] names[k]) == header_value(h3, names[k]) by {
        match req.uri.authority {
            Some(a) => lemma_set_header(h3, host_name, crate::proxy::request::authority_host(a), names[k]),
            None => match header_value(req.headers, "host".spec_bytes()) {
                Some(h) => lemma_set_header(h3, host_name, h, names[k]),
                None => {},
            },
        }
    }
    lemma_set_header(req.headers, proto_name, m.proto@, proto_name);
    lemma_set_header(req.headers, proto_name, m.proto@, for_name);
    lemma_set_header(h1, port_name, decimal(m.port as nat), proto_name);
    lemma_set_header(h1, port_name, decimal(m.port as nat), port_name);
    lemma_set_header(h1, port_name, decimal(m.port as nat), for_name);
    match req.peer {
        Some(p) => {
            lemma_set_header(h2, for_name, p.ip, proto_name);
            lemma_set_header(h2, for_name, p.ip, port_name);
            lemma_set_header(h2, for_name, p.ip, for_name);
        },
        None => {},
    }
    assert(names[0] == proto_name);
    assert(names[1] == port_name);
    assert(names[2] == for_name);
}

} // verus!
