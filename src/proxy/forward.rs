use vstd::prelude::*;
use vstd::string::StringSliceAdditionalSpecFns;
use crate::{Error, ErrorView};
use crate::proxy::request::{bytes_of, concat, Peer, PeerView, Request, RequestView, Response, ResponseView};
use hyper::Error as HyperError;
use super::routes::Route;

verus! {

/// The bytes `No match: ` that open the body of every rejection.
pub open spec fn no_match_prefix() -> Seq<u8> {
    "No match: ".spec_bytes()
}

/// The 404 that tells the client why no route took its request.
pub open spec fn no_match_view(reason: Seq<u8>) -> ResponseView {
    ResponseView { status: 404, body: no_match_prefix() + reason + "\n".spec_bytes() }
}

/// The 502 sent back when the upstream refuses the connection.
pub open spec fn bad_gateway_view() -> ResponseView {
    ResponseView {
        status: 502,
        body: "Bad Gateway\n".spec_bytes(),
    }
}

/// The reason given when no route matches a request.
pub open spec fn no_route_reason() -> Seq<u8> {
    "no matching route".spec_bytes()
}

/// Builds the 404 response of a rejection: `No match: <reason>` and a newline.
pub fn no_match(reason: &str) -> (r: Response)
    ensures
        r@ == no_match_view(reason.spec_bytes()),
{
    let prefix = bytes_of("No match: ");
    let reason_bytes = bytes_of(reason);
    let head = concat(&prefix, &reason_bytes);
    let newline = bytes_of("\n");
    let body = concat(&head, &newline);
    Response { status: 404, body }
}

/// Builds the 502 response sent when the upstream cannot be reached.
pub fn bad_gateway() -> (r: Response)
    ensures
        r@ == bad_gateway_view(),
{
    let body = bytes_of("Bad Gateway\n");
    Response { status: 502, body }
}

/// The upstream client's error type, carried through unopened.
#[verifier::external_type_specification]
#[verifier::external_body]
pub struct ExHyperError(HyperError);

/// Whether an upstream error arose while connecting; it depends on the
/// error's kind alone.
pub uninterp spec fn connect_kind(e: HyperError) -> bool;

/// Relies on hyper::Error::is_connect: whether the error arose while
/// connecting to the upstream. It reads only the error's kind.
pub assume_specification[ HyperError::is_connect ](e: &HyperError) -> (r: bool)
    ensures
        r == connect_kind(*e),
;

/// What answers the client after an upstream exchange.
pub enum Reply<T> {
    /// The upstream's own response, passed through.
    Upstream(T),
    /// A response made here.
    Local(Response),
}

/// The response that stands in for a failed upstream exchange: a failure to
/// connect becomes a 502; any other failure has none and stays an error.
pub fn connect_failure_response(is_connect: bool) -> (r: Option<Response>)
    ensures
        is_connect == (r is Some),
        r matches Some(resp) ==> resp@ == bad_gateway_view(),
{
    if is_connect {
        Some(bad_gateway())
    } else {
        None
    }
}

/// Folds a failure to connect to the upstream into a 502 response; a response
/// passes through and other failures stay errors.
pub fn map_connection_refused_to_bad_gateway<T>(res: Result<T, HyperError>) -> (r: Result<Reply<T>, HyperError>)
    ensures
        match res {
            Ok(t) => r == Ok::<Reply<T>, HyperError>(Reply::Upstream(t)),
            Err(e) => if connect_kind(e) {
                r matches Ok(Reply::Local(resp)) && resp@ == bad_gateway_view()
            } else {
                r == Err::<Reply<T>, HyperError>(e)
            },
        },
{
    match res {
        Ok(t) => Ok(Reply::Upstream(t)),
        Err(e) => match connect_failure_response(e.is_connect()) {
            Some(resp) => Ok(Reply::Local(resp)),
            None => Err(e),
        },
    }
}

/// What the connection task does with one request.
pub enum Dispatch<S> {
    /// Send this response back.
    Respond(Response),
    /// Call the service on the rewritten request.
    Forward(Request, S),
    /// Give up on the request.
    Fail(Error),
}

pub enum DispatchView {
    Respond(ResponseView),
    Forward(RequestView),
    Fail(ErrorView),
}

pub open spec fn dispatch_view<S>(d: Dispatch<S>) -> DispatchView {
    match d {
        Dispatch::Respond(r) => DispatchView::Respond(r@),
        Dispatch::Forward(q, _) => DispatchView::Forward(q@),
        Dispatch::Fail(e) => DispatchView::Fail(e@),
    }
}

/// The request with the peer address attached.
pub open spec fn with_peer(req: RequestView, peer: Option<PeerView>) -> RequestView {
    RequestView { peer, ..req }
}

pub open spec fn peer_view(peer: Option<Peer>) -> Option<PeerView> {
    match peer {
        Some(p) => Some(p@),
        None => None,
    }
}

/// The decision for a request that already carries its peer address: no match
/// gives the canonical 404, a rejection gives its prepared response, and a
/// routed request goes to its service.
pub open spec fn decision<R: Route>(routes: R, req: RequestView) -> DispatchView {
    if !routes.spec_matches(req) {
        DispatchView::Respond(no_match_view(no_route_reason()))
    } else {
        match routes.spec_route(req) {
            Ok(m) => DispatchView::Forward(m),
            Err(ErrorView::Rejected(resp)) => DispatchView::Respond(resp),
            Err(e) => DispatchView::Fail(e),
        }
    }
}

/// Takes one inbound request through the routing table: attaches the peer
/// address, asks the table whether it matches, and routes it only if it does.
pub fn handle<R: Route>(routes: &R, req: Request, peer: Option<Peer>) -> (d: Dispatch<R::Service>)
    ensures
        dispatch_view(d) == decision(*routes, with_peer(req@, peer_view(peer))),
        d matches Dispatch::Forward(_, s) ==> routes.spec_serves(with_peer(req@, peer_view(peer)), s),
{
    let ghost incoming = req@;
    let mut req = req;
    req.peer = peer;
    assert(req@ == with_peer(incoming, peer_view(peer)));
    if !routes.matches(&req) {
        return Dispatch::Respond(no_match("no matching route"));
    }
    match routes.route(req) {
        Ok((mapped, service)) => Dispatch::Forward(mapped, service),
        Err(Error::Rejected(resp)) => Dispatch::Respond(resp),
        Err(e) => Dispatch::Fail(e),
    }
}

} // verus!
