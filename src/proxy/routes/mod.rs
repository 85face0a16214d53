pub mod filter;
pub mod map;
pub mod rules;
pub mod services;
pub mod util;

use std::sync::Arc;
use vstd::prelude::*;
use crate::{Error, ErrorView};
use crate::proxy::request::{Request, RequestView};
use self::rules::Rule;
use self::services::MakeService;

verus! {

/// A rule terminated by a service maker: the unit of dispatch. A routing table
/// is any value of this trait, typically alternatives of `Routed` leaves.
pub trait Route {
    type Service;

    spec fn spec_matches(&self, req: RequestView) -> bool;

    /// The request that `route` hands on, or the error it stops with.
    spec fn spec_route(&self, req: RequestView) -> Result<RequestView, ErrorView>;

    /// Whether `s` is a service that `route` may hand out for `req`: one made
    /// by the maker of the leaf that the request is dispatched to.
    spec fn spec_serves(&self, req: RequestView, s: Self::Service) -> bool;

    fn matches(&self, req: &Request) -> (r: bool)
        ensures
            r == self.spec_matches(req@),
    ;

    /// Rewrites a request that this route matches, and makes the service that
    /// will answer it. It may be called only on a request that `matches`
    /// accepted, so no rule of the table rewrites a request its route turned
    /// away.
    fn route(&self, req: Request) -> (r: Result<(Request, Self::Service), Error>)
        requires
            self.spec_matches(req@),
        ensures
            routed(r) == self.spec_route(req@),
            r matches Ok((_, s)) ==> self.spec_serves(req@, s),
    ;
}

/// The rewritten request of a routing decision, or its error.
pub open spec fn routed<S>(r: Result<(Request, S), Error>) -> Result<RequestView, ErrorView> {
    match r {
        Ok((q, _)) => Ok(q@),
        Err(e) => Err(e@),
    }
}

/// The leaf of a routing table: a rule and the maker of the service that
/// answers what the rule lets through.
pub struct Routed<R: Rule, I: MakeService> {
    pub rule: R,
    pub inner: I,
}

pub fn make_route<R: Rule, I: MakeService>(rule: R, inner: I) -> (r: Routed<R, I>)
    ensures
        r.rule == rule,
        r.inner == inner,
{
    Routed { rule, inner }
}

impl<R: Rule, I: MakeService> Route for Routed<R, I> {
    type Service = I::Service;

    open spec fn spec_matches(&self, req: RequestView) -> bool {
        self.rule.spec_matches(req)
    }

    open spec fn spec_route(&self, req: RequestView) -> Result<RequestView, ErrorView> {
        self.rule.spec_map(req)
    }

    open spec fn spec_serves(&self, req: RequestView, s: Self::Service) -> bool {
        self.inner.made(s)
    }

    fn matches(&self, req: &Request) -> (r: bool) {
        self.rule.matches(req)
    }

    fn route(&self, req: Request) -> (r: Result<(Request, Self::Service), Error>) {
        match self.rule.map(req) {
            Ok(mapped) => Ok((mapped, self.inner.make())),
            Err(e) => Err(e),
        }
    }
}

/// A shared routing table routes as the table it points to.
impl<T: Route> Route for Arc<T> {
    type Service = T::Service;

    open spec fn spec_matches(&self, req: RequestView) -> bool {
        (**self).spec_matches(req)
    }

    open spec fn spec_route(&self, req: RequestView) -> Result<RequestView, ErrorView> {
        (**self).spec_route(req)
    }

    open spec fn spec_serves(&self, req: RequestView, s: Self::Service) -> bool {
        (**self).spec_serves(req, s)
    }

    fn matches(&self, req: &Request) -> (r: bool) {
        (**self).matches(req)
    }

    fn route(&self, req: Request) -> (r: Result<(Request, Self::Service), Error>) {
        (**self).route(req)
    }
}

} // verus!
pub mod laws;
