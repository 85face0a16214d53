use std::sync::Arc;
use vstd::prelude::*;
use crate::{outcome, Error, ErrorView};
use crate::proxy::request::{Request, RequestView};
use super::filter::Filter;
use super::map::RequestMap;

verus! {

/// A predicate and a rewrite in one: the unit of composition. `map` is meant
/// for requests that `matches` let through.
pub trait Rule {
    spec fn spec_matches(&self, req: RequestView) -> bool;

    spec fn spec_map(&self, req: RequestView) -> Result<RequestView, ErrorView>;

    fn matches(&self, req: &Request) -> (r: bool)
        ensures
            r == self.spec_matches(req@),
    ;

    fn map(&self, req: Request) -> (r: Result<Request, Error>)
        ensures
            outcome(r) == self.spec_map(req@),
    ;
}

/// A filter used as a rule: it matches as the filter does and leaves the
/// request as it is.
pub struct JustFilter<F: Filter> {
    pub filter: F,
}

/// A map used as a rule: it matches every request and maps as the map does.
pub struct JustMap<M: RequestMap> {
    pub map: M,
}

impl<T: RequestMap> Rule for JustMap<T> {
    open spec fn spec_matches(&self, req: RequestView) -> bool {
        true
    }

    open spec fn spec_map(&self, req: RequestView) -> Result<RequestView, ErrorView> {
        self.map.result(req)
    }

    fn matches(&self, req: &Request) -> (r: bool) {
        true
    }

    fn map(&self, req: Request) -> (r: Result<Request, Error>) {
        self.map.apply(req)
    }
}

impl<T: Filter> Rule for JustFilter<T> {
    open spec fn spec_matches(&self, req: RequestView) -> bool {
        self.filter.passes(req)
    }

    open spec fn spec_map(&self, req: RequestView) -> Result<RequestView, ErrorView> {
        Ok(req)
    }

    fn matches(&self, req: &Request) -> (r: bool) {
        self.filter.matches(req)
    }

    fn map(&self, req: Request) -> (r: Result<Request, Error>) {
        Ok(req)
    }
}

impl<T: Filter> From<T> for JustFilter<T> {
    fn from(filter: T) -> (r: Self)
        ensures
            r.filter == filter,
    {
        Self { filter }
    }
}

impl<T: Filter> vstd::std_specs::convert::FromSpecImpl<T> for JustFilter<T> {
    open spec fn obeys_from_spec() -> bool {
        true
    }

    open spec fn from_spec(v: T) -> Self {
        JustFilter { filter: v }
    }
}

impl<T: RequestMap> From<T> for JustMap<T> {
    fn from(map: T) -> (r: Self)
        ensures
            r.map == map,
    {
        Self { map }
    }
}

impl<T: RequestMap> vstd::std_specs::convert::FromSpecImpl<T> for JustMap<T> {
    open spec fn obeys_from_spec() -> bool {
        true
    }

    open spec fn from_spec(v: T) -> Self {
        JustMap { map: v }
    }
}

/// A shared rule behaves as the rule it points to.
impl<T: Rule> Rule for Arc<T> {
    open spec fn spec_matches(&self, req: RequestView) -> bool {
        (**self).spec_matches(req)
    }

    open spec fn spec_map(&self, req: RequestView) -> Result<RequestView, ErrorView> {
        (**self).spec_map(req)
    }

    fn matches(&self, req: &Request) -> (r: bool) {
        (**self).matches(req)
    }

    fn map(&self, req: Request) -> (r: Result<Request, Error>) {
        (**self).map(req)
    }
}

} // verus!
