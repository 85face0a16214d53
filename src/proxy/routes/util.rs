use vstd::prelude::*;
use crate::{Error, ErrorView};
use crate::proxy::request::{Request, RequestView};
use vstd::string::StringSliceAdditionalSpecFns;
use super::filter::{by_path, ByPath};
use super::map::{add_prefix, strip_path, AddPrefix, StripPath};
use super::rules::{JustFilter, JustMap, Rule};
use super::Route;

verus! {

pub fn stack<A, B>(first: A, second: B) -> (r: Stack<A, B>)
    ensures
        r.a == first,
        r.b == second,
{
    Stack { a: first, b: second }
}

pub fn either<A, B>(a: A, b: B) -> (r: Alternatives<A, B>)
    ensures
        r.a == a,
        r.b == b,
{
    Alternatives { a, b }
}

/// Greedy choice: the first alternative that matches is the one taken.
pub struct Alternatives<A, B> {
    pub a: A,
    pub b: B,
}

impl<A, B> Alternatives<A, B> {
    /// Add a rule before this one - alternative rules are greedy, so ordering matters
    pub fn push_front<O>(self, other: O) -> (r: Alternatives<O, Self>)
        ensures
            r.a == other,
            r.b == self,
    {
        either(other, self)
    }

    /// Add a rule after this one - alternative rules are greedy, so ordering matters
    pub fn push_back<O>(self, other: O) -> (r: Alternatives<Self, O>)
        ensures
            r.a == self,
            r.b == other,
    {
        either(self, other)
    }
}

impl<A: Route, B: Route<Service = A::Service>> Route for Alternatives<A, B> {
    type Service = A::Service;

    open spec fn spec_matches(&self, req: RequestView) -> bool {
        self.a.spec_matches(req) || self.b.spec_matches(req)
    }

    open spec fn spec_route(&self, req: RequestView) -> Result<RequestView, ErrorView> {
        if self.a.spec_matches(req) {
            self.a.spec_route(req)
        } else {
            self.b.spec_route(req)
        }
    }

    open spec fn spec_serves(&self, req: RequestView, s: Self::Service) -> bool {
        if self.a.spec_matches(req) {
            self.a.spec_serves(req, s)
        } else {
            self.b.spec_serves(req, s)
        }
    }

    fn matches(&self, req: &Request) -> (r: bool) {
        self.a.matches(req) || self.b.matches(req)
    }

    fn route(&self, req: Request) -> (r: Result<(Request, Self::Service), Error>) {
        if self.a.matches(&req) {
            self.a.route(req)
        } else {
            self.b.route(req)
        }
    }
}

impl<A: Rule, B: Rule> Rule for Alternatives<A, B> {
    open spec fn spec_matches(&self, req: RequestView) -> bool {
        self.a.spec_matches(req) || self.b.spec_matches(req)
    }

    open spec fn spec_map(&self, req: RequestView) -> Result<RequestView, ErrorView> {
        if self.a.spec_matches(req) {
            self.a.spec_map(req)
        } else {
            self.b.spec_map(req)
        }
    }

    fn matches(&self, req: &Request) -> (r: bool) {
        self.a.matches(req) || self.b.matches(req)
    }

    fn map(&self, req: Request) -> (r: Result<Request, Error>) {
        if self.a.matches(&req) {
            self.a.map(req)
        } else {
            self.b.map(req)
        }
    }
}

/// Sequential composition: both rules must match, and the second rewrites
/// what the first produced.
pub struct Stack<A, B> {
    pub a: A,
    pub b: B,
}

/// Feeds the outcome of a first rewrite to a second one; the first error stops
/// the chain.
pub open spec fn and_then_map<B: Rule>(first: Result<RequestView, ErrorView>, b: B) -> Result<RequestView, ErrorView> {
    match first {
        Ok(m) => b.spec_map(m),
        Err(e) => Err(e),
    }
}

impl<A, B> Stack<A, B> {
    pub fn new(a: A, b: B) -> (r: Self)
        ensures
            r.a == a,
            r.b == b,
    {
        Self { a, b }
    }
}

impl<A: Rule, B: Rule> Stack<A, B> {
    /// Adds a rule that runs after this stack.
    pub fn extend<C: Rule>(self, other: C) -> (r: Stack<Self, C>)
        ensures
            r.a == self,
            r.b == other,
    {
        Stack { a: self, b: other }
    }

    /// Adds a rule that runs before this stack.
    pub fn push_front<C: Rule>(self, other: C) -> (r: Stack<C, Self>)
        ensures
            r.a == other,
            r.b == self,
    {
        Stack { a: other, b: self }
    }
}

impl<A: Rule, B: Rule> Rule for Stack<A, B> {
    open spec fn spec_matches(&self, req: RequestView) -> bool {
        self.a.spec_matches(req) && self.b.spec_matches(req)
    }

    open spec fn spec_map(&self, req: RequestView) -> Result<RequestView, ErrorView> {
        and_then_map(self.a.spec_map(req), self.b)
    }

    fn matches(&self, req: &Request) -> (r: bool) {
        self.a.matches(req) && self.b.matches(req)
    }

    fn map(&self, req: Request) -> (r: Result<Request, Error>) {
        match self.a.map(req) {
            Ok(mapped) => self.b.map(mapped),
            Err(e) => Err(e),
        }
    }
}

/// Moves requests under the path prefix `from` to the prefix `to`; other
/// requests do not match.
pub fn change_path_prefix(from: &str, to: &str) -> (r: Stack<JustFilter<ByPath>, Stack<JustMap<StripPath>, JustMap<AddPrefix>>>)
    ensures
        r.a.filter.prefix@ == from.spec_bytes(),
        r.b.a.map.prefix@ == from.spec_bytes(),
        !r.b.a.map.permissive,
        r.b.b.map.prefix@ == to.spec_bytes(),
{
    stack(by_path(from), stack(strip_path(from, false), add_prefix(to)))
}

} // verus!
