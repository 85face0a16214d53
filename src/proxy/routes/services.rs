use vstd::prelude::*;
use crate::proxy::request::Request;

verus! {

/// A single-shot handler for one rewritten request. `Output` is what the
/// caller awaits or runs to get the response.
pub trait RouteService {
    type Output;

    fn call(&mut self, req: Request) -> Self::Output;
}

/// The shared factory that makes a fresh service for each dispatch.
pub trait MakeService {
    type Service;

    /// Whether `s` is a service that this maker makes. A maker that does not
    /// say more claims nothing of its services.
    open spec fn made(&self, s: Self::Service) -> bool {
        true
    }

    fn make(&self) -> (r: Self::Service)
        ensures
            self.made(r),
    ;
}

} // verus!
