//! A composable HTTP reverse proxy core: filters and maps combine into rules,
//! rules and service makers into routes, and routes into a greedy routing
//! table that decides, for each request, the response or the rewritten request
//! and its service.

pub mod proxy;

use vstd::prelude::*;
use crate::proxy::request::{Request, RequestView, Response, ResponseView};

verus! {

/// Why a request could not be carried through.
pub enum Error {
    /// A rule turned the request down; the response to send back is ready.
    Rejected(Response),
    /// The upstream exchange failed; the message says how.
    Upstream(Vec<u8>),
}

pub enum ErrorView {
    Rejected(ResponseView),
    Upstream(Seq<u8>),
}

impl View for Error {
    type V = ErrorView;

    open spec fn view(&self) -> ErrorView {
        match self {
            Error::Rejected(r) => ErrorView::Rejected(r@),
            Error::Upstream(m) => ErrorView::Upstream(m@),
        }
    }
}

/// What a rule does to a request, seen through the views.
pub open spec fn outcome(r: Result<Request, Error>) -> Result<RequestView, ErrorView> {
    match r {
        Ok(q) => Ok(q@),
        Err(e) => Err(e@),
    }
}

} // verus!
