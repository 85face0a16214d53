use vstd::prelude::*;
use vstd::utf8::valid_utf8;
use vstd::string::StringSliceAdditionalSpecFns;
use crate::proxy::request::{
    bytes_eq, bytes_from_to, bytes_of, host_end_of, uri_host, find_header, has_prefix, header_value, is_utf8, lower,
    starts_with, to_lower, Request, RequestView,
};
use super::rules::JustFilter;

verus! {

/// A rule which only determines if a received request can be handled by the
/// stack it is in.
pub trait Filter {
    spec fn passes(&self, req: RequestView) -> bool;

    /// Check if a given request passes this filter
    fn matches(&self, req: &Request) -> (r: bool)
        ensures
            r == self.passes(req@),
    ;
}

/// Passes requests whose target's authority names this host.
pub struct ByHost {
    pub host: Vec<u8>,
}

/// Passes requests whose path begins with this prefix.
pub struct ByPath {
    pub prefix: Vec<u8>,
}

/// Passes requests that carry a header of this (lower-case) name.
pub struct HasHeader {
    pub name: Vec<u8>,
}

/// Passes requests whose first header of this (lower-case) name is valid
/// UTF-8 equal to `value`.
pub struct ByHeader {
    pub name: Vec<u8>,
    pub value: Vec<u8>,
}

impl Filter for ByHost {
    open spec fn passes(&self, req: RequestView) -> bool {
        uri_host(req.uri) == Some(self.host@)
    }

    fn matches(&self, req: &Request) -> (r: bool) {
        match &req.uri.authority {
            Some(a) => bytes_eq(&bytes_from_to(a, host_end_of(a)), &self.host),
            None => false,
        }
    }
}

impl Filter for ByPath {
    open spec fn passes(&self, req: RequestView) -> bool {
        starts_with(req.uri.path, self.prefix@)
    }

    fn matches(&self, req: &Request) -> (r: bool) {
        has_prefix(&req.uri.path, &self.prefix)
    }
}

impl Filter for HasHeader {
    open spec fn passes(&self, req: RequestView) -> bool {
        header_value(req.headers, self.name@) is Some
    }

    fn matches(&self, req: &Request) -> (r: bool) {
        find_header(&req.headers, &self.name).is_some()
    }
}

impl Filter for ByHeader {
    open spec fn passes(&self, req: RequestView) -> bool {
        match header_value(req.headers, self.name@) {
            Some(v) => valid_utf8(v) && v == self.value@,
            None => false,
        }
    }

    fn matches(&self, req: &Request) -> (r: bool) {
        match find_header(&req.headers, &self.name) {
            Some(i) => {
                let v = &req.headers[i].value;
                is_utf8(v) && bytes_eq(v, &self.value)
            },
            None => false,
        }
    }
}

/// Matches requests whose target has exactly this host.
pub fn by_host(host: &str) -> (r: JustFilter<ByHost>)
    ensures
        r.filter.host@ == host.spec_bytes(),
{
    JustFilter { filter: ByHost { host: bytes_of(host) } }
}

/// Matches requests whose path begins with `prefix` (not aware of segments).
pub fn by_path(prefix: &str) -> (r: JustFilter<ByPath>)
    ensures
        r.filter.prefix@ == prefix.spec_bytes(),
{
    JustFilter { filter: ByPath { prefix: bytes_of(prefix) } }
}

/// Matches requests that carry a header called `name`, in any case.
pub fn has_header(name: &str) -> (r: JustFilter<HasHeader>)
    ensures
        r.filter.name@ == lower(name.spec_bytes()),
{
    JustFilter { filter: HasHeader { name: to_lower(&bytes_of(name)) } }
}

/// Matches requests whose header `name` (in any case) is valid UTF-8 equal to `value`.
pub fn by_header(name: &str, value: &str) -> (r: JustFilter<ByHeader>)
    ensures
        r.filter.name@ == lower(name.spec_bytes()),
        r.filter.value@ == value.spec_bytes(),
{
    JustFilter { filter: ByHeader { name: to_lower(&bytes_of(name)), value: bytes_of(value) } }
}

} // verus!
