use std::sync::Arc;
use vstd::prelude::*;
use vstd::utf8::valid_utf8;
use vstd::string::StringSliceAdditionalSpecFns;
use crate::{outcome, Error, ErrorView};
use crate::proxy::forward::{no_match, no_match_view};
use crate::proxy::request::{
    add_header_line, authority_host, bytes_eq, bytes_from, bytes_from_to, bytes_of, concat, host_end,
    host_end_of,
    copy_bytes, decimal, decimal_bytes, get_header, has_prefix, header_value, is_header_name, is_utf8, lower,
    set_header_line, set_header_spec, starts_with, to_lower,
    Request, RequestView, UriView,
};
use super::rules::JustMap;

verus! {

/// A mapping from one request to another, which may turn the request down.
/// Used in combination with filters to construct a routing table.
pub trait RequestMap {
    spec fn result(&self, req: RequestView) -> Result<RequestView, ErrorView>;

    fn apply(&self, req: Request) -> (r: Result<Request, Error>)
        ensures
            outcome(r) == self.result(req@),
    ;
}

/// A shared map behaves as the map it points to.
impl<T: RequestMap> RequestMap for Arc<T> {
    open spec fn result(&self, req: RequestView) -> Result<RequestView, ErrorView> {
        (**self).result(req)
    }

    fn apply(&self, req: Request) -> (r: Result<Request, Error>) {
        (**self).apply(req)
    }
}

/// The error of a rule that turns a request down for `reason`.
pub open spec fn reject(reason: Seq<u8>) -> ErrorView {
    ErrorView::Rejected(no_match_view(reason))
}

/// Builds the error of a rule that turns a request down for `reason`.
pub fn rejection(reason: &str) -> (r: Error)
    ensures
        r@ == reject(reason.spec_bytes()),
{
    Error::Rejected(no_match(reason))
}

/// Lets the request through unchanged when `permissive`, else turns it down
/// for `reason`.
pub fn return_early(req: Request, permissive: bool, reason: &str) -> (r: Result<Request, Error>)
    ensures
        outcome(r) == if permissive {
            Ok(req@)
        } else {
            Err(reject(reason.spec_bytes()))
        },
{
    if permissive {
        Ok(req)
    } else {
        Err(rejection(reason))
    }
}

pub open spec fn with_uri(req: RequestView, uri: UriView) -> RequestView {
    RequestView { uri, ..req }
}

pub open spec fn with_path(req: RequestView, path: Seq<u8>) -> RequestView {
    with_uri(req, UriView { path, ..req.uri })
}

pub open spec fn with_headers(req: RequestView, headers: Seq<(Seq<u8>, Seq<u8>)>) -> RequestView {
    RequestView { headers, ..req }
}

/// Whether a target is in absolute form: it has a scheme and a host.
pub open spec fn is_absolute(uri: UriView) -> bool {
    uri.scheme is Some && uri.authority is Some
}

pub open spec fn is_host_byte(b: u8) -> bool {
    (48 <= b && b <= 57) || (65 <= b && b <= 90) || (97 <= b && b <= 122) || b == 45 || b == 46 || b == 95
}

/// A host name this library will write into a target: letters, digits, `-`,
/// `.` and `_`, at least one of them.
pub open spec fn valid_host(h: Seq<u8>) -> bool {
    (h.len() > 0 && forall|i: int| 0 <= i < h.len() ==> is_host_byte(h[i])) || is_ipv6_literal(h)
}

pub open spec fn is_ipv6_byte(b: u8) -> bool {
    (48 <= b && b <= 58) || (65 <= b && b <= 70) || (97 <= b && b <= 102) || b == 46
}

/// A bracketed IPv6 literal: `[`, hex digits, `:` and `.`, then `]`.
pub open spec fn is_ipv6_literal(h: Seq<u8>) -> bool {
    h.len() >= 3 && h[0] == 91 && h[h.len() - 1] == 93 && forall|i: int|
        1 <= i < h.len() - 1 ==> is_ipv6_byte(h[i])
}

/// A scheme: a letter, then letters, digits, `+`, `-` or `.`.
pub open spec fn valid_scheme(s: Seq<u8>) -> bool {
    s.len() > 0 && ((65 <= s[0] && s[0] <= 90) || (97 <= s[0] && s[0] <= 122)) && forall|i: int|
        0 <= i < s.len() ==> ((48 <= s[i] && s[i] <= 57) || (65 <= s[i] && s[i] <= 90) || (97
            <= s[i] && s[i] <= 122) || s[i] == 43 || s[i] == 45 || s[i] == 46)
}

/// The schemes whose targets always carry a host.
pub open spec fn is_special(s: Seq<u8>) -> bool {
    s == "http".spec_bytes() || s == "https".spec_bytes() || s == "ws".spec_bytes() || s
        == "wss".spec_bytes() || s == "ftp".spec_bytes() || s == "file".spec_bytes()
}

/// A scheme may be swapped for another of the same kind only.
pub open spec fn scheme_change_allowed(old: Seq<u8>, new: Seq<u8>) -> bool {
    valid_scheme(new) && is_special(old) == is_special(new)
}

pub fn absolute(req: &Request) -> (r: bool)
    ensures
        r == is_absolute(req@.uri),
{
    req.uri.scheme.is_some() && req.uri.authority.is_some()
}

fn ipv6_is_valid(h: &Vec<u8>) -> (r: bool)
    ensures
        r == is_ipv6_literal(h@),
{
    if h.len() < 3 || h[0] != 91 || h[h.len() - 1] != 93 {
        return false;
    }
    let mut i: usize = 1;
    while i < h.len() - 1
        invariant
            3 <= h@.len(),
            1 <= i <= h@.len() - 1,
            forall|j: int| 1 <= j < i ==> is_ipv6_byte(h@[j]),
        decreases h@.len() - i,
    {
        let b = h[i];
        if !((48 <= b && b <= 58) || (65 <= b && b <= 70) || (97 <= b && b <= 102) || b == 46) {
            return false;
        }
        i = i + 1;
    }
    true
}

fn host_is_valid(h: &Vec<u8>) -> (r: bool)
    ensures
        r == valid_host(h@),
{
    if ipv6_is_valid(h) {
        return true;
    }
    if h.len() == 0 {
        return false;
    }
    let mut i: usize = 0;
    while i < h.len()
        invariant
            i <= h@.len(),
            !is_ipv6_literal(h@),
            forall|j: int| 0 <= j < i ==> is_host_byte(h@[j]),
        decreases h@.len() - i,
    {
        let b = h[i];
        if !((48 <= b && b <= 57) || (65 <= b && b <= 90) || (97 <= b && b <= 122) || b == 45 || b
            == 46 || b == 95) {
            return false;
        }
        i = i + 1;
    }
    true
}

fn scheme_is_valid(s: &Vec<u8>) -> (r: bool)
    ensures
        r == valid_scheme(s@),
{
    if s.len() == 0 {
        return false;
    }
    let f = s[0];
    if !((65 <= f && f <= 90) || (97 <= f && f <= 122)) {
        return false;
    }
    let mut i: usize = 0;
    while i < s.len()
        invariant
            i <= s@.len(),
            forall|j: int|
                0 <= j < i ==> ((48 <= s@[j] && s@[j] <= 57) || (65 <= s@[j] && s@[j] <= 90) || (
                97 <= s@[j] && s@[j] <= 122) || s@[j] == 43 || s@[j] == 45 || s@[j] == 46),
        decreases s@.len() - i,
    {
        let b = s[i];
        if !((48 <= b && b <= 57) || (65 <= b && b <= 90) || (97 <= b && b <= 122) || b == 43 || b
            == 45 || b == 46) {
            return false;
        }
        i = i + 1;
    }
    true
}

fn scheme_is_special(s: &Vec<u8>) -> (r: bool)
    ensures
        r == is_special(s@),
{
    bytes_eq(s, &bytes_of("http")) || bytes_eq(s, &bytes_of("https")) || bytes_eq(s, &bytes_of("ws"))
        || bytes_eq(s, &bytes_of("wss")) || bytes_eq(s, &bytes_of("ftp")) || bytes_eq(
        s,
        &bytes_of("file"),
    )
}

/// Points the target at another port.
pub struct SetPort {
    pub port: u16,
}

/// Points the target at another host.
pub struct SetHost {
    pub host: Vec<u8>,
}

/// Changes the target's scheme.
pub struct SetScheme {
    pub scheme: Vec<u8>,
}

/// Takes a prefix off the path.
pub struct StripPath {
    pub prefix: Vec<u8>,
    pub permissive: bool,
}

/// Puts a prefix before the path.
pub struct AddPrefix {
    pub prefix: Vec<u8>,
}

/// Replaces all values of a (lower-case) header by one.
pub struct SetHeader {
    pub name: Vec<u8>,
    pub value: Vec<u8>,
}

/// Appends a value to a (lower-case) header.
pub struct AddHeader {
    pub name: Vec<u8>,
    pub value: Vec<u8>,
}

/// Makes an origin-form target absolute from the `Host` header.
pub struct ResolveUri {
    pub scheme: Vec<u8>,
}

/// Adds the `X-Forwarded-*` headers.
pub struct AddForwardHeaders {
    pub proto: Vec<u8>,
    pub port: u16,
}

impl RequestMap for SetPort {
    open spec fn result(&self, req: RequestView) -> Result<RequestView, ErrorView> {
        match (req.uri.scheme, req.uri.authority) {
            (Some(scheme), Some(a)) if scheme != "file".spec_bytes() => Ok(
                with_uri(
                    req,
                    UriView {
                        authority: Some(authority_host(a) + ":".spec_bytes() + decimal(self.port as nat)),
                        ..req.uri
                    },
                ),
            ),
            _ => Err(reject("SetPort: cannot set port".spec_bytes())),
        }
    }

    fn apply(&self, req: Request) -> (r: Result<Request, Error>) {
        let allowed = match &req.uri.scheme {
            Some(scheme) => req.uri.authority.is_some() && !bytes_eq(scheme, &bytes_of("file")),
            None => false,
        };
        if !allowed {
            return Err(rejection("SetPort: cannot set port"));
        }
        let mut req = req;
        match &req.uri.authority {
            Some(a) => {
                let host = bytes_from_to(a, host_end_of(a));
                let authority = concat(&concat(&host, &bytes_of(":")), &decimal_bytes(self.port));
                req.uri.authority = Some(authority);
            },
            None => {},
        }
        Ok(req)
    }
}

impl RequestMap for SetHost {
    open spec fn result(&self, req: RequestView) -> Result<RequestView, ErrorView> {
        match (req.uri.scheme, req.uri.authority) {
            (Some(_), Some(a)) if valid_host(self.host@) => Ok(
                with_uri(
                    req,
                    UriView {
                        authority: Some(self.host@ + a.subrange(host_end(a), a.len() as int)),
                        ..req.uri
                    },
                ),
            ),
            _ => Err(reject("SetHost: cannot set host".spec_bytes())),
        }
    }

    fn apply(&self, req: Request) -> (r: Result<Request, Error>) {
        if !(absolute(&req) && host_is_valid(&self.host)) {
            return Err(rejection("SetHost: cannot set host"));
        }
        let mut req = req;
        match &req.uri.authority {
            Some(a) => {
                let rest = bytes_from(a, host_end_of(a));
                req.uri.authority = Some(concat(&self.host, &rest));
            },
            None => {},
        }
        Ok(req)
    }
}

impl RequestMap for SetScheme {
    open spec fn result(&self, req: RequestView) -> Result<RequestView, ErrorView> {
        match req.uri.scheme {
            Some(old) if req.uri.authority is Some && scheme_change_allowed(old, self.scheme@) => Ok(
                with_uri(req, UriView { scheme: Some(self.scheme@), ..req.uri }),
            ),
            _ => Err(reject("SetScheme: cannot set scheme".spec_bytes())),
        }
    }

    fn apply(&self, req: Request) -> (r: Result<Request, Error>) {
        let allowed = match &req.uri.scheme {
            Some(old) => req.uri.authority.is_some() && scheme_is_valid(&self.scheme)
                && scheme_is_special(old) == scheme_is_special(&self.scheme),
            None => false,
        };
        if allowed {
            let mut req = req;
            req.uri.scheme = Some(copy_bytes(&self.scheme));
            Ok(req)
        } else {
            Err(rejection("SetScheme: cannot set scheme"))
        }
    }
}

impl RequestMap for StripPath {
    open spec fn result(&self, req: RequestView) -> Result<RequestView, ErrorView> {
        if starts_with(req.uri.path, self.prefix@) {
            Ok(with_path(req, req.uri.path.subrange(self.prefix@.len() as int, req.uri.path.len() as int)))
        } else if self.permissive {
            Ok(req)
        } else {
            Err(reject("StripPath: path doesn't match prefix".spec_bytes()))
        }
    }

    fn apply(&self, req: Request) -> (r: Result<Request, Error>) {
        if has_prefix(&req.uri.path, &self.prefix) {
            let mut req = req;
            req.uri.path = bytes_from(&req.uri.path, self.prefix.len());
            Ok(req)
        } else {
            return_early(req, self.permissive, "StripPath: path doesn't match prefix")
        }
    }
}

impl RequestMap for AddPrefix {
    open spec fn result(&self, req: RequestView) -> Result<RequestView, ErrorView> {
        Ok(with_path(req, self.prefix@ + req.uri.path))
    }

    fn apply(&self, req: Request) -> (r: Result<Request, Error>) {
        let mut req = req;
        req.uri.path = concat(&self.prefix, &req.uri.path);
        Ok(req)
    }
}

impl RequestMap for SetHeader {
    open spec fn result(&self, req: RequestView) -> Result<RequestView, ErrorView> {
        Ok(with_headers(req, set_header_spec(req.headers, self.name@, self.value@)))
    }

    fn apply(&self, req: Request) -> (r: Result<Request, Error>) {
        let mut req = req;
        set_header_line(&mut req.headers, &self.name, &self.value);
        Ok(req)
    }
}

impl RequestMap for AddHeader {
    open spec fn result(&self, req: RequestView) -> Result<RequestView, ErrorView> {
        Ok(with_headers(req, req.headers.push((self.name@, self.value@))))
    }

    fn apply(&self, req: Request) -> (r: Result<Request, Error>) {
        let mut req = req;
        add_header_line(&mut req.headers, &self.name, &self.value);
        Ok(req)
    }
}

/// The absolute target made from an origin-form one and a `Host` value,
/// which becomes the authority as it is.
pub open spec fn resolved_uri(uri: UriView, scheme: Seq<u8>, host: Seq<u8>) -> UriView {
    UriView { scheme: Some(scheme), authority: Some(host), path: uri.path, query: uri.query }
}

impl RequestMap for ResolveUri {
    open spec fn result(&self, req: RequestView) -> Result<RequestView, ErrorView> {
        if is_absolute(req.uri) {
            Ok(req)
        } else {
            match header_value(req.headers, "host".spec_bytes()) {
                Some(v) if valid_utf8(v) => Ok(with_uri(req, resolved_uri(req.uri, self.scheme@, v))),
                _ => Err(reject("ResolveUri: no host header".spec_bytes())),
            }
        }
    }

    fn apply(&self, req: Request) -> (r: Result<Request, Error>) {
        if absolute(&req) {
            return Ok(req);
        }
        match get_header(&req.headers, &bytes_of("host")) {
            Some(v) => {
                if is_utf8(&v) {
                    let mut req = req;
                    req.uri.scheme = Some(copy_bytes(&self.scheme));
                    req.uri.authority = Some(v);
                    Ok(req)
                } else {
                    Err(rejection("ResolveUri: no host header"))
                }
            },
            None => Err(rejection("ResolveUri: no host header")),
        }
    }
}

/// The `X-Forwarded-Host` value: the target's host, else the `Host` header.
pub open spec fn forwarded_host(req: RequestView) -> Option<Seq<u8>> {
    match req.uri.authority {
        Some(a) => Some(authority_host(a)),
        None => header_value(req.headers, "host".spec_bytes()),
    }
}

/// The headers of a request after the `X-Forwarded-*` headers were set.
pub open spec fn forwarded_headers(req: RequestView, proto: Seq<u8>, port: u16) -> Seq<(Seq<u8>, Seq<u8>)> {
    let h1 = set_header_spec(req.headers, "x-forwarded-proto".spec_bytes(), proto);
    let h2 = set_header_spec(h1, "x-forwarded-port".spec_bytes(), decimal(port as nat));
    let h3 = match req.peer {
        Some(p) => set_header_spec(h2, "x-forwarded-for".spec_bytes(), p.ip),
        None => h2,
    };
    match forwarded_host(req) {
        Some(h) => set_header_spec(h3, "x-forwarded-host".spec_bytes(), h),
        None => h3,
    }
}

impl RequestMap for AddForwardHeaders {
    open spec fn result(&self, req: RequestView) -> Result<RequestView, ErrorView> {
        Ok(with_headers(req, forwarded_headers(req, self.proto@, self.port)))
    }

    fn apply(&self, req: Request) -> (r: Result<Request, Error>) {
        let ghost incoming = req@;
        let host = match &req.uri.authority {
            Some(a) => Some(bytes_from_to(a, host_end_of(a))),
            None => get_header(&req.headers, &bytes_of("host")),
        };
        let mut req = req;
        set_header_line(&mut req.headers, &bytes_of("x-forwarded-proto"), &self.proto);
        set_header_line(&mut req.headers, &bytes_of("x-forwarded-port"), &decimal_bytes(self.port));
        match &req.peer {
            Some(p) => {
                let ip = copy_bytes(&p.ip);
                set_header_line(&mut req.headers, &bytes_of("x-forwarded-for"), &ip);
            },
            None => {},
        }
        match host {
            Some(h) => set_header_line(&mut req.headers, &bytes_of("x-forwarded-host"), &h),
            None => {},
        }
        assert(req@ == with_headers(incoming, forwarded_headers(incoming, self.proto@, self.port)));
        Ok(req)
    }
}

/// Sets the port of an absolute target; turns down other targets.
pub fn set_port(port: u16) -> (r: JustMap<SetPort>)
    ensures
        r.map.port == port,
{
    JustMap { map: SetPort { port } }
}

/// Sets the host of an absolute target; turns down other targets and hosts
/// that are not valid.
pub fn set_host(host: &str) -> (r: JustMap<SetHost>)
    ensures
        r.map.host@ == host.spec_bytes(),
{
    JustMap { map: SetHost { host: bytes_of(host) } }
}

/// Sets the scheme (in lower case) of an absolute target.
pub fn set_scheme(scheme: &str) -> (r: JustMap<SetScheme>)
    ensures
        r.map.scheme@ == lower(scheme.spec_bytes()),
{
    JustMap { map: SetScheme { scheme: to_lower(&bytes_of(scheme)) } }
}

/// Takes `prefix` off the path. A path without it passes unchanged when
/// `permissive`, and is turned down otherwise.
pub fn strip_path(prefix: &str, permissive: bool) -> (r: JustMap<StripPath>)
    ensures
        r.map.prefix@ == prefix.spec_bytes(),
        r.map.permissive == permissive,
{
    JustMap { map: StripPath { prefix: bytes_of(prefix), permissive } }
}

/// Puts `prefix` before the path.
pub fn add_prefix(prefix: &str) -> (r: JustMap<AddPrefix>)
    ensures
        r.map.prefix@ == prefix.spec_bytes(),
{
    JustMap { map: AddPrefix { prefix: bytes_of(prefix) } }
}

/// Replaces every value of the header `name` (in any case) by `value`.
pub fn set_header(name: &str, value: &str) -> (r: JustMap<SetHeader>)
    requires
        is_header_name(name.spec_bytes()),
    ensures
        r.map.name@ == lower(name.spec_bytes()),
        r.map.value@ == value.spec_bytes(),
{
    JustMap { map: SetHeader { name: to_lower(&bytes_of(name)), value: bytes_of(value) } }
}

/// Appends `value` to the header `name` (in any case), keeping earlier values.
pub fn add_header(name: &str, value: &str) -> (r: JustMap<AddHeader>)
    requires
        is_header_name(name.spec_bytes()),
    ensures
        r.map.name@ == lower(name.spec_bytes()),
        r.map.value@ == value.spec_bytes(),
{
    JustMap { map: AddHeader { name: to_lower(&bytes_of(name)), value: bytes_of(value) } }
}

/// Makes an origin-form target absolute: `default_scheme://<Host><path>?<query>`.
pub fn resolve_uri(default_scheme: &str) -> (r: JustMap<ResolveUri>)
    ensures
        r.map.scheme@ == default_scheme.spec_bytes(),
{
    JustMap { map: ResolveUri { scheme: bytes_of(default_scheme) } }
}

/// Sets `X-Forwarded-Proto`, `X-Forwarded-Port`, and where known
/// `X-Forwarded-For` and `X-Forwarded-Host`.
pub fn add_forward_headers(proto: &str, local_port: u16) -> (r: JustMap<AddForwardHeaders>)
    ensures
        r.map.proto@ == proto.spec_bytes(),
        r.map.port == local_port,
{
    JustMap { map: AddForwardHeaders { proto: bytes_of(proto), port: local_port } }
}

} // verus!
