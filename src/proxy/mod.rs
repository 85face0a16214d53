pub mod forward;
pub mod request;
pub mod routes;

use vstd::prelude::*;
use rustls::ServerConfig;
use self::routes::Route;

verus! {

/// The TLS server configuration, carried through unopened.
#[verifier::external_type_specification]
#[verifier::external_body]
pub struct ExServerConfig(ServerConfig);

/// An IPv4 socket address to listen on.
pub struct ListenAddr {
    pub ip: [u8; 4],
    pub port: u16,
}

/// A proxy under construction; `State` records how far the build has come.
pub struct Proxy<State> {
    pub on: ListenAddr,
    pub state: State,
}

/// The address is known; the protocol is not chosen yet.
pub struct NeedsProtocol;

/// Plain HTTP/1.1.
pub struct Http;

/// HTTP/1.1 over TLS with the given server configuration.
pub struct Https {
    pub tls: ServerConfig,
}

/// The protocol is chosen; the routing table is not attached yet.
pub struct NeedsRules<Proto> {
    pub proto: Proto,
}

/// Everything is in place: the proxy can serve.
pub struct CanServe<Proto, R: Route> {
    pub proto: Proto,
    pub routes: R,
}

impl Proxy<NeedsProtocol> {
    pub fn on(addr: ListenAddr) -> (r: Self)
        ensures
            r.on == addr,
    {
        Self { on: addr, state: NeedsProtocol }
    }

    pub fn http(self) -> (r: Proxy<NeedsRules<Http>>)
        ensures
            r.on == self.on,
    {
        Proxy { on: self.on, state: NeedsRules { proto: Http } }
    }

    pub fn https(self, tls: ServerConfig) -> (r: Proxy<NeedsRules<Https>>)
        ensures
            r.on == self.on,
            r.state.proto.tls == tls,
    {
        Proxy { on: self.on, state: NeedsRules { proto: Https { tls } } }
    }
}

impl<Proto> Proxy<NeedsRules<Proto>> {
    pub fn with_routes<R: Route>(self, routes: R) -> (r: Proxy<CanServe<Proto, R>>)
        ensures
            r.on == self.on,
            r.state.proto == self.state.proto,
            r.state.routes == routes,
    {
        Proxy { on: self.on, state: CanServe { proto: self.state.proto, routes } }
    }
}

} // verus!
