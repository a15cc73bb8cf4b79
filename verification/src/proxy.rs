//! The reverse proxy's state: a routing table consulted once per incoming
//! request.  The web server that accepts requests, reads the host header and
//! path, and forwards to the chosen upstream lives outside the library; it
//! hands hostname and path in and gets the routing decision back.

use vstd::prelude::*;

use crate::route::{RouteTable, RouteMatchView, Service, ServiceView};
use crate::route::route_spec;

verus! {

/// `ReverseProxy` is a web server that accepts any incoming request and uses
/// a set of rules to decide where to proxy it.  Serving is I/O and lives
/// outside the library; the decision itself is `ProxyState::decide`.
#[derive(Debug)]
pub struct ReverseProxy;

impl ReverseProxy {
    pub fn new() -> (r: Self)
        ensures
            r == ReverseProxy,
    {
        Self
    }
}

/// The shared state of the proxy: its routing table.
#[derive(Debug)]
pub struct ProxyState {
    pub route_table: RouteTable,
}

impl View for ProxyState {
    type V = Seq<(RouteMatchView, ServiceView)>;

    open spec fn view(&self) -> Seq<(RouteMatchView, ServiceView)> {
        self.route_table@
    }
}

impl Default for ProxyState {
    fn default() -> (r: Self)
        ensures
            r@ == Seq::<(RouteMatchView, ServiceView)>::empty(),
    {
        ProxyState { route_table: RouteTable::new() }
    }
}

impl ProxyState {
    /// The routing decision for one request: the service of the oldest
    /// matching entry, or nothing.
    pub fn decide(&self, hostname: &str, path: &str) -> (r: Option<Service>)
        ensures
            r.deep_view() == route_spec(self@, hostname@, path@),
    {
        self.route_table.route(hostname, path)
    }
}

} // verus!
