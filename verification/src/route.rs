//! The reverse-proxy routing table: an ordered list of match criteria, each
//! pointing at an upstream service.  A request is routed to the service of
//! the first (oldest) entry whose criteria it satisfies.

use vstd::prelude::*;
use vstd::std_specs::cmp::PartialEqSpecImpl;

verus! {

/// `Service` describes an upstream application that can be routed to.  All
/// that matters here is the port: every upstream is assumed to run on the
/// same host as the agent.
#[derive(Debug)]
pub struct Service {
    name: String,
    port: u16,
}

pub struct ServiceView {
    pub name: Seq<char>,
    pub port: u16,
}

impl View for Service {
    type V = ServiceView;

    closed spec fn view(&self) -> ServiceView {
        ServiceView { name: self.name@, port: self.port }
    }
}

impl DeepView for Service {
    type V = ServiceView;

    open spec fn deep_view(&self) -> ServiceView {
        self.view()
    }
}

impl Service {
    pub fn new(name: &str, port: u16) -> (r: Service)
        ensures
            r@ == (ServiceView { name: name@, port }),
    {
        Service { name: name.to_owned(), port }
    }

    /// The port the service listens on.
    pub fn port(&self) -> (r: u16)
        ensures
            r == self@.port,
    {
        self.port
    }
}

impl Clone for Service {
    fn clone(&self) -> (r: Self)
        ensures
            r@ == self@,
    {
        Service { name: self.name.clone(), port: self.port }
    }
}

impl PartialEqSpecImpl for Service {
    open spec fn obeys_eq_spec() -> bool {
        true
    }

    open spec fn eq_spec(&self, other: &Service) -> bool {
        self@ == other@
    }
}

impl PartialEq for Service {
    fn eq(&self, other: &Service) -> (r: bool) {
        self.name == other.name && self.port == other.port
    }
}

impl Eq for Service {

}

/// A `RouteMatch` gives the criteria by which an incoming request is routed.
/// A request must satisfy every criterion that is set.  One with neither
/// hostname nor path set is legal but matches nothing.
#[derive(Debug)]
pub struct RouteMatch {
    hostname: Option<String>,
    path: Option<String>,
}

pub struct RouteMatchView {
    pub hostname: Option<Seq<char>>,
    pub path: Option<Seq<char>>,
}

impl View for RouteMatch {
    type V = RouteMatchView;

    closed spec fn view(&self) -> RouteMatchView {
        RouteMatchView { hostname: self.hostname.deep_view(), path: self.path.deep_view() }
    }
}

impl DeepView for RouteMatch {
    type V = RouteMatchView;

    open spec fn deep_view(&self) -> RouteMatchView {
        self.view()
    }
}

impl RouteMatchView {
    /// What it means for a request to match: every criterion that is set
    /// must agree; no criterion set matches nothing.
    pub open spec fn spec_matches(self, hostname: Seq<char>, path: Seq<char>) -> bool {
        match (self.hostname, self.path) {
            (Option::None, Option::None) => false,
            (Option::Some(h), Option::None) => h == hostname,
            (Option::None, Option::Some(p)) => p == path,
            (Option::Some(h), Option::Some(p)) => p == path && h == hostname,
        }
    }
}

impl RouteMatch {
    /// Whether a request with the given hostname and path matches.
    pub fn matches(&self, hostname: &str, path: &str) -> (r: bool)
        ensures
            r == self@.spec_matches(hostname@, path@),
    {
        match (&self.hostname, &self.path) {
            (Option::None, Option::None) => false,
            (Option::Some(h), Option::None) => *h == hostname.to_owned(),
            (Option::None, Option::Some(p)) => *p == path.to_owned(),
            (Option::Some(h), Option::Some(p)) => *p == path.to_owned() && *h
                == hostname.to_owned(),
        }
    }
}

impl Clone for RouteMatch {
    fn clone(&self) -> (r: Self)
        ensures
            r@ == self@,
    {
        RouteMatch {
            hostname: crate::wire::clone_opt_string(&self.hostname),
            path: crate::wire::clone_opt_string(&self.path),
        }
    }
}

/// Builds a `RouteMatch` criterion by criterion.
#[derive(Debug)]
pub struct RouteMatchBuilder {
    hostname: Option<String>,
    path: Option<String>,
}

impl View for RouteMatchBuilder {
    type V = RouteMatchView;

    closed spec fn view(&self) -> RouteMatchView {
        RouteMatchView { hostname: self.hostname.deep_view(), path: self.path.deep_view() }
    }
}

impl Default for RouteMatchBuilder {
    fn default() -> (r: Self)
        ensures
            r@ == (RouteMatchView { hostname: Option::None, path: Option::None }),
    {
        RouteMatchBuilder { hostname: None, path: None }
    }
}

impl RouteMatchBuilder {
    pub fn new() -> (r: Self)
        ensures
            r@ == (RouteMatchView { hostname: Option::None, path: Option::None }),
    {
        Self::default()
    }

    pub fn hostname(self, hostname: &str) -> (r: Self)
        ensures
            r@ == (RouteMatchView { hostname: Option::Some(hostname@), path: self@.path }),
    {
        RouteMatchBuilder { hostname: Some(hostname.to_owned()), path: self.path }
    }

    pub fn path(self, path: &str) -> (r: Self)
        ensures
            r@ == (RouteMatchView { hostname: self@.hostname, path: Option::Some(path@) }),
    {
        RouteMatchBuilder { hostname: self.hostname, path: Some(path.to_owned()) }
    }

    pub fn build(self) -> (r: RouteMatch)
        ensures
            r@ == self@,
    {
        RouteMatch { hostname: self.hostname, path: self.path }
    }
}

/// Which service, if any, an entry list routes a request to: the first
/// matching entry wins.
pub open spec fn route_spec(
    entries: Seq<(RouteMatchView, ServiceView)>,
    hostname: Seq<char>,
    path: Seq<char>,
) -> Option<ServiceView>
    decreases entries.len(),
{
    if entries.len() == 0 {
        Option::None
    } else if entries[0].0.spec_matches(hostname, path) {
        Option::Some(entries[0].1)
    } else {
        route_spec(entries.drop_first(), hostname, path)
    }
}

/// If the first matching entry is at position `i`, routing returns its
/// service.
proof fn lemma_route_spec_first_match(
    entries: Seq<(RouteMatchView, ServiceView)>,
    hostname: Seq<char>,
    path: Seq<char>,
    i: int,
)
    requires
        0 <= i < entries.len(),
        entries[i].0.spec_matches(hostname, path),
        forall|j: int| 0 <= j < i ==> !(#[trigger] entries[j]).0.spec_matches(hostname, path),
    ensures
        route_spec(entries, hostname, path) == Option::Some(entries[i].1),
    decreases i,
{
    if i > 0 {
        let rest = entries.drop_first();
        assert(forall|j: int| 0 <= j < i - 1 ==> rest[j] == entries[j + 1]);
        lemma_route_spec_first_match(rest, hostname, path, i - 1);
    }
}

/// If no entry matches, routing returns nothing.
proof fn lemma_route_spec_no_match(
    entries: Seq<(RouteMatchView, ServiceView)>,
    hostname: Seq<char>,
    path: Seq<char>,
)
    requires
        forall|j: int|
            0 <= j < entries.len() ==> !(#[trigger] entries[j]).0.spec_matches(hostname, path),
    ensures
        route_spec(entries, hostname, path) is None,
    decreases entries.len(),
{
    if entries.len() > 0 {
        let rest = entries.drop_first();
        assert(forall|j: int| 0 <= j < rest.len() ==> rest[j] == entries[j + 1]);
        lemma_route_spec_no_match(rest, hostname, path);
    }
}

/// A `RouteTable` decides which `Service` receives a proxied request, by the
/// ordered list of its `RouteMatch` entries.
#[derive(Debug)]
pub struct RouteTable {
    entries: Vec<(RouteMatch, Service)>,
}

impl View for RouteTable {
    type V = Seq<(RouteMatchView, ServiceView)>;

    closed spec fn view(&self) -> Seq<(RouteMatchView, ServiceView)> {
        self.entries.deep_view()
    }
}

impl Default for RouteTable {
    fn default() -> (r: Self)
        ensures
            r@ == Seq::<(RouteMatchView, ServiceView)>::empty(),
    {
        let r = RouteTable { entries: Vec::new() };
        proof {
            assert(r@ =~= Seq::<(RouteMatchView, ServiceView)>::empty());
        }
        r
    }
}

impl RouteTable {
    pub fn new() -> (r: Self)
        ensures
            r@ == Seq::<(RouteMatchView, ServiceView)>::empty(),
    {
        Self::default()
    }

    /// Number of entries in the table.
    pub fn len(&self) -> (r: usize)
        ensures
            r == self@.len(),
    {
        self.entries.len()
    }

    /// Appends an entry; being newest, it loses against every existing entry
    /// that matches the same requests.
    pub fn add(&mut self, route_match: RouteMatch, service: Service)
        ensures
            final(self)@ == old(self)@.push((route_match@, service@)),
    {
        let ghost rm = route_match@;
        let ghost sv = service@;
        self.entries.push((route_match, service));
        proof {
            assert(self@ =~= old(self)@.push((rm, sv)));
        }
    }

    /// Drops every entry that routes to `service`.
    pub fn remove(&mut self, service: Service)
        ensures
            final(self)@ == old(self)@.filter(
                (|e: (RouteMatchView, ServiceView)| e.1 != service@),
            ),
    {
        let n = self.entries.len();
        let mut kept: Vec<(RouteMatch, Service)> = Vec::new();
        proof {
            assert(old(self)@.take(0) =~= Seq::<(RouteMatchView, ServiceView)>::empty());
            assert(kept.deep_view() =~= Seq::<(RouteMatchView, ServiceView)>::empty());
            assert(old(self)@.take(0).filter(
                (|e: (RouteMatchView, ServiceView)| e.1 != service@),
            ) =~= Seq::<(RouteMatchView, ServiceView)>::empty());
        }
        for i in 0..n
            invariant
                n == self.entries@.len(),
                self@ == old(self)@,
                kept.deep_view() == old(self)@.take(i as int).filter(
                    (|e: (RouteMatchView, ServiceView)| e.1 != service@),
                ),
        {
            proof {
                assert(self@[i as int] == (self.entries@[i as int].0@, self.entries@[i as int].1@));
            }
            let keep = self.entries[i].1 != service;
            if keep {
                let cloned = (self.entries[i].0.clone(), self.entries[i].1.clone());
                let ghost cv = (cloned.0@, cloned.1@);
                kept.push(cloned);
                proof {
                    assert(kept.deep_view() =~= kept.deep_view().drop_last().push(cv));
                }
            }
            proof {
                reveal(Seq::filter);
                let pred = (|e: (RouteMatchView, ServiceView)| e.1 != service@);
                let prefix = old(self)@.take(i + 1);
                assert(prefix.drop_last() =~= old(self)@.take(i as int));
                assert(prefix.last() == old(self)@[i as int]);
                assert(prefix.filter(pred) == if pred(old(self)@[i as int]) {
                    prefix.drop_last().filter(pred).push(old(self)@[i as int])
                } else {
                    prefix.drop_last().filter(pred)
                });
            }
        }
        self.entries = kept;
        proof {
            assert(old(self)@.take(n as int) =~= old(self)@);
        }
    }

    /// Finds the first (that is, oldest) entry matching the given hostname
    /// and path and returns its service.  A trivial linear scan: the table is
    /// assumed to stay small.
    pub fn route(&self, hostname: &str, path: &str) -> (r: Option<Service>)
        ensures
            r.deep_view() == route_spec(self@, hostname@, path@),
    {
        let n = self.entries.len();
        for i in 0..n
            invariant
                n == self.entries@.len(),
                forall|j: int|
                    0 <= j < i ==> !(#[trigger] self@[j]).0.spec_matches(hostname@, path@),
        {
            proof {
                assert(self@[i as int] == (self.entries@[i as int].0@, self.entries@[i as int].1@));
            }
            if self.entries[i].0.matches(hostname, path) {
                let found = self.entries[i].1.clone();
                proof {
                    lemma_route_spec_first_match(self@, hostname@, path@, i as int);
                }
                return Some(found);
            }
        }
        proof {
            lemma_route_spec_no_match(self@, hostname@, path@);
        }
        None
    }
}

} // verus!
