use agent::route::{RouteMatchBuilder, RouteTable, Service};

#[test]
fn route_match_matches_hostname() {
    let rm = RouteMatchBuilder::new().hostname("example.com").build();
    assert!(rm.matches("example.com", "/foo/bar"));
    assert!(!rm.matches("other-example.com", "/foo/bar"));
}

#[test]
fn route_match_matches_path() {
    let rm = RouteMatchBuilder::new().path("/foo/bar").build();
    assert!(rm.matches("example.com", "/foo/bar"));
    assert!(!rm.matches("example.com", "/bar/baz"));
}

#[test]
fn route_match_matches_both() {
    let rm = RouteMatchBuilder::new()
        .hostname("example.com")
        .path("/foo/bar")
        .build();
    assert!(rm.matches("example.com", "/foo/bar"));
    assert!(!rm.matches("example.com", "/bar/baz"));
    assert!(!rm.matches("other-example.com", "/foo/bar"));
    assert!(!rm.matches("other-example.com", "/bar/baz"));
}

#[test]
fn route_match_neither_criterion_matches_nothing() {
    let rm = RouteMatchBuilder::new().build();
    assert!(!rm.matches("example.com", "/foo/bar"));
    assert!(!rm.matches("", ""));
}

#[test]
fn trivial_case() {
    let mut t = RouteTable::new();
    let s1 = Service::new("service1", 8080);
    let s2 = Service::new("service2", 8080);

    t.add(RouteMatchBuilder::new().hostname("example.org").build(), s1);
    t.add(
        RouteMatchBuilder::new().hostname("example.com").build(),
        s2.clone(),
    );

    let s = t.route("example.com", "/foo/bar");

    assert_eq!(Some(s2), s);
}

#[test]
fn test_first_entry_wins() {
    let mut t = RouteTable::new();
    let s1 = Service::new("service1", 8080);
    let s2 = Service::new("service2", 8080);
    let s3 = Service::new("service3", 8080);

    t.add(RouteMatchBuilder::new().hostname("example.org").build(), s1);
    t.add(
        RouteMatchBuilder::new()
            .hostname("example.com")
            .path("/foo/bar")
            .build(),
        s2.clone(),
    );
    t.add(
        RouteMatchBuilder::new()
            .hostname("example.com")
            .path("/foo/bar")
            .build(),
        s3,
    );

    let s = t.route("example.com", "/foo/bar");

    assert_eq!(Some(s2), s);
}

#[test]
fn test_remove_entry() {
    let mut t = RouteTable::new();
    let s1 = Service::new("service1", 8080);
    let s2 = Service::new("service2", 8080);
    let s3 = Service::new("service3", 8080);

    t.add(RouteMatchBuilder::new().hostname("example.org").build(), s1);
    t.add(
        RouteMatchBuilder::new().hostname("example2.com").build(),
        s2.clone(),
    );
    t.add(
        RouteMatchBuilder::new().hostname("example3.com").build(),
        s3,
    );
    t.add(
        RouteMatchBuilder::new().hostname("example4.com").build(),
        s2.clone(),
    );

    assert_eq!(4, t.len());
    assert_eq!(Some(s2.clone()), t.route("example2.com", "/foo/bar"));
    assert_eq!(Some(s2.clone()), t.route("example4.com", "/foo/bar"));

    t.remove(s2);

    assert_eq!(2, t.len());
    assert_eq!(None, t.route("example2.com", "/foo/bar"));
    assert_eq!(None, t.route("example4.com", "/foo/bar"));
}

#[test]
fn route_empty_table_routes_nowhere() {
    let t = RouteTable::new();
    assert_eq!(None, t.route("example.com", "/"));
}

#[test]
fn proxy_state_decides_from_its_table() {
    let mut state = agent::proxy::ProxyState::default();
    let upstream = Service::new("upstream", 3000);
    state
        .route_table
        .add(RouteMatchBuilder::new().hostname("app.example").build(), upstream);
    let decided = state.decide("app.example", "/anything");
    assert_eq!(3000, decided.unwrap().port());
    assert_eq!(None, state.decide("other.example", "/anything"));
}
