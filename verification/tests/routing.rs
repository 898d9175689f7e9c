use hyper_routing::Method;
use hyper_routing::Path;
use hyper_routing::Route;
use hyper_routing::RouteBuilder;
use hyper_routing::Router;
use hyper_routing::RouterBuilder;
use hyper_routing::StatusOutcome;

fn table(routes: Vec<Route<u32>>) -> Router<u32> {
    let mut builder = RouterBuilder::new();
    for route in routes {
        builder = builder.add(route);
    }
    builder.build()
}

fn route(method: Method, pattern: &str, handler: u32) -> Route<u32> {
    RouteBuilder::try_from(method, pattern)
        .expect("pattern must be a valid regular expression")
        .using(handler)
}

#[test]
fn scenario_hello_world() {
    let router = table(vec![
        route(Method::Get, "/hello", 1),
        route(Method::Patch, "/world", 2),
    ]);
    assert_eq!(router.find_handler("/hello", &Method::Get), StatusOutcome::Handler(1));
    assert_eq!(router.find_handler("/hello", &Method::Post), StatusOutcome::MethodNotAllowed);
    assert_eq!(router.find_handler("/missing", &Method::Get), StatusOutcome::NotFound);
    assert_eq!(router.find_handler("/world", &Method::Patch), StatusOutcome::Handler(2));
}

#[test]
fn duplicate_route_first_added_wins() {
    let router = table(vec![
        route(Method::Get, "/dup", 1),
        route(Method::Get, "/dup", 2),
    ]);
    assert_eq!(router.find_handler("/dup", &Method::Get), StatusOutcome::Handler(1));
}

#[test]
fn earlier_route_with_other_method_is_skipped() {
    let router = table(vec![
        route(Method::Get, "/x", 1),
        route(Method::Post, "/x", 2),
    ]);
    assert_eq!(router.find_handler("/x", &Method::Post), StatusOutcome::Handler(2));
    assert_eq!(router.find_handler("/x", &Method::Get), StatusOutcome::Handler(1));
}

#[test]
fn no_route_at_all_is_not_found_for_every_method() {
    let router = table(vec![]);
    assert_eq!(router.find_handler("/", &Method::Get), StatusOutcome::NotFound);
    assert_eq!(router.find_handler("/", &Method::Delete), StatusOutcome::NotFound);
}

#[test]
fn method_not_allowed_when_only_methods_differ() {
    let router = table(vec![
        route(Method::Put, "/thing", 7),
        route(Method::Delete, "/thing", 8),
    ]);
    assert_eq!(router.find_handler("/thing", &Method::Get), StatusOutcome::MethodNotAllowed);
}

#[test]
fn find_is_idempotent() {
    let router = table(vec![
        route(Method::Get, "/a", 1),
        route(Method::Post, "/b", 2),
    ]);
    for _ in 0..3 {
        assert_eq!(router.find_handler("/a", &Method::Get), StatusOutcome::Handler(1));
        assert_eq!(router.find_handler("/b", &Method::Get), StatusOutcome::MethodNotAllowed);
        assert_eq!(router.find_handler("/c", &Method::Get), StatusOutcome::NotFound);
    }
}

#[test]
fn matching_routes_keep_registration_order() {
    let router = table(vec![
        route(Method::Get, "/a.*", 1),
        route(Method::Get, "/ab", 2),
        route(Method::Get, "/zzz", 3),
    ]);
    let matching = router.find_matching_routes("/ab");
    assert_eq!(matching.len(), 2);
    assert_eq!(matching[0].handler, 1);
    assert_eq!(matching[1].handler, 2);
}

#[test]
fn find_handler_with_defaults_always_yields_a_handler() {
    let router = table(vec![route(Method::Get, "/here", 1)]);
    assert_eq!(router.find_handler_with_defaults("/here", &Method::Get, 404, 405), 1);
    assert_eq!(router.find_handler_with_defaults("/gone", &Method::Get, 404, 405), 404);
    assert_eq!(router.find_handler_with_defaults("/here", &Method::Post, 404, 405), 405);
}

#[test]
fn pattern_matches_anywhere_unless_anchored() {
    let loose = Path::try_new("/user").expect("valid pattern");
    assert!(loose.is_match("/user"));
    assert!(loose.is_match("/user123"));
    assert!(loose.is_match("/api/user"));

    let anchored = Path::try_new("^/user$").expect("valid pattern");
    assert!(anchored.is_match("/user"));
    assert!(!anchored.is_match("/user123"));
    assert!(!anchored.is_match("/api/user"));
}

#[test]
fn invalid_pattern_is_rejected_at_construction() {
    assert!(Path::try_new("(").is_none());
    assert!(Path::try_new("[a-z").is_none());
    assert!(Path::try_new("[a-z]+").is_some());
    assert!(RouteBuilder::try_from(Method::Get, "(").is_none());
}

#[test]
fn route_builder_binds_method_pattern_and_handler() {
    let builder = RouteBuilder::try_from(Method::Head, "/h").expect("valid pattern");
    assert_eq!(builder.method, Method::Head);
    let built = builder.using(9u32);
    assert_eq!(built.method, Method::Head);
    assert_eq!(built.handler, 9);
    assert!(built.path.is_match("/h"));
}

#[test]
fn every_verb_routes_by_value_equality() {
    let methods = [
        Method::Get,
        Method::Post,
        Method::Put,
        Method::Patch,
        Method::Delete,
        Method::Head,
        Method::Options,
        Method::Trace,
        Method::Connect,
    ];
    let mut routes = Vec::new();
    for (k, method) in methods.iter().enumerate() {
        routes.push(route(*method, "^/m$", k as u32));
    }
    let router = table(routes);
    for (k, method) in methods.iter().enumerate() {
        assert_eq!(router.find_handler("/m", method), StatusOutcome::Handler(k as u32));
    }
}
