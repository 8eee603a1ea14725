use dayax::route::{path_starts_with_slash, MethodFilter, Route, RouteError};
use dayax::userdata;
use dayax::Dayax;

fn route(method: MethodFilter, path: &str, callback: usize) -> Route {
    Route { method, path: path.to_string(), callback }
}

#[test]
fn new_router_is_empty() {
    assert!(Dayax::new().routes().is_empty());
    assert!(userdata::Dayax::new().routes().is_empty());
}

#[test]
fn verbs_register_in_order() {
    let mut d = Dayax::new();
    d.get("/".to_string(), 0);
    d.head("/h".to_string(), 1);
    d.post("/p".to_string(), 2);
    d.put("/u".to_string(), 3);
    d.patch("/a".to_string(), 4);
    d.delete("/d".to_string(), 5);
    d.any("/*rest".to_string(), 6);
    assert_eq!(
        d.routes(),
        &vec![
            route(MethodFilter::Get, "/", 0),
            route(MethodFilter::Head, "/h", 1),
            route(MethodFilter::Post, "/p", 2),
            route(MethodFilter::Put, "/u", 3),
            route(MethodFilter::Patch, "/a", 4),
            route(MethodFilter::Delete, "/d", 5),
            route(MethodFilter::Any, "/*rest", 6),
        ]
    );
}

#[test]
fn route_with_filter() {
    let mut d = Dayax::new();
    d.route("/x".to_string(), MethodFilter::Put, 9);
    assert_eq!(d.routes(), &vec![route(MethodFilter::Put, "/x", 9)]);
}

#[test]
fn method_names_are_case_insensitive() {
    let mut d = userdata::Dayax::new();
    let key = d.route("get", "/".to_string(), 0);
    assert_eq!(key, "DAYAX+request+GET+/");
    d.route("Delete", "/d".to_string(), 1);
    d.route("pAtCh", "/p".to_string(), 2);
    assert_eq!(
        d.routes(),
        &vec![
            route(MethodFilter::Get, "/", 0),
            route(MethodFilter::Delete, "/d", 1),
            route(MethodFilter::Patch, "/p", 2),
        ]
    );
}

#[test]
fn unknown_method_names_answer_every_method() {
    let mut d = userdata::Dayax::new();
    let key = d.route("head", "/h".to_string(), 0);
    assert_eq!(key, "DAYAX+request+HEAD+/h");
    d.route("options", "/o".to_string(), 1);
    assert_eq!(d.routes()[0].method, MethodFilter::Any);
    assert_eq!(d.routes()[1].method, MethodFilter::Any);
}

#[test]
fn userdata_verbs() {
    let mut d = userdata::Dayax::new();
    assert_eq!(d.get("/g".to_string(), 0), "DAYAX+request+GET+/g");
    assert_eq!(d.post("/p".to_string(), 1), "DAYAX+request+POST+/p");
    assert_eq!(d.put("/u".to_string(), 2), "DAYAX+request+PUT+/u");
    assert_eq!(d.patch("/a".to_string(), 3), "DAYAX+request+PATCH+/a");
    assert_eq!(d.delete("/d".to_string(), 4), "DAYAX+request+DELETE+/d");
    let methods: Vec<MethodFilter> = d.routes().iter().map(|r| r.method).collect();
    assert_eq!(
        methods,
        vec![
            MethodFilter::Get,
            MethodFilter::Post,
            MethodFilter::Put,
            MethodFilter::Patch,
            MethodFilter::Delete
        ]
    );
}

#[test]
fn method_filter_names() {
    assert_eq!(userdata::method_filter_for(&"GET".to_string()), MethodFilter::Get);
    assert_eq!(userdata::method_filter_for(&"get".to_string()), MethodFilter::Any);
    assert_eq!(userdata::method_filter_for(&"POST".to_string()), MethodFilter::Post);
}

#[test]
fn paths_must_start_with_a_slash() {
    assert!(path_starts_with_slash("/"));
    assert!(!path_starts_with_slash(""));
    assert!(!path_starts_with_slash("a"));
    let mut d = Dayax::new();
    assert_eq!(d.try_route("a".to_string(), MethodFilter::Get, 0), Err(RouteError::InvalidPath));
    assert_eq!(d.try_route("".to_string(), MethodFilter::Get, 0), Err(RouteError::InvalidPath));
    assert!(d.routes().is_empty());
    let mut u = userdata::Dayax::new();
    assert_eq!(u.try_route("get", "x".to_string(), 0), Err(RouteError::InvalidPath));
    assert!(u.routes().is_empty());
}

#[test]
fn overlapping_methods_are_refused() {
    let mut d = Dayax::new();
    assert_eq!(d.try_route("/".to_string(), MethodFilter::Get, 0), Ok(()));
    assert_eq!(d.try_route("/".to_string(), MethodFilter::Get, 1), Err(RouteError::OverlappingMethod));
    assert_eq!(d.try_route("/".to_string(), MethodFilter::Any, 1), Err(RouteError::OverlappingMethod));
    assert_eq!(d.try_route("/".to_string(), MethodFilter::Post, 1), Ok(()));
    assert_eq!(d.try_route("/other".to_string(), MethodFilter::Get, 2), Ok(()));
    assert_eq!(d.routes().len(), 3);
    let mut a = Dayax::new();
    assert_eq!(a.try_route("/".to_string(), MethodFilter::Any, 0), Ok(()));
    assert_eq!(a.try_route("/".to_string(), MethodFilter::Head, 1), Err(RouteError::OverlappingMethod));
}

#[test]
fn fallback_routes_only_collide_with_fallbacks() {
    let mut u = userdata::Dayax::new();
    assert!(u.try_route("get", "/".to_string(), 0).is_ok());
    assert_eq!(u.try_route("GET", "/".to_string(), 1), Err(RouteError::OverlappingMethod));
    assert!(u.try_route("options", "/".to_string(), 1).is_ok());
    assert_eq!(u.try_route("head", "/".to_string(), 2), Err(RouteError::OverlappingMethod));
    assert_eq!(u.routes().len(), 2);
}

#[test]
fn clones_keep_the_routes() {
    let mut d = Dayax::new();
    d.get("/".to_string(), 0);
    assert_eq!(d.clone().routes(), d.routes());
    let mut u = userdata::Dayax::new();
    u.get("/".to_string(), 0);
    assert_eq!(u.clone().routes(), u.routes());
}
