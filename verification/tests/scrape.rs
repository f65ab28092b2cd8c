use padm_exporter::config::schema::{Config, Target};
use padm_exporter::server::scrape::{
    find_target, find_value, route, route_pairs, target_ids, unknown_target_message, Route,
    CONTENT_TYPE,
};

fn ids() -> Vec<String> {
    vec!["rack-a".to_string(), "rack b".to_string(), "rack-a".to_string()]
}

#[test]
fn other_methods_are_not_allowed() {
    let route = route("POST", "/padm", "target=rack-a", &ids());
    assert!(matches!(route, Route::MethodNotAllowed));
    assert_eq!(route.status(), 405);
    assert!(matches!(route_to("get", "/padm", "target=rack-a"), Route::MethodNotAllowed));
    assert!(matches!(route_to("PUT", "/other", ""), Route::MethodNotAllowed));
}

fn route_to(method: &str, path: &str, query: &str) -> Route {
    route(method, path, query, &ids())
}

#[test]
fn other_paths_are_not_found() {
    let route = route_to("GET", "/metrics", "target=rack-a");
    assert!(matches!(route, Route::NotFound));
    assert_eq!(route.status(), 404);
    assert!(matches!(route_to("GET", "/padm/", "target=rack-a"), Route::NotFound));
    assert!(matches!(route_to("GET", "", ""), Route::NotFound));
}

#[test]
fn query_without_target_is_a_bad_request() {
    let route = route_to("GET", "/padm", "");
    assert!(matches!(route, Route::BadRequest));
    assert_eq!(route.status(), 400);
    assert!(matches!(route_to("GET", "/padm", "module=x&Target=rack-a"), Route::BadRequest));
}

#[test]
fn unknown_target_is_named() {
    let route = route_to("GET", "/padm", "target=rack-c");
    assert!(matches!(&route, Route::UnknownTarget(id) if id == "rack-c"));
    assert_eq!(route.status(), 404);
    assert_eq!(unknown_target_message("rack-c"), "requested target rack-c not found.");
    assert!(matches!(route_to("GET", "/padm", "target="), Route::UnknownTarget(id) if id.is_empty()));
}

#[test]
fn scrape_resolves_the_target() {
    let route = route_to("GET", "/padm", "target=rack-a");
    assert!(matches!(route, Route::Scrape(2)));
    assert_eq!(route.status(), 200);
    assert!(matches!(route_to("GET", "/padm", "x=1&target=rack+b&target=rack-a"), Route::Scrape(1)));
    assert!(matches!(route_to("GET", "/padm", "target=rack%20b"), Route::Scrape(1)));
    assert!(matches!(route_to("GET", "/padm", "&&target=rack%2Da"), Route::Scrape(2)));
}

#[test]
fn routing_on_given_pairs() {
    let pairs = vec![
        ("a".to_string(), "1".to_string()),
        ("target".to_string(), "rack b".to_string()),
        ("target".to_string(), "rack-a".to_string()),
    ];
    assert!(matches!(route_pairs("GET", "/padm", &pairs, &ids()), Route::Scrape(1)));
    assert!(matches!(route_pairs("GET", "/padm", &Vec::new(), &ids()), Route::BadRequest));
    assert!(matches!(route_pairs("GET", "/padm", &pairs, &Vec::new()), Route::UnknownTarget(_)));
    assert_eq!(find_value(&pairs, "target"), Some("rack b".to_string()));
    assert_eq!(find_value(&pairs, "a"), Some("1".to_string()));
    assert_eq!(find_value(&pairs, "b"), None);
}

#[test]
fn last_target_of_an_identifier_counts() {
    assert_eq!(find_target(&ids(), "rack-a"), Some(2));
    assert_eq!(find_target(&ids(), "rack b"), Some(1));
    assert_eq!(find_target(&ids(), "rack"), None);
    assert_eq!(find_target(&Vec::new(), "rack-a"), None);
}

#[test]
fn targets_are_scraped_by_host() {
    let target = |host: &str, port: Option<u16>| {
        Target::new(host.to_string(), port, None, None, None, "u".to_string(), "p".to_string(), None)
    };
    let config =
        Config::new(None, None, None, vec![target("rack-a", Some(8443)), target("rack-b", None)]);
    assert_eq!(target_ids(&config), vec!["rack-a".to_string(), "rack-b".to_string()]);
    assert!(target_ids(&Config::new(None, None, None, Vec::new())).is_empty());
}

#[test]
fn content_type_of_the_exposition() {
    assert_eq!(CONTENT_TYPE, "text/plain; version=0.0.4; charset=utf-8");
}

#[test]
fn scrape_place_is_a_place_in_the_list() {
    for query in ["target=rack-a", "target=rack+b", "target=rack-c", "x=1"] {
        if let Route::Scrape(index) = route("GET", "/padm", query, &ids()) {
            assert!(index < ids().len());
        }
    }
    assert!(!matches!(route("GET", "/padm", "target=rack-a", &Vec::new()), Route::Scrape(_)));
}
