use agent_pipeline::factsheet::{
    clone_routes, contains_text, retain_static_get_routes, retain_surviving_urls, FactSheet,
    RouteObject,
};

fn route(method: &str, path: &str, is_route_dynamic: bool) -> RouteObject {
    RouteObject {
        is_route_dynamic,
        method: method.to_string(),
        request_body: serde_json::Value::Null,
        response: serde_json::Value::String(path.to_string()),
        route: path.to_string(),
    }
}

fn texts(items: &[&str]) -> Vec<String> {
    items.iter().map(|item| item.to_string()).collect()
}

#[test]
fn keeps_the_two_static_get_routes_of_five() {
    let routes = vec![
        route("get", "/items", false),
        route("post", "/items", false),
        route("get", "/items/{id}", true),
        route("get", "/health", false),
        route("post", "/login", false),
    ];
    let kept = retain_static_get_routes(&routes);
    assert_eq!(kept.len(), 2);
    assert_eq!(kept[0], routes[0]);
    assert_eq!(kept[1], routes[3]);
}

#[test]
fn kept_routes_are_whole_copies() {
    let mut first = route("get", "/weather", false);
    first.request_body = serde_json::Value::Bool(true);
    first.response = serde_json::Value::Array(vec![serde_json::Value::Null]);
    let kept = retain_static_get_routes(&vec![first.clone()]);
    assert_eq!(kept, vec![first]);
}

#[test]
fn no_route_is_kept_of_none() {
    assert_eq!(retain_static_get_routes(&Vec::new()), Vec::new());
}

#[test]
fn a_dynamic_get_route_is_dropped() {
    assert!(!route("get", "/items/{id}", true).is_static_get());
    assert!(route("get", "/items", false).is_static_get());
}

#[test]
fn the_method_is_compared_letter_for_letter() {
    assert!(!route("GET", "/items", false).is_static_get());
    assert!(!route("get ", "/items", false).is_static_get());
    assert!(!route("post", "/items", false).is_static_get());
    assert!(!route("", "/items", false).is_static_get());
}

#[test]
fn a_copy_of_a_route_equals_it() {
    let first = route("delete", "/items/{id}", true);
    assert_eq!(first.duplicate(), first);
}

#[test]
fn the_url_in_the_middle_leaves() {
    let urls = texts(&["https://a.example", "https://b.example", "https://c.example"]);
    let kept = retain_surviving_urls(&urls, &texts(&["https://b.example"]));
    assert_eq!(kept, texts(&["https://a.example", "https://c.example"]));
}

#[test]
fn every_copy_of_an_excluded_url_leaves() {
    let urls = texts(&["a", "b", "a", "c", "a"]);
    assert_eq!(retain_surviving_urls(&urls, &texts(&["a"])), texts(&["b", "c"]));
}

#[test]
fn nothing_excluded_keeps_the_list() {
    let urls = texts(&["c", "a", "b"]);
    assert_eq!(retain_surviving_urls(&urls, &Vec::new()), urls);
}

#[test]
fn an_excluded_url_that_is_not_listed_changes_nothing() {
    let urls = texts(&["a", "b"]);
    assert_eq!(retain_surviving_urls(&urls, &texts(&["z"])), urls);
}

#[test]
fn all_excluded_leaves_an_empty_list() {
    let urls = texts(&["a", "b"]);
    assert_eq!(retain_surviving_urls(&urls, &texts(&["b", "a", "b"])), Vec::<String>::new());
}

#[test]
fn contains_text_finds_an_equal_text() {
    let list = texts(&["a", "bb", "ccc"]);
    assert!(contains_text(&list, &"bb".to_string()));
    assert!(!contains_text(&list, &"b".to_string()));
    assert!(!contains_text(&Vec::new(), &"a".to_string()));
}

#[test]
fn a_new_document_holds_the_description_only() {
    let document = FactSheet::new("build a site with a login page".to_string());
    assert_eq!(document.project_description, "build a site with a login page");
    assert_eq!(document.project_scope, None);
    assert_eq!(document.external_url, None);
    assert_eq!(document.backend_code, None);
    assert_eq!(document.api_endpoint_schema, None);
}

#[test]
fn a_copy_of_a_document_equals_it() {
    let mut document = FactSheet::new("build a todo list".to_string());
    assert_eq!(document.duplicate(), document);
    document.external_url = Some(texts(&["a", "b"]));
    document.backend_code = Some("fn main() {}".to_string());
    document.api_endpoint_schema = Some(vec![route("get", "/a", false), route("put", "/b", true)]);
    assert_eq!(document.duplicate(), document);
    assert_eq!(clone_routes(&Vec::new()), Vec::new());
}
