use marreq::route_info::Method;
use marreq::routes::html::routes;

#[test]
fn routes_non_empty() {
    let r = routes();
    assert!(!r.is_empty());
}

#[test]
fn routes_include_login_and_logs() {
    let r = routes();
    let uris: Vec<String> = r.iter().map(|route| route.uri.to_string()).collect();
    assert!(
        uris.iter().any(|u| u.contains("login")),
        "expected login route, got {:?}",
        uris
    );
    assert!(
        uris.iter().any(|u| u.contains("logs")),
        "expected logs route, got {:?}",
        uris
    );
}

#[test]
fn routes_include_import_excel() {
    let r = routes();
    let uris: Vec<String> = r.iter().map(|route| route.uri.to_string()).collect();
    assert!(
        uris.iter().any(|u| u.contains("import_excel")),
        "expected import_excel route, got {:?}",
        uris
    );
}

#[test]
fn login_routes_have_their_methods() {
    let r = routes();
    assert_eq!(r[0].uri, "/login?<error>");
    assert_eq!(r[0].method, Method::Get);
    assert_eq!(r[0].name, "login_page");
    assert_eq!(r[1].uri, "/login");
    assert_eq!(r[1].method, Method::Post);
}
