use marreq::route_info::Method;
use marreq::routes::html::project::reqif::{
    error_item_html, errors_section_html, export_failure_redirect, render_import_reqif_page,
    reqif_import_config, reqif_result_html, routes,
};

#[test]
fn routes_returns_three_routes() {
    let r = routes();
    assert_eq!(r.len(), 3);
}

#[test]
fn routes_include_export_and_import() {
    let r = routes();
    let paths: Vec<String> = r.iter().map(|route| route.uri.to_string()).collect();
    let has_export = paths.iter().any(|p| p.contains("export_reqif"));
    let has_import = paths.iter().any(|p| p.contains("import_reqif"));
    assert!(
        has_export,
        "expected a route containing export_reqif, got {:?}",
        paths
    );
    assert!(
        has_import,
        "expected a route containing import_reqif, got {:?}",
        paths
    );
}

#[test]
fn export_route_is_get() {
    let r = routes();
    let export_route = r
        .iter()
        .find(|route| route.uri.to_string().contains("export_reqif"));
    assert!(export_route.is_some());
    assert_eq!(export_route.unwrap().method, Method::Get);
}

#[test]
fn process_import_route_is_post() {
    let r = routes();
    let process_route = r
        .iter()
        .find(|route| route.uri.to_string().contains("process"));
    assert!(process_route.is_some());
    assert_eq!(process_route.unwrap().method, Method::Post);
}

#[test]
fn import_reqif_route_has_error_query_param() {
    let r = routes();
    let import_page_route = r.iter().find(|route| {
        let u = route.uri.to_string();
        u.contains("import_reqif") && !u.contains("process")
    });
    assert!(
        import_page_route.is_some(),
        "import_reqif page route should exist"
    );
    let uri = import_page_route.unwrap().uri.to_string();
    assert!(
        uri.contains("error"),
        "import_reqif page should accept optional error query param, got uri: {}",
        uri
    );
}

#[test]
fn import_reqif_page_embeds_project() {
    let html = render_import_reqif_page("Alpha", 9, "");
    assert!(html.contains("<strong>Target Project:</strong> Alpha (ID: 9)"));
    assert!(html.contains("action=\"/p/9/import_reqif/process\""));
    assert!(html.contains("href=\"/p/9/requirements\""));
}

#[test]
fn error_items_and_section() {
    assert_eq!(error_item_html("bad"), "<li>bad</li>");
    assert_eq!(errors_section_html(&Vec::new()), "");
    let section = errors_section_html(&vec!["x".to_string(), "y".to_string()]);
    assert!(section.contains("<li>x</li><li>y</li>"));
}

#[test]
fn export_failure_goes_back_to_requirements() {
    assert_eq!(export_failure_redirect(4), "/p/4/requirements");
}

#[test]
fn import_config_takes_first_ids_or_defaults() {
    let c = reqif_import_config(3, 8, &vec![5, 6], &Vec::new(), &vec![9], &Vec::new(), &vec![2, 8]);
    assert_eq!(c.project_id, 3);
    assert_eq!(c.default_status_id, 5);
    assert_eq!(c.default_category_id, 1);
    assert_eq!(c.default_applicability_id, 9);
    assert_eq!(c.default_verification_method_id, 1);
    assert_eq!(c.author_id, 8);
    assert_eq!(c.reviewer_id, 2);
    let lone = reqif_import_config(3, 8, &Vec::new(), &Vec::new(), &Vec::new(), &Vec::new(), &Vec::new());
    assert_eq!(lone.reviewer_id, 8);
}

#[test]
fn result_page_reflects_outcome() {
    let ok = reqif_result_html(true, "All good", 4, &Vec::new(), 2);
    assert!(ok.contains("alert alert-success"));
    assert!(ok.contains("<strong>Import completed</strong>"));
    assert!(ok.contains("<strong>Records imported:</strong> 4"));
    assert!(!ok.contains("Errors:"));
    let partial = reqif_result_html(false, "Some failed", 1, &vec!["row 3".to_string()], 2);
    assert!(partial.contains("alert alert-warning"));
    assert!(partial.contains("Import completed with errors"));
    assert!(partial.contains("<li>row 3</li>"));
}
