use vstd::prelude::*;

use crate::route_info::{route, route_view, route_views, Method, RouteInfo, RouteView};
use crate::routes::html::excel::concatenated;
use crate::text::{int_decimal, nat_decimal, push_decimal, push_int, push_str};

verus! {

/// The routes this module serves, in mounting order: method, path pattern
/// and handler name.
pub open spec fn route_table() -> Seq<RouteView> {
    seq![
        route_view(Method::Get, "/<project_id>/export_reqif?<baseline_id>"@, "export_reqif"@),
        route_view(Method::Get, "/<project_id>/import_reqif?<error>"@, "import_reqif_page"@),
        route_view(Method::Post, "/<project_id>/import_reqif/process"@, "process_reqif_import"@),
    ]
}

/// The routes of this module, in the order they are mounted.
pub fn routes() -> (r: Vec<RouteInfo>)
    ensures
        route_views(r@) == route_table(),
{
    let mut r: Vec<RouteInfo> = Vec::new();
    r.push(route(Method::Get, "/<project_id>/export_reqif?<baseline_id>", "export_reqif"));
    r.push(route(Method::Get, "/<project_id>/import_reqif?<error>", "import_reqif_page"));
    r.push(route(Method::Post, "/<project_id>/import_reqif/process", "process_reqif_import"));
    assert(route_views(r@) =~= route_table());
    r
}

/// The text of the ReqIF import page of a project (`error_html` is shown above the form).
pub open spec fn import_reqif_page_text(name: Seq<char>, project_id: i32, error_html: Seq<char>) -> Seq<char> {
    "<!doctype html>\n<html lang=\"en\">\n<head>\n    <title>ReqMan - Import ReqIF</title>\n    <meta charset=\"utf-8\">\n    <meta name=\"viewport\" content=\"width=device-width, initial-scale=1\">\n    <link href=\"https://cdn.jsdelivr.net/npm/bootstrap@5.3.0/dist/css/bootstrap.min.css\" rel=\"stylesheet\">\n    <link rel=\"stylesheet\" href=\"/static/reqman.css\">\n</head>\n<body>\n    <div class=\"container mt-4\">\n        <div class=\"row\">\n            <div class=\"col-md-8 offset-md-2\">\n                <div class=\"card\">\n                    <div class=\"card-header\">\n                        <h3>Import ReqIF</h3>\n                    </div>\n                    <div class=\"card-body\">\n                        <div class=\"alert alert-info\">\n                            <strong>Target Project:</strong> "@ + name + " (ID: "@ + int_decimal(project_id as int) + ")\n                            <br>\n                            <small class=\"text-muted\">Requirements will be imported from the ReqIF file into this project.</small>\n                        </div>\n                        "@ + error_html + "\n                        <p>Upload a ReqIF 1.2 file to import requirements into the selected project.</p>\n                        <form action=\"/p/"@ + int_decimal(project_id as int) + "/import_reqif/process\" method=\"post\" enctype=\"multipart/form-data\">\n                            <div class=\"mb-3\">\n                                <label for=\"reqif_file\" class=\"form-label\">Select ReqIF file</label>\n                                <input type=\"file\" class=\"form-control\" id=\"reqif_file\" name=\"file\" accept=\".reqif,.xml\" required>\n                                <div class=\"form-text\">Supported: .reqif, .xml (ReqIF 1.2)</div>\n                            </div>\n                            <div class=\"mt-3\">\n                                <button type=\"submit\" class=\"btn btn-primary\">Import</button>\n                                <a href=\"/p/"@ + int_decimal(project_id as int) + "/requirements\" class=\"btn btn-secondary\">Cancel</a>\n                            </div>\n                        </form>\n                    </div>\n                </div>\n            </div>\n        </div>\n    </div>\n</body>\n</html>"@
}

/// Renders the ReqIF import page of a project (`error_html` is shown above the form).
pub fn render_import_reqif_page(name: &str, project_id: i32, error_html: &str) -> (r: String)
    ensures
        r@ == import_reqif_page_text(name@, project_id, error_html@),
{
    let mut r = String::new();
    push_str(&mut r, "<!doctype html>\n<html lang=\"en\">\n<head>\n    <title>ReqMan - Import ReqIF</title>\n    <meta charset=\"utf-8\">\n    <meta name=\"viewport\" content=\"width=device-width, initial-scale=1\">\n    <link href=\"https://cdn.jsdelivr.net/npm/bootstrap@5.3.0/dist/css/bootstrap.min.css\" rel=\"stylesheet\">\n    <link rel=\"stylesheet\" href=\"/static/reqman.css\">\n</head>\n<body>\n    <div class=\"container mt-4\">\n        <div class=\"row\">\n            <div class=\"col-md-8 offset-md-2\">\n                <div class=\"card\">\n                    <div class=\"card-header\">\n                        <h3>Import ReqIF</h3>\n                    </div>\n                    <div class=\"card-body\">\n                        <div class=\"alert alert-info\">\n                            <strong>Target Project:</strong> ");
    push_str(&mut r, name);
    push_str(&mut r, " (ID: ");
    push_int(&mut r, project_id as i64);
    push_str(&mut r, ")\n                            <br>\n                            <small class=\"text-muted\">Requirements will be imported from the ReqIF file into this project.</small>\n                        </div>\n                        ");
    push_str(&mut r, error_html);
    push_str(&mut r, "\n                        <p>Upload a ReqIF 1.2 file to import requirements into the selected project.</p>\n                        <form action=\"/p/");
    push_int(&mut r, project_id as i64);
    push_str(&mut r, "/import_reqif/process\" method=\"post\" enctype=\"multipart/form-data\">\n                            <div class=\"mb-3\">\n                                <label for=\"reqif_file\" class=\"form-label\">Select ReqIF file</label>\n                                <input type=\"file\" class=\"form-control\" id=\"reqif_file\" name=\"file\" accept=\".reqif,.xml\" required>\n                                <div class=\"form-text\">Supported: .reqif, .xml (ReqIF 1.2)</div>\n                            </div>\n                            <div class=\"mt-3\">\n                                <button type=\"submit\" class=\"btn btn-primary\">Import</button>\n                                <a href=\"/p/");
    push_int(&mut r, project_id as i64);
    push_str(&mut r, "/requirements\" class=\"btn btn-secondary\">Cancel</a>\n                            </div>\n                        </form>\n                    </div>\n                </div>\n            </div>\n        </div>\n    </div>\n</body>\n</html>");
    assert(r@ =~= import_reqif_page_text(name@, project_id, error_html@));
    r
}

/// The text of the result page of a ReqIF import.
pub open spec fn reqif_result_text(alert_kind: Seq<char>, heading: Seq<char>, message: Seq<char>, imported_count: usize, errors_section: Seq<char>, project_id: i32) -> Seq<char> {
    "<!doctype html>\n<html lang=\"en\">\n<head>\n    <title>ReqMan - ReqIF Import Result</title>\n    <meta charset=\"utf-8\">\n    <meta name=\"viewport\" content=\"width=device-width, initial-scale=1\">\n    <link href=\"https://cdn.jsdelivr.net/npm/bootstrap@5.3.0/dist/css/bootstrap.min.css\" rel=\"stylesheet\">\n    <link rel=\"stylesheet\" href=\"/static/reqman.css\">\n</head>\n<body>\n    <div class=\"container mt-4\">\n        <div class=\"row\">\n            <div class=\"col-md-8 offset-md-2\">\n                <div class=\"card\">\n                    <div class=\"card-header\">\n                        <h3>ReqIF Import Result</h3>\n                    </div>\n                    <div class=\"card-body\">\n                        <div class=\"alert alert-"@ + alert_kind + "\">\n                            <strong>"@ + heading + "</strong>\n                            <p class=\"mb-0\">"@ + message + "</p>\n                            <p class=\"mb-0\"><strong>Records imported:</strong> "@ + nat_decimal(imported_count as nat) + "</p>\n                        </div>\n                        "@ + errors_section + "\n                        <a href=\"/p/"@ + int_decimal(project_id as int) + "/requirements\" class=\"btn btn-primary\">View requirements</a>\n                        <a href=\"/p/"@ + int_decimal(project_id as int) + "/import_reqif\" class=\"btn btn-outline-primary\">Import another file</a>\n                    </div>\n                </div>\n            </div>\n        </div>\n    </div>\n</body>\n</html>"@
}

/// Renders the result page of a ReqIF import.
pub fn render_reqif_result_page(alert_kind: &str, heading: &str, message: &str, imported_count: usize, errors_section: &str, project_id: i32) -> (r: String)
    ensures
        r@ == reqif_result_text(alert_kind@, heading@, message@, imported_count, errors_section@, project_id),
{
    let mut r = String::new();
    push_str(&mut r, "<!doctype html>\n<html lang=\"en\">\n<head>\n    <title>ReqMan - ReqIF Import Result</title>\n    <meta charset=\"utf-8\">\n    <meta name=\"viewport\" content=\"width=device-width, initial-scale=1\">\n    <link href=\"https://cdn.jsdelivr.net/npm/bootstrap@5.3.0/dist/css/bootstrap.min.css\" rel=\"stylesheet\">\n    <link rel=\"stylesheet\" href=\"/static/reqman.css\">\n</head>\n<body>\n    <div class=\"container mt-4\">\n        <div class=\"row\">\n            <div class=\"col-md-8 offset-md-2\">\n                <div class=\"card\">\n                    <div class=\"card-header\">\n                        <h3>ReqIF Import Result</h3>\n                    </div>\n                    <div class=\"card-body\">\n                        <div class=\"alert alert-");
    push_str(&mut r, alert_kind);
    push_str(&mut r, "\">\n                            <strong>");
    push_str(&mut r, heading);
    push_str(&mut r, "</strong>\n                            <p class=\"mb-0\">");
    push_str(&mut r, message);
    push_str(&mut r, "</p>\n                            <p class=\"mb-0\"><strong>Records imported:</strong> ");
    push_decimal(&mut r, imported_count as u64);
    push_str(&mut r, "</p>\n                        </div>\n                        ");
    push_str(&mut r, errors_section);
    push_str(&mut r, "\n                        <a href=\"/p/");
    push_int(&mut r, project_id as i64);
    push_str(&mut r, "/requirements\" class=\"btn btn-primary\">View requirements</a>\n                        <a href=\"/p/");
    push_int(&mut r, project_id as i64);
    push_str(&mut r, "/import_reqif\" class=\"btn btn-outline-primary\">Import another file</a>\n                    </div>\n                </div>\n            </div>\n        </div>\n    </div>\n</body>\n</html>");
    assert(r@ =~= reqif_result_text(alert_kind@, heading@, message@, imported_count, errors_section@, project_id));
    r
}

/// The text of one error of an import, as a list item.
pub open spec fn error_item_text(error: Seq<char>) -> Seq<char> {
    "<li>"@ + error + "</li>"@
}

/// Renders one error of an import, as a list item.
pub fn error_item_html(error: &str) -> (r: String)
    ensures
        r@ == error_item_text(error@),
{
    let mut r = String::new();
    push_str(&mut r, "<li>");
    push_str(&mut r, error);
    push_str(&mut r, "</li>");
    assert(r@ =~= error_item_text(error@));
    r
}

/// The first id of a list, or `fallback` when it is empty.
pub open spec fn first_or(ids: Seq<i32>, fallback: i32) -> i32 {
    if ids.len() > 0 {
        ids[0]
    } else {
        fallback
    }
}

fn first_or_exec(ids: &Vec<i32>, fallback: i32) -> (r: i32)
    ensures
        r == first_or(ids@, fallback),
{
    if ids.len() > 0 {
        ids[0]
    } else {
        fallback
    }
}

/// The defaults a ReqIF import gives requirements that lack them.
#[derive(Clone, Copy, Debug, PartialEq, Eq, Structural)]
pub struct ReqifImportConfig {
    pub project_id: i32,
    pub default_status_id: i32,
    pub default_category_id: i32,
    pub default_applicability_id: i32,
    pub default_verification_method_id: i32,
    pub author_id: i32,
    pub reviewer_id: i32,
}

/// The import defaults of a project: its first status, category,
/// applicability and verification method (1 where it has none), the
/// importing user as author, and the project's first user (else the
/// importing user) as the assigned checker. A list that could not be loaded is empty.
pub fn reqif_import_config(
    project_id: i32,
    user_id: i32,
    status_ids: &Vec<i32>,
    category_ids: &Vec<i32>,
    applicability_ids: &Vec<i32>,
    verification_ids: &Vec<i32>,
    user_ids: &Vec<i32>,
) -> (c: ReqifImportConfig)
    ensures
        c.project_id == project_id,
        c.default_status_id == first_or(status_ids@, 1),
        c.default_category_id == first_or(category_ids@, 1),
        c.default_applicability_id == first_or(applicability_ids@, 1),
        c.default_verification_method_id == first_or(verification_ids@, 1),
        c.author_id == user_id,
        c.reviewer_id == first_or(user_ids@, user_id),
{
    ReqifImportConfig {
        project_id,
        default_status_id: first_or_exec(status_ids, 1),
        default_category_id: first_or_exec(category_ids, 1),
        default_applicability_id: first_or_exec(applicability_ids, 1),
        default_verification_method_id: first_or_exec(verification_ids, 1),
        author_id: user_id,
        reviewer_id: first_or_exec(user_ids, user_id),
    }
}

/// The error section of the result page: nothing without errors, else the
/// errors as a list in a grey alert.
pub open spec fn errors_section_text(errors: Seq<Seq<char>>) -> Seq<char> {
    if errors.len() == 0 {
        Seq::empty()
    } else {
        "<div class=\"alert alert-secondary\"><strong>Errors:</strong>"@ + "<ul class=\"list-unstyled\">"@
            + concatenated(errors.map_values(|e: Seq<char>| error_item_text(e))) + "</ul>"@ + "</div>"@
    }
}

/// Exec form of `errors_section_text`.
pub fn errors_section_html(errors: &Vec<String>) -> (r: String)
    ensures
        r@ == errors_section_text(errors@.map_values(|e: String| e@)),
{
    let ghost views = errors@.map_values(|e: String| e@);
    if errors.len() == 0 {
        return String::new();
    }
    let ghost items = views.map_values(|e: Seq<char>| error_item_text(e));
    let mut list = String::new();
    let mut i: usize = 0;
    while i < errors.len()
        invariant
            i <= errors@.len(),
            views == errors@.map_values(|e: String| e@),
            items == views.map_values(|e: Seq<char>| error_item_text(e)),
            list@ == concatenated(items.take(i as int)),
        decreases errors.len() - i,
    {
        let item = error_item_html(errors[i].as_str());
        push_str(&mut list, item.as_str());
        i = i + 1;
        assert(items.take(i as int).drop_last() =~= items.take(i - 1));
    }
    assert(items.take(i as int) =~= items);
    let mut r = String::from_str("<div class=\"alert alert-secondary\"><strong>Errors:</strong>");
    push_str(&mut r, "<ul class=\"list-unstyled\">");
    push_str(&mut r, list.as_str());
    push_str(&mut r, "</ul>");
    push_str(&mut r, "</div>");
    r
}

/// The result page of a ReqIF import: a green alert when it succeeded and a
/// yellow one when it completed with errors, the service's message, the
/// number of records imported and the errors.
pub fn reqif_result_html(
    success: bool,
    message: &str,
    imported_count: usize,
    errors: &Vec<String>,
    project_id: i32,
) -> (r: String)
    ensures
        r@ == reqif_result_text(
            if success {
                "success"@
            } else {
                "warning"@
            },
            if success {
                "Import completed"@
            } else {
                "Import completed with errors"@
            },
            message@,
            imported_count,
            errors_section_text(errors@.map_values(|e: String| e@)),
            project_id,
        ),
{
    let section = errors_section_html(errors);
    let kind = if success {
        "success"
    } else {
        "warning"
    };
    let heading = if success {
        "Import completed"
    } else {
        "Import completed with errors"
    };
    render_reqif_result_page(kind, heading, message, imported_count, section.as_str(), project_id)
}

/// Where a failed export sends the user: the project's requirement list.
pub fn export_failure_redirect(project_id: i32) -> (r: String)
    ensures
        r@ == "/p/"@ + int_decimal(project_id as int) + "/requirements"@,
{
    let mut r = String::from_str("/p/");
    push_int(&mut r, project_id as i64);
    push_str(&mut r, "/requirements");
    r
}

} // verus!
