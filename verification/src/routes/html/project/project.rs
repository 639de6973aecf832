use vstd::prelude::*;

use crate::route_info::{route, route_view, route_views, Method, RouteInfo, RouteView};
use crate::text::{concat, int_decimal, push_int, push_str};

verus! {

/// The routes this module serves, in mounting order: method, path pattern
/// and handler name.
pub open spec fn route_table() -> Seq<RouteView> {
    seq![
        route_view(Method::Get, "/<project_id>"@, "show_project_id"@),
        route_view(Method::Get, "/<project_id>/edit"@, "get_edit_project"@),
        route_view(Method::Post, "/<project_id>/edit"@, "post_edit_project"@),
        route_view(Method::Delete, "/<project_id>/delete"@, "delete_project_route"@),
    ]
}

/// The routes of this module, in the order they are mounted.
pub fn routes() -> (r: Vec<RouteInfo>)
    ensures
        route_views(r@) == route_table(),
{
    let mut r: Vec<RouteInfo> = Vec::new();
    r.push(route(Method::Get, "/<project_id>", "show_project_id"));
    r.push(route(Method::Get, "/<project_id>/edit", "get_edit_project"));
    r.push(route(Method::Post, "/<project_id>/edit", "post_edit_project"));
    r.push(route(Method::Delete, "/<project_id>/delete", "delete_project_route"));
    assert(route_views(r@) =~= route_table());
    r
}

/// The overview page of a project, or the error page when it is missing.
#[derive(Debug)]
pub enum ProjectPage {
    NotFound {
        page_title: String,
        message: String,
        details: String,
    },
    Found {
        selected_project_id: i32,
        page_title: String,
        selected_project_name: String,
        requirements_count: usize,
        tests_count: usize,
    },
}

/// The overview of a project: its name in the title and its requirement and
/// test counts (zero when a list cannot be loaded); the error page when the
/// project does not exist.
pub fn show_project_id(
    project_id: i32,
    project_name: Option<&str>,
    requirements_count: Option<usize>,
    tests_count: Option<usize>,
) -> (p: ProjectPage)
    ensures
        project_name is None ==> (p matches ProjectPage::NotFound { page_title, message, details } && page_title@
            == "Project Not Found"@ && message@ == "The project you're looking for could not be found."@
            && details@ == "Project ID "@ + int_decimal(project_id as int) + " does not exist"@),
        project_name matches Some(n) ==> (p matches ProjectPage::Found {
            selected_project_id,
            page_title,
            selected_project_name,
            requirements_count: rc,
            tests_count: tc,
        } && selected_project_id == project_id && page_title@ == n@ + " - Project"@
            && selected_project_name@ == n@ && rc == (match requirements_count {
            Some(c) => c,
            None => 0,
        }) && tc == (match tests_count {
            Some(c) => c,
            None => 0,
        })),
{
    match project_name {
        None => {
            let mut details = String::from_str("Project ID ");
            push_int(&mut details, project_id as i64);
            push_str(&mut details, " does not exist");
            ProjectPage::NotFound {
                page_title: String::from_str("Project Not Found"),
                message: String::from_str("The project you're looking for could not be found."),
                details,
            }
        },
        Some(n) => ProjectPage::Found {
            selected_project_id: project_id,
            page_title: concat(n, " - Project"),
            selected_project_name: String::from_str(n),
            requirements_count: match requirements_count {
                Some(c) => c,
                None => 0,
            },
            tests_count: match tests_count {
                Some(c) => c,
                None => 0,
            },
        },
    }
}

} // verus!
