use vstd::prelude::*;

use crate::route_info::{route, route_view, route_views, Method, RouteInfo, RouteView};
use crate::routes::html::project::ownership::{
    edit_page_title, record_access_of, slug_edit_redirect, slug_section_path, slug_section_path_text, RecordAccess,
};
use crate::text::{concat, int_decimal, push_int, push_str};

verus! {

/// The routes this module serves, in mounting order: method, path pattern
/// and handler name.
pub open spec fn route_table() -> Seq<RouteView> {
    seq![
        route_view(Method::Get, "/<namespace>/<project_id>/requirement_statuses"@, "show_requirement_statuses"@),
        route_view(Method::Get, "/<namespace>/<project_id>/requirement_statuses/new"@, "new_requirement_status"@),
        route_view(Method::Post, "/<namespace>/<project_id>/requirement_statuses/new"@, "post_requirement_status"@),
        route_view(Method::Get, "/<namespace>/<project_id>/requirement_statuses/edit/<status_id>"@, "get_edit_requirement_status"@),
        route_view(Method::Post, "/<namespace>/<project_id>/requirement_statuses/edit/<status_id>"@, "post_edit_requirement_status"@),
        route_view(Method::Delete, "/<namespace>/<project_id>/requirement_statuses/delete/<status_id>"@, "delete_requirement_status_route"@),
    ]
}

/// The routes of this module, in the order they are mounted.
pub fn routes() -> (r: Vec<RouteInfo>)
    ensures
        route_views(r@) == route_table(),
{
    let mut r: Vec<RouteInfo> = Vec::new();
    r.push(route(Method::Get, "/<namespace>/<project_id>/requirement_statuses", "show_requirement_statuses"));
    r.push(route(Method::Get, "/<namespace>/<project_id>/requirement_statuses/new", "new_requirement_status"));
    r.push(route(Method::Post, "/<namespace>/<project_id>/requirement_statuses/new", "post_requirement_status"));
    r.push(route(Method::Get, "/<namespace>/<project_id>/requirement_statuses/edit/<status_id>", "get_edit_requirement_status"));
    r.push(route(Method::Post, "/<namespace>/<project_id>/requirement_statuses/edit/<status_id>", "post_edit_requirement_status"));
    r.push(route(Method::Delete, "/<namespace>/<project_id>/requirement_statuses/delete/<status_id>", "delete_requirement_status_route"));
    assert(route_views(r@) =~= route_table());
    r
}

/// The status list of a project, by slug.
pub fn requirement_statuses_path(project_slug: &str) -> (r: String)
    ensures
        r@ == slug_section_path_text(project_slug@, "requirement_statuses"@),
{
    slug_section_path(project_slug, "requirement_statuses")
}

/// The edit page of one status.
pub fn edit_requirement_status_path(project_slug: &str, status_id: i32) -> (r: String)
    ensures
        r@ == "/"@ + project_slug@ + "/requirement_statuses/edit/"@ + int_decimal(status_id as int),
{
    let mut r = concat("/", project_slug);
    push_str(&mut r, "/requirement_statuses/edit/");
    push_int(&mut r, status_id as i64);
    r
}

/// Where the edit page sends the user instead of the form: this project's
/// list for a missing or system status, the owning project's list for one of
/// another project; `None` to show the form.
pub fn requirement_status_edit_redirect(
    project_id: i32,
    project_slug: &str,
    status_project_id: Option<i32>,
    owner_slug: &str,
    is_system: bool,
) -> (r: Option<String>)
    ensures
        r == None::<String> <==> record_access_of(project_id, status_project_id, is_system) == RecordAccess::Allowed,
        r matches Some(p) ==> p@ == slug_section_path_text(
            if record_access_of(project_id, status_project_id, is_system) is OtherProject {
                owner_slug@
            } else {
                project_slug@
            },
            "requirement_statuses"@,
        ),
{
    slug_edit_redirect(project_id, project_slug, status_project_id, owner_slug, is_system, "requirement_statuses")
}

/// The title of a status's edit page.
pub fn edit_requirement_status_title(title: &str) -> (r: String)
    ensures
        r@ == "Edit "@ + title@ + " - "@ + "Requirement status"@,
{
    edit_page_title(title, "Requirement status")
}

} // verus!
