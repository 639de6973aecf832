use vstd::prelude::*;

use crate::route_info::{route, route_view, route_views, Method, RouteInfo, RouteView};
use crate::routes::html::project::ownership::{
    delete_decision, edit_page_title, edit_redirect, record_access_of, section_path, section_path_text,
    DeleteOutcome, RecordAccess,
};

verus! {

/// The routes this module serves, in mounting order: method, path pattern
/// and handler name.
pub open spec fn route_table() -> Seq<RouteView> {
    seq![
        route_view(Method::Get, "/<project_id>/verification"@, "show_verification"@),
        route_view(Method::Get, "/<project_id>/verification/new?<error>"@, "new_verification"@),
        route_view(Method::Post, "/<project_id>/verification/new"@, "post_verification"@),
        route_view(Method::Get, "/<project_id>/verification/edit/<verification_id>?<error>"@, "get_edit_verification"@),
        route_view(Method::Post, "/<project_id>/verification/edit/<verification_id>"@, "post_edit_verification"@),
        route_view(Method::Delete, "/<project_id>/verification/delete/<verification_id>"@, "delete_verification_route"@),
    ]
}

/// The routes of this module, in the order they are mounted.
pub fn routes() -> (r: Vec<RouteInfo>)
    ensures
        route_views(r@) == route_table(),
{
    let mut r: Vec<RouteInfo> = Vec::new();
    r.push(route(Method::Get, "/<project_id>/verification", "show_verification"));
    r.push(route(Method::Get, "/<project_id>/verification/new?<error>", "new_verification"));
    r.push(route(Method::Post, "/<project_id>/verification/new", "post_verification"));
    r.push(route(Method::Get, "/<project_id>/verification/edit/<verification_id>?<error>", "get_edit_verification"));
    r.push(route(Method::Post, "/<project_id>/verification/edit/<verification_id>", "post_edit_verification"));
    r.push(route(Method::Delete, "/<project_id>/verification/delete/<verification_id>", "delete_verification_route"));
    assert(route_views(r@) =~= route_table());
    r
}

/// The list page of this section of a project.
pub fn verification_list_path(project_id: i32) -> (r: String)
    ensures
        r@ == section_path_text(project_id, "verification"@),
{
    section_path(project_id, "verification")
}

/// Where the edit pages send the user instead of the form: the list of this
/// project when the record is missing, the list of the owning project when
/// it belongs to another one; `None` to show the form.
pub fn verification_edit_redirect(project_id: i32, record_project_id: Option<i32>) -> (r: Option<String>)
    ensures
        r == None::<String> <==> record_project_id == Some(project_id),
        r matches Some(p) ==> p@ == section_path_text(
            match record_project_id {
                Some(o) => o,
                None => project_id,
            },
            "verification"@,
        ),
{
    edit_redirect(project_id, record_project_id, false, "verification")
}

/// What deleting a record of this section comes to.
pub fn verification_delete_decision(project_id: i32, record_project_id: Option<i32>) -> (r: DeleteOutcome)
    ensures
        record_project_id is None ==> r is NotFound,
        record_project_id matches Some(o) ==> (o != project_id ==> (r matches DeleteOutcome::Redirect(p)
            && p@ == section_path_text(o, "verification"@))),
        record_project_id == Some(project_id) ==> r is Proceed,
{
    delete_decision(project_id, record_project_id, "verification")
}

/// The title of a record's edit page.
pub fn edit_verification_title(title: &str) -> (r: String)
    ensures
        r@ == "Edit "@ + title@ + " - "@ + "Verification method"@,
{
    edit_page_title(title, "Verification method")
}

} // verus!
