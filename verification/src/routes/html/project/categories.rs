use vstd::prelude::*;

use crate::route_info::{route, route_view, route_views, Method, RouteInfo, RouteView};
use crate::routes::html::project::ownership::{
    delete_decision, edit_page_title, edit_redirect, record_access_of, section_path, section_path_text,
    DeleteOutcome, RecordAccess,
};

verus! {

/// The routes this module serves, in mounting order: method, path pattern
/// and handler name.
pub open spec fn route_table() -> Seq<RouteView> {
    seq![
        route_view(Method::Get, "/<project_id>/categories"@, "show_categories"@),
        route_view(Method::Get, "/<project_id>/categories/new"@, "new_category"@),
        route_view(Method::Post, "/<project_id>/categories/new"@, "post_category"@),
        route_view(Method::Get, "/<project_id>/categories/edit/<category_id>"@, "get_edit_category"@),
        route_view(Method::Post, "/<project_id>/categories/edit/<category_id>"@, "post_edit_category"@),
        route_view(Method::Delete, "/<project_id>/categories/delete/<category_id>"@, "delete_category_route"@),
    ]
}

/// The routes of this module, in the order they are mounted.
pub fn routes() -> (r: Vec<RouteInfo>)
    ensures
        route_views(r@) == route_table(),
{
    let mut r: Vec<RouteInfo> = Vec::new();
    r.push(route(Method::Get, "/<project_id>/categories", "show_categories"));
    r.push(route(Method::Get, "/<project_id>/categories/new", "new_category"));
    r.push(route(Method::Post, "/<project_id>/categories/new", "post_category"));
    r.push(route(Method::Get, "/<project_id>/categories/edit/<category_id>", "get_edit_category"));
    r.push(route(Method::Post, "/<project_id>/categories/edit/<category_id>", "post_edit_category"));
    r.push(route(Method::Delete, "/<project_id>/categories/delete/<category_id>", "delete_category_route"));
    assert(route_views(r@) =~= route_table());
    r
}

/// The list page of this section of a project.
pub fn category_list_path(project_id: i32) -> (r: String)
    ensures
        r@ == section_path_text(project_id, "categories"@),
{
    section_path(project_id, "categories")
}

/// Where the edit pages send the user instead of the form: the list of this
/// project when the record is missing, the list of the owning project when
/// it belongs to another one; `None` to show the form.
pub fn category_edit_redirect(project_id: i32, record_project_id: Option<i32>) -> (r: Option<String>)
    ensures
        r == None::<String> <==> record_project_id == Some(project_id),
        r matches Some(p) ==> p@ == section_path_text(
            match record_project_id {
                Some(o) => o,
                None => project_id,
            },
            "categories"@,
        ),
{
    edit_redirect(project_id, record_project_id, false, "categories")
}

/// What deleting a record of this section comes to.
pub fn category_delete_decision(project_id: i32, record_project_id: Option<i32>) -> (r: DeleteOutcome)
    ensures
        record_project_id is None ==> r is NotFound,
        record_project_id matches Some(o) ==> (o != project_id ==> (r matches DeleteOutcome::Redirect(p)
            && p@ == section_path_text(o, "categories"@))),
        record_project_id == Some(project_id) ==> r is Proceed,
{
    delete_decision(project_id, record_project_id, "categories")
}

/// The title of a record's edit page.
pub fn edit_category_title(title: &str) -> (r: String)
    ensures
        r@ == "Edit "@ + title@ + " - "@ + "Category"@,
{
    edit_page_title(title, "Category")
}

} // verus!
