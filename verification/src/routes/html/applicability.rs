use vstd::prelude::*;

use crate::route_info::{route, route_view, route_views, Method, RouteInfo, RouteView};

verus! {

/// The routes this module serves, in mounting order: method, path pattern
/// and handler name.
pub open spec fn route_table() -> Seq<RouteView> {
    seq![
        route_view(Method::Get, "/<project_id>/applicability"@, "show_applicability"@),
        route_view(Method::Get, "/<project_id>/applicability/new"@, "new_applicability"@),
        route_view(Method::Post, "/<project_id>/applicability/new"@, "post_applicability"@),
        route_view(Method::Get, "/<project_id>/applicability/edit/<app_id>"@, "get_edit_applicability"@),
        route_view(Method::Post, "/<project_id>/applicability/edit/<app_id>"@, "post_edit_applicability"@),
        route_view(Method::Delete, "/<project_id>/applicability/delete/<app_id>"@, "delete_applicability_route"@),
    ]
}

/// The routes of this module, in the order they are mounted.
pub fn routes() -> (r: Vec<RouteInfo>)
    ensures
        route_views(r@) == route_table(),
{
    let mut r: Vec<RouteInfo> = Vec::new();
    r.push(route(Method::Get, "/<project_id>/applicability", "show_applicability"));
    r.push(route(Method::Get, "/<project_id>/applicability/new", "new_applicability"));
    r.push(route(Method::Post, "/<project_id>/applicability/new", "post_applicability"));
    r.push(route(Method::Get, "/<project_id>/applicability/edit/<app_id>", "get_edit_applicability"));
    r.push(route(Method::Post, "/<project_id>/applicability/edit/<app_id>", "post_edit_applicability"));
    r.push(route(Method::Delete, "/<project_id>/applicability/delete/<app_id>", "delete_applicability_route"));
    assert(route_views(r@) =~= route_table());
    r
}

} // verus!
