use vstd::prelude::*;

use crate::route_info::{route, route_view, route_views, Method, RouteInfo, RouteView};

verus! {

/// The routes this module serves, in mounting order: method, path pattern
/// and handler name.
pub open spec fn route_table() -> Seq<RouteView> {
    seq![
        route_view(Method::Get, "/<project_id>/reports"@, "show_reports"@),
        route_view(Method::Get, "/<project_id>/reports/pdf"@, "generate_pdf_report"@),
    ]
}

/// The routes of this module, in the order they are mounted.
pub fn routes() -> (r: Vec<RouteInfo>)
    ensures
        route_views(r@) == route_table(),
{
    let mut r: Vec<RouteInfo> = Vec::new();
    r.push(route(Method::Get, "/<project_id>/reports", "show_reports"));
    r.push(route(Method::Get, "/<project_id>/reports/pdf", "generate_pdf_report"));
    assert(route_views(r@) =~= route_table());
    r
}

} // verus!
