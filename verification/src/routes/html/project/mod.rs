//! Routes under a project: each submodule serves one part of a project's
//! pages.
use vstd::prelude::*;

use crate::route_info::{extend_routes, route_views, RouteInfo, RouteView};

pub mod applicability;
pub mod baselines;
pub mod categories;
pub mod custom_fields;
pub mod document_import;
pub mod matrix;
pub mod members;
pub mod ownership;
pub mod project;
pub mod project_routes;
pub mod reports;
pub mod reqif;
pub mod requirement_statuses;
pub mod requirements;
pub mod tables;
pub mod test_cases;
pub mod tests;
pub mod verification;
pub mod verification_statuses;
pub mod verifications;

verus! {

/// All project routes, in mounting order.
pub open spec fn route_table() -> Seq<RouteView> {
    applicability::route_table()
        + baselines::route_table()
        + categories::route_table()
        + custom_fields::route_table()
        + document_import::route_table()
        + requirement_statuses::route_table()
        + verification_statuses::route_table()
        + matrix::route_table()
        + members::route_table()
        + reports::route_table()
        + reqif::route_table()
        + requirements::route_table()
        + verifications::route_table()
        + verification::route_table()
        + project_routes::route_table()
}

/// The project routes of every submodule that is mounted, in order.
pub fn routes() -> (r: Vec<RouteInfo>)
    ensures
        route_views(r@) == route_table(),
{
    let mut r: Vec<RouteInfo> = Vec::new();
    extend_routes(&mut r, applicability::routes());
    extend_routes(&mut r, baselines::routes());
    extend_routes(&mut r, categories::routes());
    extend_routes(&mut r, custom_fields::routes());
    extend_routes(&mut r, document_import::routes());
    extend_routes(&mut r, requirement_statuses::routes());
    extend_routes(&mut r, verification_statuses::routes());
    extend_routes(&mut r, matrix::routes());
    extend_routes(&mut r, members::routes());
    extend_routes(&mut r, reports::routes());
    extend_routes(&mut r, reqif::routes());
    extend_routes(&mut r, requirements::routes());
    extend_routes(&mut r, verifications::routes());
    extend_routes(&mut r, verification::routes());
    extend_routes(&mut r, project_routes::routes());
    assert(route_views(r@) =~= route_table());
    r
}

} // verus!
