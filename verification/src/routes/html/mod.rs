//! The HTML front end: every page and form handler, grouped by area.
use vstd::prelude::*;

use crate::route_info::{extend_routes, route, route_view, route_views, Method, RouteInfo, RouteView};

pub mod admin;
pub mod applicability;
pub mod auth;
pub mod categories;
pub mod dashboard;
pub mod excel;
pub mod groups;
pub mod helpers;
pub mod logs;
pub mod members;
pub mod project;
pub mod projects;
pub mod reports;
pub mod requirements;

verus! {

/// The routes this module serves, in mounting order: method, path pattern
/// and handler name. The error page that the list of top-level routes
/// names last is left out: no handler of that name is defined, so its
/// method and path are unknown.
pub open spec fn local_route_table() -> Seq<RouteView> {
    seq![
        route_view(Method::Get, "/login?<error>"@, "login_page"@),
        route_view(Method::Post, "/login"@, "login"@),
        route_view(Method::Get, "/logout"@, "logout"@),
        route_view(Method::Get, "/change_password?<error>&<success>"@, "change_password_page"@),
        route_view(Method::Post, "/change_password"@, "change_password"@),
        route_view(Method::Get, "/"@, "index"@),
        route_view(Method::Get, "/status"@, "show_status"@),
        route_view(Method::Get, "/projects"@, "show_projects"@),
        route_view(Method::Get, "/new_project?<error>"@, "new_project"@),
        route_view(Method::Post, "/new_project"@, "post_project"@),
        route_view(Method::Get, "/<namespace>/<project_id>/import_excel?<error>"@, "import_excel_page"@),
        route_view(Method::Post, "/<namespace>/<project_id>/import_excel/upload"@, "upload_excel_file"@),
        route_view(Method::Post, "/<namespace>/<project_id>/import_excel/process"@, "process_excel_import"@),
        route_view(Method::Get, "/admin"@, "admin_dashboard"@),
        route_view(Method::Get, "/admin/users"@, "admin_users_page"@),
        route_view(Method::Get, "/admin/backup"@, "admin_backup_page"@),
        route_view(Method::Post, "/admin/backup/generate/<filename>"@, "generate_backup"@),
        route_view(Method::Get, "/logs"@, "show_logs"@),
        route_view(Method::Get, "/logs/<entity_type>/<entity_id>"@, "show_entity_logs"@),
        route_view(Method::Get, "/export_logs?<filename>"@, "export_logs"@),
        route_view(Method::Get, "/export_logs/<entity_type>/<entity_id>"@, "export_entity_logs"@),
        route_view(Method::Post, "/cleanup_logs"@, "cleanup_logs"@),
        route_view(Method::Get, "/log_analytics"@, "log_analytics"@),
        route_view(Method::Get, "/admin/cache"@, "cache_stats_page"@),
        route_view(Method::Post, "/admin/cache/clear"@, "clear_cache"@),
        route_view(Method::Post, "/admin/cache/cleanup"@, "cleanup_cache"@),
        route_view(Method::Get, "/cache/health"@, "cache_health_page"@),
        route_view(Method::Get, "/cache/warm"@, "warm_cache_route"@),
    ]
}

/// The routes of this module, in the order they are mounted.
fn local_routes() -> (r: Vec<RouteInfo>)
    ensures
        route_views(r@) == local_route_table(),
{
    let mut r: Vec<RouteInfo> = Vec::new();
    r.push(route(Method::Get, "/login?<error>", "login_page"));
    r.push(route(Method::Post, "/login", "login"));
    r.push(route(Method::Get, "/logout", "logout"));
    r.push(route(Method::Get, "/change_password?<error>&<success>", "change_password_page"));
    r.push(route(Method::Post, "/change_password", "change_password"));
    r.push(route(Method::Get, "/", "index"));
    r.push(route(Method::Get, "/status", "show_status"));
    r.push(route(Method::Get, "/projects", "show_projects"));
    r.push(route(Method::Get, "/new_project?<error>", "new_project"));
    r.push(route(Method::Post, "/new_project", "post_project"));
    r.push(route(Method::Get, "/<namespace>/<project_id>/import_excel?<error>", "import_excel_page"));
    r.push(route(Method::Post, "/<namespace>/<project_id>/import_excel/upload", "upload_excel_file"));
    r.push(route(Method::Post, "/<namespace>/<project_id>/import_excel/process", "process_excel_import"));
    r.push(route(Method::Get, "/admin", "admin_dashboard"));
    r.push(route(Method::Get, "/admin/users", "admin_users_page"));
    r.push(route(Method::Get, "/admin/backup", "admin_backup_page"));
    r.push(route(Method::Post, "/admin/backup/generate/<filename>", "generate_backup"));
    r.push(route(Method::Get, "/logs", "show_logs"));
    r.push(route(Method::Get, "/logs/<entity_type>/<entity_id>", "show_entity_logs"));
    r.push(route(Method::Get, "/export_logs?<filename>", "export_logs"));
    r.push(route(Method::Get, "/export_logs/<entity_type>/<entity_id>", "export_entity_logs"));
    r.push(route(Method::Post, "/cleanup_logs", "cleanup_logs"));
    r.push(route(Method::Get, "/log_analytics", "log_analytics"));
    r.push(route(Method::Get, "/admin/cache", "cache_stats_page"));
    r.push(route(Method::Post, "/admin/cache/clear", "clear_cache"));
    r.push(route(Method::Post, "/admin/cache/cleanup", "cleanup_cache"));
    r.push(route(Method::Get, "/cache/health", "cache_health_page"));
    r.push(route(Method::Get, "/cache/warm", "warm_cache_route"));
    assert(route_views(r@) =~= local_route_table());
    r
}

/// Every route of the front end: the top-level pages, then the project
/// pages, then the group pages.
pub open spec fn route_table() -> Seq<RouteView> {
    local_route_table() + project::route_table() + groups::route_table()
}

/// All routes of the front end, in mounting order.
pub fn routes() -> (r: Vec<RouteInfo>)
    ensures
        route_views(r@) == route_table(),
{
    let mut r = local_routes();
    extend_routes(&mut r, project::routes());
    extend_routes(&mut r, groups::routes());
    r
}

} // verus!
