use vstd::prelude::*;

use crate::route_info::{route, route_view, route_views, Method, RouteInfo, RouteView};
use crate::text::{concat, int_decimal, push_int, push_str};

verus! {

/// The routes this module serves, in mounting order: method, path pattern
/// and handler name.
pub open spec fn route_table() -> Seq<RouteView> {
    seq![
        route_view(Method::Get, "/<namespace>/<project_id>"@, "show_project_id"@),
        route_view(Method::Get, "/<namespace>/<project_id>/edit"@, "get_edit_project"@),
        route_view(Method::Post, "/<namespace>/<project_id>/edit"@, "post_edit_project"@),
        route_view(Method::Delete, "/<namespace>/<project_id>/delete"@, "delete_project_route"@),
    ]
}

/// The routes of this module, in the order they are mounted.
pub fn routes() -> (r: Vec<RouteInfo>)
    ensures
        route_views(r@) == route_table(),
{
    let mut r: Vec<RouteInfo> = Vec::new();
    r.push(route(Method::Get, "/<namespace>/<project_id>", "show_project_id"));
    r.push(route(Method::Get, "/<namespace>/<project_id>/edit", "get_edit_project"));
    r.push(route(Method::Post, "/<namespace>/<project_id>/edit", "post_edit_project"));
    r.push(route(Method::Delete, "/<namespace>/<project_id>/delete", "delete_project_route"));
    assert(route_views(r@) =~= route_table());
    r
}

/// The group a project belongs to, as its page shows it.
#[derive(Debug)]
pub struct GroupSummary {
    pub name: String,
    pub slug: String,
    pub can_view: bool,
}

/// The overview page of a project, or the error page when it is missing.
#[derive(Debug)]
pub enum ProjectOverview {
    NotFound {
        page_title: String,
        message: String,
        details: String,
    },
    Found {
        selected_project_id: i32,
        selected_project_slug: String,
        page_title: String,
        selected_project_name: String,
        group_name: Option<String>,
        group_slug: Option<String>,
        can_view_group: bool,
        requirements_count: usize,
        tests_count: usize,
    },
}

/// The overview of a project reached by its slug: its name in the title,
/// its group (when it has one that exists) and whether the user may view
/// that group, and its requirement and test counts (zero when a list cannot
/// be loaded); the error page when the project does not exist.
pub fn show_project_id(
    project_id: i32,
    project_slug: &str,
    project_name: Option<&str>,
    group: Option<GroupSummary>,
    requirements_count: Option<usize>,
    tests_count: Option<usize>,
) -> (p: ProjectOverview)
    ensures
        project_name is None ==> (p matches ProjectOverview::NotFound { page_title, message, details }
            && page_title@ == "Project Not Found"@ && message@
            == "The project you're looking for could not be found."@ && details@ == "Project slug "@
            + project_slug@ + " could not be resolved"@),
        project_name matches Some(n) ==> (p matches ProjectOverview::Found {
            selected_project_id,
            selected_project_slug,
            page_title,
            selected_project_name,
            group_name,
            group_slug,
            can_view_group,
            requirements_count: rc,
            tests_count: tc,
        } && selected_project_id == project_id && selected_project_slug@ == project_slug@
            && page_title@ == n@ + " - Project"@ && selected_project_name@ == n@ && group_name == (match group {
            Some(g) => Some(g.name),
            None => None,
        }) && group_slug == (match group {
            Some(g) => Some(g.slug),
            None => None,
        }) && can_view_group == (match group {
            Some(g) => g.can_view,
            None => false,
        }) && rc == (match requirements_count {
            Some(c) => c,
            None => 0,
        }) && tc == (match tests_count {
            Some(c) => c,
            None => 0,
        })),
{
    match project_name {
        None => {
            let mut details = concat("Project slug ", project_slug);
            push_str(&mut details, " could not be resolved");
            ProjectOverview::NotFound {
                page_title: String::from_str("Project Not Found"),
                message: String::from_str("The project you're looking for could not be found."),
                details,
            }
        },
        Some(n) => {
            let (group_name, group_slug, can_view_group) = match group {
                Some(g) => (Some(g.name), Some(g.slug), g.can_view),
                None => (None, None, false),
            };
            ProjectOverview::Found {
                selected_project_id: project_id,
                selected_project_slug: String::from_str(project_slug),
                page_title: concat(n, " - Project"),
                selected_project_name: String::from_str(n),
                group_name,
                group_slug,
                can_view_group,
                requirements_count: match requirements_count {
                    Some(c) => c,
                    None => 0,
                },
                tests_count: match tests_count {
                    Some(c) => c,
                    None => 0,
                },
            }
        },
    }
}

/// Where saving a project's settings leads: the project list when the
/// project is missing or was saved, its edit page again when saving failed.
pub fn post_edit_project_redirect(namespace: &str, project_slug: &str, found: bool, saved: bool) -> (r: String)
    ensures
        (!found || saved) ==> r@ == "/projects"@,
        (found && !saved) ==> r@ == "/"@ + namespace@ + "/"@ + project_slug@ + "/edit"@,
{
    if !found || saved {
        String::from_str("/projects")
    } else {
        let mut r = concat("/", namespace);
        push_str(&mut r, "/");
        push_str(&mut r, project_slug);
        push_str(&mut r, "/edit");
        r
    }
}

/// The title of a project's edit page.
pub fn edit_project_title(name: &str) -> (r: String)
    ensures
        r@ == "Edit "@ + name@ + " - Project"@,
{
    let mut r = concat("Edit ", name);
    push_str(&mut r, " - Project");
    r
}

} // verus!
