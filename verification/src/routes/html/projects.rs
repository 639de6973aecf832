use vstd::prelude::*;

use crate::models::{Project, RepoError, User};
use crate::ordering::stably_sorted;
use crate::route_info::{route, route_view, route_views, Method, RouteInfo, RouteView};
use crate::routes::html::helpers::{
    decorate_projects_for_listing, listing_name_keys, listing_views, listings, resolve_selected_project_id,
    selected_project, ProjectListing, ProjectRole,
};

verus! {

/// The routes this module serves, in mounting order: method, path pattern
/// and handler name.
pub open spec fn route_table() -> Seq<RouteView> {
    seq![
        route_view(Method::Get, "/projects"@, "show_projects"@),
        route_view(Method::Get, "/new_project?<error>"@, "new_project"@),
        route_view(Method::Post, "/new_project"@, "post_project"@),
    ]
}

/// The routes of this module, in the order they are mounted.
pub fn routes() -> (r: Vec<RouteInfo>)
    ensures
        route_views(r@) == route_table(),
{
    let mut r: Vec<RouteInfo> = Vec::new();
    r.push(route(Method::Get, "/projects", "show_projects"));
    r.push(route(Method::Get, "/new_project?<error>", "new_project"));
    r.push(route(Method::Post, "/new_project", "post_project"));
    assert(route_views(r@) =~= route_table());
    r
}

/// The project list page: the listed projects and the selected project.
#[derive(Debug)]
pub struct ProjectsPage {
    pub projects: Vec<ProjectListing>,
    pub selected_project_id: Option<i32>,
    pub page_title: String,
}

/// The project list of a user: the projects the user can reach decorated
/// for listing (ordered by lower-cased name), and the selection resolved
/// against the reachable projects.
pub fn show_projects(
    is_admin: bool,
    memberships: &Vec<ProjectRole>,
    users: &Vec<User>,
    accessible: &Vec<Project>,
    requested_selection: Option<i32>,
) -> (p: ProjectsPage)
    ensures
        p.selected_project_id == selected_project(requested_selection, accessible@),
        p.page_title@ == "Projects"@,
        p.projects@.len() == listings(is_admin, memberships@, users@, accessible@).len(),
        stably_sorted(
            listing_views(p.projects@),
            listings(is_admin, memberships@, users@, accessible@),
            listing_name_keys(listings(is_admin, memberships@, users@, accessible@)),
            false,
        ),
{
    let selected_project_id = resolve_selected_project_id(requested_selection, accessible);
    let projects = decorate_projects_for_listing(is_admin, memberships, users, accessible);
    ProjectsPage { projects, selected_project_id, page_title: String::from_str("Projects") }
}

/// The fields of the new-project form.
#[derive(Debug)]
pub struct NewProjectForm {
    pub name: String,
    pub description: String,
    pub status_id: String,
    pub owner_id: Option<i32>,
}

/// An empty form, with the project active and no owner.
pub fn default_new_project_form() -> (f: NewProjectForm)
    ensures
        f.name@ == Seq::<char>::empty(),
        f.description@ == Seq::<char>::empty(),
        f.status_id@ == "active"@,
        f.owner_id is None,
{
    NewProjectForm {
        name: String::new(),
        description: String::new(),
        status_id: String::from_str("active"),
        owner_id: None,
    }
}

/// The new-project page.
#[derive(Debug)]
pub struct NewProjectPage {
    /// All users, offered as owners.
    pub users: Vec<User>,
    /// The signed-in administrator.
    pub user: User,
    pub form: NewProjectForm,
    pub error: Option<String>,
    pub page_title: String,
}

/// The new-project page for an administrator: all users (none when they
/// cannot be read), an empty form and the error of a failed attempt, if any.
pub fn new_project(user: User, users: Result<Vec<User>, RepoError>, error: Option<String>) -> (p: NewProjectPage)
    ensures
        p.users@ == (match users {
            Ok(v) => v@,
            Err(_) => Seq::<User>::empty(),
        }),
        p.user == user,
        p.form.name@ == Seq::<char>::empty(),
        p.form.description@ == Seq::<char>::empty(),
        p.form.status_id@ == "active"@,
        p.form.owner_id is None,
        p.error == error,
        p.page_title@ == "New Project"@,
{
    let users = match users {
        Ok(v) => v,
        Err(_) => Vec::new(),
    };
    NewProjectPage { users, user, form: default_new_project_form(), error, page_title: String::from_str("New Project") }
}

/// Where creating a project sends the administrator.
#[derive(Debug)]
pub enum ProjectCreateRedirect {
    /// The project list.
    Projects,
    /// The form again, with an error.
    NewProject(String),
}

/// The message shown when a project cannot be created: the reason for bad
/// input, a fixed message otherwise.
pub open spec fn project_create_error_text(err: RepoError) -> Seq<char> {
    match err {
        RepoError::BadInput(reason) => reason@,
        _ => "Failed to create project. Please try again."@,
    }
}

/// After creating a project: the list on success, the form with the message
/// for the error otherwise.
pub fn post_project(outcome: Result<(), RepoError>) -> (r: ProjectCreateRedirect)
    ensures
        outcome is Ok ==> r is Projects,
        outcome matches Err(e) ==> (r matches ProjectCreateRedirect::NewProject(m) && m@
            == project_create_error_text(e)),
{
    match outcome {
        Ok(()) => ProjectCreateRedirect::Projects,
        Err(RepoError::BadInput(reason)) => ProjectCreateRedirect::NewProject(reason),
        Err(_) => ProjectCreateRedirect::NewProject(String::from_str("Failed to create project. Please try again.")),
    }
}

} // verus!
