use vstd::prelude::*;

use crate::models::{Category, Project, RepoError, User};
use crate::route_info::{route, route_view, route_views, Method, RouteInfo, RouteView};
use crate::text::{int_decimal, push_int, push_str};

verus! {

/// The routes this module serves, in mounting order: method, path pattern
/// and handler name.
pub open spec fn route_table() -> Seq<RouteView> {
    seq![
        route_view(Method::Get, "/<project_id>/categories"@, "show_categories"@),
        route_view(Method::Get, "/<project_id>/categories/new"@, "new_category"@),
        route_view(Method::Post, "/<project_id>/categories/new"@, "post_category"@),
        route_view(Method::Get, "/<project_id>/categories/edit/<cat_id>"@, "get_edit_category"@),
        route_view(Method::Post, "/<project_id>/categories/edit/<cat_id>"@, "post_edit_category"@),
        route_view(Method::Delete, "/<project_id>/categories/delete/<cat_id>"@, "delete_category_route"@),
    ]
}

/// The routes of this module, in the order they are mounted.
pub fn routes() -> (r: Vec<RouteInfo>)
    ensures
        route_views(r@) == route_table(),
{
    let mut r: Vec<RouteInfo> = Vec::new();
    r.push(route(Method::Get, "/<project_id>/categories", "show_categories"));
    r.push(route(Method::Get, "/<project_id>/categories/new", "new_category"));
    r.push(route(Method::Post, "/<project_id>/categories/new", "post_category"));
    r.push(route(Method::Get, "/<project_id>/categories/edit/<cat_id>", "get_edit_category"));
    r.push(route(Method::Post, "/<project_id>/categories/edit/<cat_id>", "post_edit_category"));
    r.push(route(Method::Delete, "/<project_id>/categories/delete/<cat_id>", "delete_category_route"));
    assert(route_views(r@) =~= route_table());
    r
}

/// `/p/<project_id>/categories`.
pub open spec fn categories_path_text(project_id: i32) -> Seq<char> {
    "/p/"@ + int_decimal(project_id as int) + "/categories"@
}

/// The category list of a project.
pub fn categories_path(project_id: i32) -> (r: String)
    ensures
        r@ == categories_path_text(project_id),
{
    let mut r = String::from_str("/p/");
    push_int(&mut r, project_id as i64);
    push_str(&mut r, "/categories");
    r
}

/// A category page: its template, the signed-in user, the projects of the
/// navigation, the selected project, and the categories it shows (the list
/// page's list, or the one category being edited; the new-category form has
/// none).
#[derive(Debug)]
pub struct CategoryPage {
    pub template: String,
    pub user: User,
    pub projects: Vec<Project>,
    pub selected_project_id: i32,
    pub categories: Option<Vec<Category>>,
    pub category: Option<Category>,
}

/// The category list of a project: the project's categories, or none when
/// they cannot be read.
pub fn show_categories(
    user: User,
    projects: Vec<Project>,
    project_id: i32,
    categories: Result<Vec<Category>, RepoError>,
) -> (p: CategoryPage)
    ensures
        p.template@ == "categories"@,
        p.user == user,
        p.projects == projects,
        p.selected_project_id == project_id,
        (p.categories matches Some(cs) && cs@ == (match categories {
            Ok(v) => v@,
            Err(_) => Seq::<Category>::empty(),
        })),
        p.category is None,
{
    let list = match categories {
        Ok(cs) => cs,
        Err(_) => Vec::new(),
    };
    CategoryPage {
        template: String::from_str("categories"),
        user,
        projects,
        selected_project_id: project_id,
        categories: Some(list),
        category: None,
    }
}

/// The new-category form of a project.
pub fn new_category(user: User, projects: Vec<Project>, project_id: i32) -> (p: CategoryPage)
    ensures
        p.template@ == "new_category"@,
        p.user == user,
        p.projects == projects,
        p.selected_project_id == project_id,
        p.categories is None,
        p.category is None,
{
    CategoryPage {
        template: String::from_str("new_category"),
        user,
        projects,
        selected_project_id: project_id,
        categories: None,
        category: None,
    }
}

/// The edit form of a category, or where to go instead: the project's list
/// when the category is missing, the owning project's list when it belongs
/// to another project.
pub fn get_edit_category(
    user: User,
    projects: Vec<Project>,
    project_id: i32,
    lookup: Result<Category, RepoError>,
) -> (r: Result<CategoryPage, String>)
    ensures
        lookup is Err ==> (r matches Err(p) && p@ == categories_path_text(project_id)),
        lookup matches Ok(c) ==> (c.project_id != project_id ==> (r matches Err(p) && p@ == categories_path_text(
            c.project_id,
        ))),
        lookup matches Ok(c) ==> (c.project_id == project_id ==> (r matches Ok(page) && page.template@
            == "edit_category"@ && page.user == user && page.projects == projects
            && page.selected_project_id == project_id && page.categories is None
            && page.category == Some(c))),
{
    match lookup {
        Err(_) => Err(categories_path(project_id)),
        Ok(c) => {
            if c.project_id != project_id {
                Err(categories_path(c.project_id))
            } else {
                Ok(CategoryPage {
                    template: String::from_str("edit_category"),
                    user,
                    projects,
                    selected_project_id: project_id,
                    categories: None,
                    category: Some(c),
                })
            }
        },
    }
}

/// What deleting a category comes to.
#[derive(Debug)]
pub enum DeleteCategoryDecision {
    NotFound,
    /// The category belongs to another project: to that project's list.
    Redirect(String),
    Delete,
}

/// A missing category is not found; one of another project sends the user
/// to that project's list; otherwise it is deleted.
pub fn delete_category_decision(project_id: i32, category_project_id: Option<i32>) -> (r: DeleteCategoryDecision)
    ensures
        category_project_id is None ==> r is NotFound,
        category_project_id matches Some(c) ==> (c != project_id ==> (r matches DeleteCategoryDecision::Redirect(p)
            && p@ == categories_path_text(c))),
        category_project_id == Some(project_id) ==> r is Delete,
{
    match category_project_id {
        None => DeleteCategoryDecision::NotFound,
        Some(c) => if c != project_id {
            DeleteCategoryDecision::Redirect(categories_path(c))
        } else {
            DeleteCategoryDecision::Delete
        },
    }
}

} // verus!
