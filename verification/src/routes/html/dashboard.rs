use vstd::prelude::*;

use crate::models::{Project, User};
use crate::ordering::stably_sorted;
use crate::route_info::{route, route_view, route_views, Method, RouteInfo, RouteView};
use crate::routes::html::helpers::{
    decorate_projects_for_listing, listing_name_keys, listing_views, listings, ProjectListing, ProjectRole,
};
use crate::routes::html::excel::concatenated;
use crate::text::{int_decimal, parse_i32, parsed_i32, push_int, push_str};

verus! {

/// The routes this module serves, in mounting order: method, path pattern
/// and handler name.
pub open spec fn route_table() -> Seq<RouteView> {
    seq![
        route_view(Method::Get, "/"@, "index"@),
        route_view(Method::Get, "/status"@, "show_status"@),
    ]
}

/// The routes of this module, in the order they are mounted.
pub fn routes() -> (r: Vec<RouteInfo>)
    ensures
        route_views(r@) == route_table(),
{
    let mut r: Vec<RouteInfo> = Vec::new();
    r.push(route(Method::Get, "/", "index"));
    r.push(route(Method::Get, "/status", "show_status"));
    assert(route_views(r@) =~= route_table());
    r
}

/// The project the dashboard selects: the one the cookie names when it
/// holds a number, else the user's first project.
pub open spec fn dashboard_selection(cookie: Option<Seq<char>>, projects: Seq<Project>) -> Option<i32> {
    let from_cookie = match cookie {
        Some(c) => parsed_i32(c),
        None => None,
    };
    if from_cookie is Some {
        from_cookie
    } else if projects.len() > 0 {
        Some(projects[0].id)
    } else {
        None
    }
}

/// The dashboard of a user.
#[derive(Debug)]
pub struct DashboardPage {
    pub projects: Vec<ProjectListing>,
    pub projects_count: usize,
    pub selected_project_id: Option<i32>,
    /// The selection to remember in the cookie, when the dashboard made one.
    pub cookie_to_set: Option<i32>,
    pub hide_nav: bool,
    pub page_title: String,
}

/// The dashboard: the user's projects decorated for listing, the selected
/// project (auto-selecting the first one, and remembering it, when the
/// cookie names none).
pub fn index(
    is_admin: bool,
    memberships: &Vec<ProjectRole>,
    users: &Vec<User>,
    projects: &Vec<Project>,
    cookie: Option<&str>,
) -> (p: DashboardPage)
    ensures
        p.selected_project_id == dashboard_selection(
            match cookie {
                Some(c) => Some(c@),
                None => None,
            },
            projects@,
        ),
        p.cookie_to_set == (if (match cookie {
            Some(c) => parsed_i32(c@),
            None => None,
        }) is None && projects@.len() > 0 {
            Some(projects@[0].id)
        } else {
            None
        }),
        p.projects@.len() == listings(is_admin, memberships@, users@, projects@).len(),
        p.projects_count == p.projects@.len(),
        stably_sorted(
            listing_views(p.projects@),
            listings(is_admin, memberships@, users@, projects@),
            listing_name_keys(listings(is_admin, memberships@, users@, projects@)),
            false,
        ),
        p.hide_nav,
        p.page_title@ == "Dashboard"@,
{
    let from_cookie = match cookie {
        Some(c) => parse_i32(c),
        None => None,
    };
    let mut selected = from_cookie;
    let mut cookie_to_set: Option<i32> = None;
    if selected.is_none() && projects.len() > 0 {
        selected = Some(projects[0].id);
        cookie_to_set = Some(projects[0].id);
    }
    let decorated = decorate_projects_for_listing(is_admin, memberships, users, projects);
    let count = decorated.len();
    DashboardPage {
        projects: decorated,
        projects_count: count,
        selected_project_id: selected,
        cookie_to_set,
        hide_nav: true,
        page_title: String::from_str("Dashboard"),
    }
}

/// A requirement status as the status page lists it.
#[derive(Debug)]
pub struct StatusDescription {
    pub id: i32,
    pub title: String,
    pub description: String,
}

/// The block of one status on the status page.
pub open spec fn status_entry_text(s: StatusDescription) -> Seq<char> {
    "\n        <div class='AllStatus'>\n            <div>Id: "@ + int_decimal(s.id as int)
        + "</div>\n            <div>Title: "@ + s.title@ + "</div>\n            <div>Description: "@
        + s.description@ + "</div>\n        </div>"@
}

/// The status page: the page header, one block per status in order, a
/// space and the page footer; a short error text when the statuses could
/// not be loaded.
pub fn show_status(header: &str, statuses: Option<&Vec<StatusDescription>>, footer: &str) -> (r: String)
    ensures
        r@ == (match statuses {
            Some(list) => header@ + concatenated(list@.map_values(|s: StatusDescription| status_entry_text(s)))
                + " "@ + footer@,
            None => "Error: Failed to load status data"@,
        }),
{
    match statuses {
        None => String::from_str("Error: Failed to load status data"),
        Some(list) => {
            let ghost parts = list@.map_values(|s: StatusDescription| status_entry_text(s));
            let mut out = String::from_str(header);
            let mut i: usize = 0;
            while i < list.len()
                invariant
                    statuses == Some(list),
                    i <= list@.len(),
                    parts == list@.map_values(|s: StatusDescription| status_entry_text(s)),
                    out@ == header@ + concatenated(parts.take(i as int)),
                decreases list.len() - i,
            {
                let st = &list[i];
                push_str(&mut out, "\n        <div class='AllStatus'>\n            <div>Id: ");
                push_int(&mut out, st.id as i64);
                push_str(&mut out, "</div>\n            <div>Title: ");
                push_str(&mut out, st.title.as_str());
                push_str(&mut out, "</div>\n            <div>Description: ");
                push_str(&mut out, st.description.as_str());
                push_str(&mut out, "</div>\n        </div>");
                i = i + 1;
                assert(parts.take(i as int).drop_last() =~= parts.take(i - 1));
                assert(out@ =~= header@ + concatenated(parts.take(i as int)));
            }
            assert(parts.take(i as int) =~= parts);
            push_str(&mut out, " ");
            push_str(&mut out, footer);
            out
        },
    }
}

} // verus!
