use vstd::prelude::*;

use crate::models::{Membership, RepoError, User};
use crate::ordering::{is_stable_order, key_views, stable_sort_by_keys, stably_sorted};
use crate::route_info::{route, route_view, route_views, Method, RouteInfo, RouteView};
use crate::routes::html::helpers::{lowercase_key_of, name_key};
use crate::routes::html::project::members::{
    available_users, candidate_views, candidates, count_owners, owner_count, unknown_user_name, user_with_id,
    CandidateUser,
};
use crate::routes::html::project::requirements::{contains_id, copy_opt_string};
use crate::text::{concat, join, joined, push_int, push_str};

verus! {

/// The routes this module serves, in mounting order: method, path pattern
/// and handler name.
pub open spec fn route_table() -> Seq<RouteView> {
    seq![
        route_view(Method::Get, "/groups?<success>&<error>"@, "show_groups"@),
        route_view(Method::Get, "/groups/new?<error>"@, "new_group"@),
        route_view(Method::Post, "/groups"@, "post_group"@),
        route_view(Method::Get, "/g/<group_slug>?<success>&<error>"@, "show_group"@),
        route_view(Method::Get, "/g/<group_slug>/members?<success>&<error>"@, "show_group_members"@),
        route_view(Method::Get, "/g/<group_slug>/edit?<success>&<error>"@, "edit_group"@),
        route_view(Method::Post, "/g/<group_slug>/edit"@, "post_edit_group"@),
        route_view(Method::Post, "/g/<group_slug>/delete"@, "delete_group"@),
        route_view(Method::Post, "/g/<group_slug>/members"@, "add_group_member"@),
        route_view(Method::Post, "/g/<group_slug>/members/<member_id>/role"@, "update_group_member_role"@),
        route_view(Method::Post, "/g/<group_slug>/members/<member_id>/remove"@, "remove_group_member"@),
    ]
}

/// The routes of this module, in the order they are mounted.
pub fn routes() -> (r: Vec<RouteInfo>)
    ensures
        route_views(r@) == route_table(),
{
    let mut r: Vec<RouteInfo> = Vec::new();
    r.push(route(Method::Get, "/groups?<success>&<error>", "show_groups"));
    r.push(route(Method::Get, "/groups/new?<error>", "new_group"));
    r.push(route(Method::Post, "/groups", "post_group"));
    r.push(route(Method::Get, "/g/<group_slug>?<success>&<error>", "show_group"));
    r.push(route(Method::Get, "/g/<group_slug>/members?<success>&<error>", "show_group_members"));
    r.push(route(Method::Get, "/g/<group_slug>/edit?<success>&<error>", "edit_group"));
    r.push(route(Method::Post, "/g/<group_slug>/edit", "post_edit_group"));
    r.push(route(Method::Post, "/g/<group_slug>/delete", "delete_group"));
    r.push(route(Method::Post, "/g/<group_slug>/members", "add_group_member"));
    r.push(route(Method::Post, "/g/<group_slug>/members/<member_id>/role", "update_group_member_role"));
    r.push(route(Method::Post, "/g/<group_slug>/members/<member_id>/remove", "remove_group_member"));
    assert(route_views(r@) =~= route_table());
    r
}

/// The message shown when a group operation fails: the storage layer's own
/// message for bad input and duplicates, a fixed one when the group is
/// missing, `fallback` otherwise.
pub open spec fn group_error_text(error: RepoError, fallback: Seq<char>) -> Seq<char> {
    match error {
        RepoError::BadInput(m) => m@,
        RepoError::Duplicate(m) => m@,
        RepoError::NotFound => "The requested group could not be found."@,
        _ => fallback,
    }
}

/// Exec form of `group_error_text`.
pub fn friendly_group_error(error: RepoError, fallback: &str) -> (r: String)
    ensures
        r@ == group_error_text(error, fallback@),
{
    match error {
        RepoError::BadInput(message) => message,
        RepoError::Duplicate(message) => message,
        RepoError::NotFound => String::from_str("The requested group could not be found."),
        _ => String::from_str(fallback),
    }
}

/// A user's membership in a group.
#[derive(Clone, Copy, Debug, PartialEq, Eq, Structural)]
pub struct GroupMembership {
    pub group_id: i32,
    pub role: i32,
}

/// The role shown for the current user in a group.
#[derive(Clone, Copy, Debug, PartialEq, Eq, Structural)]
pub enum GroupRoleShown {
    Administrator,
    /// The role number of the user's membership.
    Role(i32),
    Member,
}

/// The first of the user's memberships in `group_id`, if any.
pub open spec fn first_group_role(ms: Seq<GroupMembership>, group_id: i32) -> Option<i32>
    decreases ms.len(),
{
    if ms.len() == 0 {
        None
    } else if ms[0].group_id == group_id {
        Some(ms[0].role)
    } else {
        first_group_role(ms.drop_first(), group_id)
    }
}

/// The last of the user's memberships in `group_id`, if any (as a map
/// collected from the list keeps).
pub open spec fn last_group_role(ms: Seq<GroupMembership>, group_id: i32) -> Option<i32>
    decreases ms.len(),
{
    if ms.len() == 0 {
        None
    } else if ms.last().group_id == group_id {
        Some(ms.last().role)
    } else {
        last_group_role(ms.drop_last(), group_id)
    }
}

/// The role shown on a group's page: administrators are shown as such,
/// others by their (first) membership in the group, or as plain members.
pub fn current_group_role_label(is_admin: bool, memberships: &Vec<GroupMembership>, group_id: i32) -> (r: GroupRoleShown)
    ensures
        r == (if is_admin {
            GroupRoleShown::Administrator
        } else {
            match first_group_role(memberships@, group_id) {
                Some(role) => GroupRoleShown::Role(role),
                None => GroupRoleShown::Member,
            }
        }),
{
    if is_admin {
        return GroupRoleShown::Administrator;
    }
    let mut k: usize = 0;
    assert(memberships@.skip(0) =~= memberships@);
    while k < memberships.len()
        invariant
            !is_admin,
            k <= memberships@.len(),
            first_group_role(memberships@, group_id) == first_group_role(memberships@.skip(k as int), group_id),
        decreases memberships.len() - k,
    {
        assert(memberships@.skip(k as int).drop_first() =~= memberships@.skip(k + 1));
        assert(memberships@.skip(k as int)[0] == memberships@[k as int]);
        if memberships[k].group_id == group_id {
            return GroupRoleShown::Role(memberships[k].role);
        }
        k = k + 1;
    }
    GroupRoleShown::Member
}

/// The role shown in the group list: the user's (last) membership in the
/// group, else administrators as such and others as plain members; the
/// memberships of administrators are not consulted.
pub fn listing_group_role(is_admin: bool, memberships: &Vec<GroupMembership>, group_id: i32) -> (r: GroupRoleShown)
    ensures
        r == (if is_admin {
            GroupRoleShown::Administrator
        } else {
            match last_group_role(memberships@, group_id) {
                Some(role) => GroupRoleShown::Role(role),
                None => GroupRoleShown::Member,
            }
        }),
{
    if is_admin {
        return GroupRoleShown::Administrator;
    }
    let mut k: usize = memberships.len();
    assert(memberships@.take(k as int) =~= memberships@);
    while k > 0
        invariant
            !is_admin,
            k <= memberships@.len(),
            last_group_role(memberships@, group_id) == last_group_role(memberships@.take(k as int), group_id),
        decreases k,
    {
        assert(memberships@.take(k as int).drop_last() =~= memberships@.take(k - 1));
        if memberships[k - 1].group_id == group_id {
            return GroupRoleShown::Role(memberships[k - 1].role);
        }
        k = k - 1;
    }
    GroupRoleShown::Member
}

/// The names of a group's owners (role 1) whose users are known, in
/// membership order.
pub open spec fn owner_names(members: Seq<Membership>, users: Seq<User>) -> Seq<Seq<char>>
    decreases members.len(),
{
    if members.len() == 0 {
        Seq::empty()
    } else {
        let rest = owner_names(members.drop_last(), users);
        let m = members.last();
        if m.role == 1 && user_with_id(users, m.user_id) is Some {
            rest.push(user_with_id(users, m.user_id)->0.name@)
        } else {
            rest
        }
    }
}

fn find_user_index(users: &Vec<User>, id: i32) -> (r: Option<usize>)
    ensures
        match r {
            Some(i) => i < users@.len() && user_with_id(users@, id) == Some(users@[i as int]),
            None => user_with_id(users@, id) is None,
        },
{
    let mut i = users.len();
    assert(users@.take(users@.len() as int) =~= users@);
    while i > 0
        invariant
            i <= users@.len(),
            user_with_id(users@, id) == user_with_id(users@.take(i as int), id),
        decreases i,
    {
        assert(users@.take(i as int).drop_last() =~= users@.take(i - 1));
        if users[i - 1].id == id {
            return Some(i - 1);
        }
        i = i - 1;
    }
    None
}

/// The names of the owners of a group.
pub fn group_owner_names(members: &Vec<Membership>, users: &Vec<User>) -> (r: Vec<String>)
    ensures
        r@.map_values(|s: String| s@) == owner_names(members@, users@),
{
    let mut out: Vec<String> = Vec::new();
    let mut k: usize = 0;
    while k < members.len()
        invariant
            k <= members@.len(),
            out@.map_values(|s: String| s@) == owner_names(members@.take(k as int), users@),
        decreases members.len() - k,
    {
        let m = members[k];
        assert(members@.take(k + 1).drop_last() =~= members@.take(k as int));
        if m.role == 1 {
            if let Some(i) = find_user_index(users, m.user_id) {
                let ghost before = out@;
                out.push(users[i].name.clone());
                assert(out@.map_values(|s: String| s@) =~= before.map_values(|s: String| s@).push(users@[i as int].name@));
            }
        }
        k = k + 1;
    }
    assert(members@.take(k as int) =~= members@);
    out
}

/// `No owners assigned`, or the owners' names separated by commas.
pub fn owners_label(owners: &Vec<String>) -> (r: String)
    ensures
        r@ == (if owners@.len() == 0 {
            "No owners assigned"@
        } else {
            joined(owners@.map_values(|s: String| s@), ", "@)
        }),
{
    if owners.len() == 0 {
        String::from_str("No owners assigned")
    } else {
        join(owners, ", ")
    }
}

/// One row of the group list.
#[derive(Debug)]
pub struct GroupListing {
    pub id: i32,
    pub owners: Vec<String>,
    pub owners_label: String,
    pub member_count: usize,
    pub project_count: usize,
    pub current_role: GroupRoleShown,
}

/// The list row of one group: its owners and their label, its member and
/// project counts, and the current user's role there.
pub fn decorate_group_for_listing(
    is_admin: bool,
    user_groups: &Vec<GroupMembership>,
    users: &Vec<User>,
    group_id: i32,
    members: &Vec<Membership>,
    project_count: usize,
) -> (r: GroupListing)
    ensures
        r.id == group_id,
        r.owners@.map_values(|s: String| s@) == owner_names(members@, users@),
        r.owners_label@ == (if owner_names(members@, users@).len() == 0 {
            "No owners assigned"@
        } else {
            joined(owner_names(members@, users@), ", "@)
        }),
        r.member_count == members@.len(),
        r.project_count == project_count,
        r.current_role == (if is_admin {
            GroupRoleShown::Administrator
        } else {
            match last_group_role(user_groups@, group_id) {
                Some(role) => GroupRoleShown::Role(role),
                None => GroupRoleShown::Member,
            }
        }),
{
    let owners = group_owner_names(members, users);
    let label = owners_label(&owners);
    GroupListing {
        id: group_id,
        owners,
        owners_label: label,
        member_count: members.len(),
        project_count,
        current_role: listing_group_role(is_admin, user_groups, group_id),
    }
}

/// One row of a group's member list.
#[derive(Debug)]
pub struct GroupMemberRow {
    pub user_id: i32,
    pub name: String,
    pub username: String,
    pub email: String,
    pub role_id: i32,
    pub is_admin: bool,
    pub can_remove: bool,
    pub can_change_role: bool,
    pub is_last_owner: bool,
}

/// Whether a membership is the group's only owner.
pub open spec fn is_last_owner(m: Membership, owners: nat) -> bool {
    m.role == 1 && owners <= 1
}

/// The member row of one membership: the user's details (or an unknown-user
/// placeholder), and the remove / change-role actions offered to managers
/// except on the last owner.
pub fn build_group_member_row(users: &Vec<User>, can_manage: bool, owners: usize, m: &Membership) -> (r: GroupMemberRow)
    ensures
        r.user_id == m.user_id,
        r.role_id == m.role,
        r.name@ == (match user_with_id(users@, m.user_id) {
            Some(u) => u.name@,
            None => unknown_user_name(m.user_id),
        }),
        r.username@ == (match user_with_id(users@, m.user_id) {
            Some(u) => u.username@,
            None => "unknown"@,
        }),
        r.email@ == (match user_with_id(users@, m.user_id) {
            Some(u) => u.email@,
            None => Seq::<char>::empty(),
        }),
        r.is_admin == (match user_with_id(users@, m.user_id) {
            Some(u) => u.is_admin,
            None => false,
        }),
        r.is_last_owner == is_last_owner(*m, owners as nat),
        r.can_remove == (can_manage && !is_last_owner(*m, owners as nat)),
        r.can_change_role == (can_manage && !is_last_owner(*m, owners as nat)),
{
    let last_owner = m.role == 1 && owners <= 1;
    let allowed = can_manage && !last_owner;
    match find_user_index(users, m.user_id) {
        Some(i) => {
            let u = &users[i];
            GroupMemberRow {
                user_id: m.user_id,
                name: u.name.clone(),
                username: u.username.clone(),
                email: u.email.clone(),
                role_id: m.role,
                is_admin: u.is_admin,
                can_remove: allowed,
                can_change_role: allowed,
                is_last_owner: last_owner,
            }
        },
        None => {
            let mut name = String::from_str("Unknown User #");
            push_int(&mut name, m.user_id as i64);
            GroupMemberRow {
                user_id: m.user_id,
                name,
                username: String::from_str("unknown"),
                email: String::new(),
                role_id: m.role,
                is_admin: false,
                can_remove: allowed,
                can_change_role: allowed,
                is_last_owner: last_owner,
            }
        },
    }
}

/// The member list of a group, one row per membership in order, with the
/// owner count taken over all memberships.
pub fn decorate_group_members(users: &Vec<User>, memberships: &Vec<Membership>, can_manage: bool) -> (r: Vec<GroupMemberRow>)
    ensures
        r@.len() == memberships@.len(),
        forall|i: int|
            0 <= i < memberships@.len() ==> {
                &&& (#[trigger] r@[i]).user_id == memberships@[i].user_id
                &&& r@[i].role_id == memberships@[i].role
                &&& r@[i].is_last_owner == is_last_owner(memberships@[i], owner_count(memberships@))
                &&& r@[i].can_remove == (can_manage && !is_last_owner(memberships@[i], owner_count(memberships@)))
                &&& r@[i].can_change_role == r@[i].can_remove
                &&& r@[i].name@ == (match user_with_id(users@, memberships@[i].user_id) {
                    Some(u) => u.name@,
                    None => unknown_user_name(memberships@[i].user_id),
                })
            },
{
    let owners = count_owners(memberships);
    let mut rows: Vec<GroupMemberRow> = Vec::new();
    let mut i: usize = 0;
    while i < memberships.len()
        invariant
            i <= memberships@.len(),
            owners == owner_count(memberships@),
            rows@.len() == i,
            forall|k: int|
                0 <= k < i ==> {
                    &&& (#[trigger] rows@[k]).user_id == memberships@[k].user_id
                    &&& rows@[k].role_id == memberships@[k].role
                    &&& rows@[k].is_last_owner == is_last_owner(memberships@[k], owner_count(memberships@))
                    &&& rows@[k].can_remove == (can_manage && !is_last_owner(memberships@[k], owner_count(memberships@)))
                    &&& rows@[k].can_change_role == rows@[k].can_remove
                    &&& rows@[k].name@ == (match user_with_id(users@, memberships@[k].user_id) {
                        Some(u) => u.name@,
                        None => unknown_user_name(memberships@[k].user_id),
                    })
                },
        decreases memberships.len() - i,
    {
        let row = build_group_member_row(users, can_manage, owners, &memberships[i]);
        rows.push(row);
        i = i + 1;
    }
    rows
}

/// While a group has one owner, that owner can neither be removed nor
/// demoted from the member list; with two or more owners every owner can be,
/// by a manager.
pub proof fn lemma_last_owner_protected(m: Membership, owners: nat, can_manage: bool)
    requires
        m.role == 1,
    ensures
        owners <= 1 ==> !(can_manage && !is_last_owner(m, owners)),
        owners >= 2 ==> ((can_manage && !is_last_owner(m, owners)) == can_manage),
{
}

/// A project of a group, as the group page lists it.
#[derive(Debug)]
pub struct GroupProject {
    pub id: i32,
    pub slug: String,
    pub name: String,
    pub description: Option<String>,
    /// The title of the project's status.
    pub status_label: String,
    pub owner_id: Option<i32>,
}

/// One related project on a group's page.
#[derive(Debug)]
pub struct RelatedProject {
    pub id: i32,
    pub slug: String,
    pub name: String,
    pub description: Option<String>,
    pub status_label: String,
    pub owner_name: Option<String>,
    pub can_open: bool,
    /// Whether the project's edit link is offered: to administrators.
    pub can_edit_project: bool,
    /// Shown when the project cannot be opened.
    pub restricted_message: Option<String>,
}

/// The note on projects of the group that the user cannot open.
pub open spec fn restricted_text() -> Seq<char> {
    "You can see that this project belongs to the group, but you do not have direct access to open it."@
}

/// Whether the user can open a project of the group: administrators can
/// open all of them, others those they are members of.
pub open spec fn can_open_project(is_admin: bool, member_project_ids: Seq<i32>, id: i32) -> bool {
    is_admin || member_project_ids.contains(id)
}

/// The row of one related project.
pub open spec fn related_row_ok(
    r: RelatedProject,
    p: GroupProject,
    is_admin: bool,
    member_project_ids: Seq<i32>,
    users: Seq<User>,
) -> bool {
    &&& r.id == p.id
    &&& r.slug@ == p.slug@
    &&& r.name@ == p.name@
    &&& r.description == p.description
    &&& r.status_label@ == p.status_label@
    &&& r.can_open == can_open_project(is_admin, member_project_ids, p.id)
    &&& r.can_edit_project == is_admin
    &&& (r.owner_name matches Some(n) ==> p.owner_id matches Some(o) && user_with_id(users, o) matches Some(u) && n@ == u.name@)
    &&& (r.owner_name is None <==> (p.owner_id is None || user_with_id(users, p.owner_id->0) is None))
    &&& (r.restricted_message matches Some(m) ==> m@ == restricted_text())
    &&& (r.restricted_message is Some <==> !r.can_open)
}

/// The sort keys of a group's projects: their lower-cased names.
pub open spec fn group_project_keys(projects: Seq<GroupProject>) -> Seq<Seq<i64>> {
    projects.map_values(|p: GroupProject| name_key(p.name@))
}

/// Whether `r` lists the related projects of a group: one row per project,
/// ordered by lower-cased name, equal names keeping their order.
pub open spec fn related_rows(
    r: Seq<RelatedProject>,
    projects: Seq<GroupProject>,
    is_admin: bool,
    member_project_ids: Seq<i32>,
    users: Seq<User>,
) -> bool {
    exists|rows: Seq<RelatedProject>|
        {
            &&& rows.len() == projects.len()
            &&& forall|i: int|
                0 <= i < projects.len() ==> related_row_ok(
                    #[trigger] rows[i],
                    projects[i],
                    is_admin,
                    member_project_ids,
                    users,
                )
            &&& #[trigger] stably_sorted(r, rows, group_project_keys(projects), false)
        }
}

/// The related projects of a group, ordered by lower-cased name (equal
/// names keep their order).
pub fn related_projects(
    projects: &Vec<GroupProject>,
    is_admin: bool,
    member_project_ids: &Vec<i32>,
    users: &Vec<User>,
) -> (r: Vec<RelatedProject>)
    ensures
        related_rows(r@, projects@, is_admin, member_project_ids@, users@),
{
    let mut rows: Vec<RelatedProject> = Vec::new();
    let mut keys: Vec<Vec<i64>> = Vec::new();
    let ghost want = group_project_keys(projects@);
    let mut k: usize = 0;
    while k < projects.len()
        invariant
            k <= projects@.len(),
            want == group_project_keys(projects@),
            rows@.len() == k,
            keys@.len() == k,
            key_views(keys@) == want.take(k as int),
            forall|i: int|
                0 <= i < k ==> related_row_ok(
                    #[trigger] rows@[i],
                    projects@[i],
                    is_admin,
                    member_project_ids@,
                    users@,
                ),
        decreases projects.len() - k,
    {
        let p = &projects[k];
        let can_open = is_admin || contains_id(member_project_ids, p.id);
        let owner_name = match p.owner_id {
            Some(o) => match find_user_index(users, o) {
                Some(i) => Some(users[i].name.clone()),
                None => None,
            },
            None => None,
        };
        let restricted_message = if can_open {
            None
        } else {
            Some(String::from_str("You can see that this project belongs to the group, but you do not have direct access to open it."))
        };
        rows.push(
            RelatedProject {
                id: p.id,
                slug: p.slug.clone(),
                name: p.name.clone(),
                description: copy_opt_string(&p.description),
                status_label: p.status_label.clone(),
                owner_name,
                can_open,
                can_edit_project: is_admin,
                restricted_message,
            },
        );
        let key = lowercase_key_of(p.name.as_str());
        let ghost before = keys@;
        keys.push(key);
        k = k + 1;
        proof {
            assert forall|j: int| 0 <= j < k implies #[trigger] key_views(keys@)[j] == want[j] by {
                if j < k - 1 {
                    assert(keys@[j] == before[j]);
                    assert(key_views(before)[j] == before[j]@);
                    assert(want.take(k - 1)[j] == want[j]);
                }
            }
            assert(key_views(keys@) =~= want.take(k as int));
        }
    }
    assert(want.take(k as int) =~= want);
    let ghost rows_view = rows@;
    let sorted = stable_sort_by_keys(rows, keys, false);
    assert(stably_sorted(sorted@, rows_view, want, false));
    sorted
}

/// Where a group form sends the browser, with the messages of the page it
/// lands on.
#[derive(Debug)]
pub enum GroupRedirect {
    /// The group list, `/groups?<success>&<error>`.
    Groups { success: Option<String>, error: Option<String> },
    /// The creation form, `/groups/new?<error>`.
    NewGroup { error: Option<String> },
    /// A group's page, `/g/<slug>?<success>&<error>`.
    Group { slug: String, success: Option<String>, error: Option<String> },
    /// A group's edit page, `/g/<slug>/edit?<success>&<error>`.
    EditGroup { slug: String, success: Option<String>, error: Option<String> },
    /// A group's member page, `/g/<slug>/members?<success>&<error>`.
    Members { slug: String, success: Option<String>, error: Option<String> },
}

/// Whether an optional message holds exactly `text`.
pub open spec fn holds_text(m: Option<String>, text: Seq<char>) -> bool {
    m matches Some(s) && s@ == text
}

/// After creating a group (`created` holds the new group's slug when it
/// could be read back): its page, or the list when it could not be read
/// back, both with a success message; the creation form with the error
/// otherwise.
pub fn post_group(created: Result<Option<String>, RepoError>) -> (r: Result<GroupRedirect, GroupRedirect>)
    ensures
        created matches Ok(Some(slug)) ==> (r matches Ok(GroupRedirect::Group { slug: s, success, error })
            && s == slug && holds_text(success, "Group created successfully."@) && error is None),
        created matches Ok(None) ==> (r matches Ok(GroupRedirect::Groups { success, error }) && holds_text(
            success,
            "Group created successfully."@,
        ) && error is None),
        created matches Err(e) ==> (r matches Err(GroupRedirect::NewGroup { error }) && holds_text(
            error,
            group_error_text(e, "Failed to create group. Please try again."@),
        )),
{
    match created {
        Ok(Some(slug)) => Ok(
            GroupRedirect::Group {
                slug,
                success: Some(String::from_str("Group created successfully.")),
                error: None,
            },
        ),
        Ok(None) => Ok(
            GroupRedirect::Groups { success: Some(String::from_str("Group created successfully.")), error: None },
        ),
        Err(e) => Err(
            GroupRedirect::NewGroup {
                error: Some(friendly_group_error(e, "Failed to create group. Please try again.")),
            },
        ),
    }
}

/// After editing a group: its page with a success message, or the edit page
/// with the error.
pub fn post_edit_group(group_slug: &str, outcome: Result<(), RepoError>) -> (r: Result<GroupRedirect, GroupRedirect>)
    ensures
        outcome is Ok ==> (r matches Ok(GroupRedirect::Group { slug, success, error }) && slug@ == group_slug@
            && holds_text(success, "Group updated successfully."@) && error is None),
        outcome matches Err(e) ==> (r matches Err(GroupRedirect::EditGroup { slug, success, error })
            && slug@ == group_slug@ && success is None && holds_text(
            error,
            group_error_text(e, "Failed to update group. Please try again."@),
        )),
{
    match outcome {
        Ok(()) => Ok(
            GroupRedirect::Group {
                slug: String::from_str(group_slug),
                success: Some(String::from_str("Group updated successfully.")),
                error: None,
            },
        ),
        Err(e) => Err(
            GroupRedirect::EditGroup {
                slug: String::from_str(group_slug),
                success: None,
                error: Some(friendly_group_error(e, "Failed to update group. Please try again.")),
            },
        ),
    }
}

/// After deleting a group: the list with a success message, or the edit page
/// with the error.
pub fn delete_group(group_slug: &str, outcome: Result<(), RepoError>) -> (r: Result<GroupRedirect, GroupRedirect>)
    ensures
        outcome is Ok ==> (r matches Ok(GroupRedirect::Groups { success, error }) && holds_text(
            success,
            "Group deleted successfully."@,
        ) && error is None),
        outcome matches Err(e) ==> (r matches Err(GroupRedirect::EditGroup { slug, success, error })
            && slug@ == group_slug@ && success is None && holds_text(
            error,
            group_error_text(e, "Failed to delete group. Please try again."@),
        )),
{
    match outcome {
        Ok(()) => Ok(
            GroupRedirect::Groups { success: Some(String::from_str("Group deleted successfully.")), error: None },
        ),
        Err(e) => Err(
            GroupRedirect::EditGroup {
                slug: String::from_str(group_slug),
                success: None,
                error: Some(friendly_group_error(e, "Failed to delete group. Please try again.")),
            },
        ),
    }
}

/// The member page after a change of membership: with `done` on success,
/// with the error (or `fallback`) otherwise.
pub open spec fn member_change_ok(
    r: GroupRedirect,
    group_slug: Seq<char>,
    outcome: Result<(), RepoError>,
    done: Seq<char>,
    fallback: Seq<char>,
) -> bool {
    &&& r matches GroupRedirect::Members { slug, success, error } && slug@ == group_slug
    &&& outcome is Ok ==> (r matches GroupRedirect::Members { success, error, .. } && holds_text(success, done)
        && error is None)
    &&& outcome matches Err(e) ==> (r matches GroupRedirect::Members { success, error, .. } && success is None
        && holds_text(error, group_error_text(e, fallback)))
}

fn member_change_redirect(group_slug: &str, outcome: Result<(), RepoError>, done: &str, fallback: &str) -> (r: GroupRedirect)
    ensures
        member_change_ok(r, group_slug@, outcome, done@, fallback@),
{
    match outcome {
        Ok(()) => GroupRedirect::Members {
            slug: String::from_str(group_slug),
            success: Some(String::from_str(done)),
            error: None,
        },
        Err(e) => GroupRedirect::Members {
            slug: String::from_str(group_slug),
            success: None,
            error: Some(friendly_group_error(e, fallback)),
        },
    }
}

/// After adding a member: the member page with a success message or the
/// error.
pub fn add_group_member(group_slug: &str, outcome: Result<(), RepoError>) -> (r: GroupRedirect)
    ensures
        member_change_ok(
            r,
            group_slug@,
            outcome,
            "Member added successfully."@,
            "Failed to add member. Please try again."@,
        ),
{
    member_change_redirect(group_slug, outcome, "Member added successfully.", "Failed to add member. Please try again.")
}

/// After changing a member's role: the member page with a success message
/// or the error.
pub fn update_group_member_role(group_slug: &str, outcome: Result<(), RepoError>) -> (r: GroupRedirect)
    ensures
        member_change_ok(
            r,
            group_slug@,
            outcome,
            "Member role updated successfully."@,
            "Failed to update member role. Please try again."@,
        ),
{
    member_change_redirect(
        group_slug,
        outcome,
        "Member role updated successfully.",
        "Failed to update member role. Please try again.",
    )
}

/// After removing a member: the member page with a success message or the
/// error.
pub fn remove_group_member(group_slug: &str, outcome: Result<(), RepoError>) -> (r: GroupRedirect)
    ensures
        member_change_ok(
            r,
            group_slug@,
            outcome,
            "Member removed successfully."@,
            "Failed to remove member. Please try again."@,
        ),
{
    member_change_redirect(
        group_slug,
        outcome,
        "Member removed successfully.",
        "Failed to remove member. Please try again.",
    )
}

/// The group list page.
#[derive(Debug)]
pub struct GroupsPage {
    pub template: String,
    pub page_title: String,
    pub groups: Vec<GroupListing>,
    pub success: Option<String>,
    pub error: Option<String>,
}

/// The group list page: the listed groups and the messages passed on.
pub fn show_groups(groups: Vec<GroupListing>, success: Option<String>, error: Option<String>) -> (p: GroupsPage)
    ensures
        p.template@ == "groups"@,
        p.page_title@ == "Groups"@,
        p.groups@ == groups@,
        p.success == success,
        p.error == error,
{
    GroupsPage {
        template: String::from_str("groups"),
        page_title: String::from_str("Groups"),
        groups,
        success,
        error,
    }
}

/// The group creation page.
#[derive(Debug)]
pub struct NewGroupPage {
    pub template: String,
    pub page_title: String,
    /// The form's initial name and description.
    pub form_name: String,
    pub form_description: String,
    pub error: Option<String>,
}

/// The group creation page: an empty form and the error passed on.
pub fn new_group(error: Option<String>) -> (p: NewGroupPage)
    ensures
        p.template@ == "new_group"@,
        p.page_title@ == "New Group"@,
        p.form_name@ == Seq::<char>::empty(),
        p.form_description@ == Seq::<char>::empty(),
        p.error == error,
{
    NewGroupPage {
        template: String::from_str("new_group"),
        page_title: String::from_str("New Group"),
        form_name: String::new(),
        form_description: String::new(),
        error,
    }
}

/// A group as its pages show it.
#[derive(Debug)]
pub struct GroupInfo {
    pub id: i32,
    pub name: String,
    pub slug: String,
    pub description: Option<String>,
}

/// The edit page of a group.
#[derive(Debug)]
pub struct EditGroupPage {
    pub template: String,
    pub page_title: String,
    pub group: GroupInfo,
    pub project_count: usize,
    pub member_count: usize,
    pub success: Option<String>,
    pub error: Option<String>,
}

/// The edit page of a group, or the group list when the group could not be
/// loaded; a project or member list that could not be loaded counts as
/// empty. The page shows the slug of the request.
pub fn edit_group(
    group: Result<GroupInfo, RepoError>,
    group_slug: &str,
    project_count: Option<usize>,
    member_count: Option<usize>,
    success: Option<String>,
    error: Option<String>,
) -> (r: Result<EditGroupPage, GroupRedirect>)
    ensures
        group is Err ==> (r matches Err(GroupRedirect::Groups { success, error }) && success is None
            && error is None),
        group matches Ok(g) ==> (r matches Ok(p) && p.template@ == "edit_group"@ && p.page_title@ == "Edit "@
            + g.name@ + " - Group"@ && p.group.id == g.id && p.group.name == g.name && p.group.slug@
            == group_slug@ && p.group.description == g.description && p.project_count == (match project_count {
            Some(n) => n,
            None => 0,
        }) && p.member_count == (match member_count {
            Some(n) => n,
            None => 0,
        }) && p.success == success && p.error == error),
{
    match group {
        Err(_) => Err(GroupRedirect::Groups { success: None, error: None }),
        Ok(g) => {
            let mut title = concat("Edit ", g.name.as_str());
            push_str(&mut title, " - Group");
            Ok(
                EditGroupPage {
                    template: String::from_str("edit_group"),
                    page_title: title,
                    group: GroupInfo { id: g.id, name: g.name, slug: String::from_str(group_slug), description: g.description },
                    project_count: match project_count {
                        Some(n) => n,
                        None => 0,
                    },
                    member_count: match member_count {
                        Some(n) => n,
                        None => 0,
                    },
                    success,
                    error,
                },
            )
        },
    }
}

/// The member page of a group.
#[derive(Debug)]
pub struct GroupMembersPage {
    pub template: String,
    pub page_title: String,
    pub group: GroupInfo,
    pub members: Vec<GroupMemberRow>,
    pub member_count: usize,
    pub owner_count: usize,
    pub can_manage_members: bool,
    pub available_users: Vec<CandidateUser>,
    pub has_available_users: bool,
    pub success: Option<String>,
    pub error: Option<String>,
}

/// The member page of a group, or the group list when the group could not
/// be loaded: one row per membership, the owner count, and for managers the
/// users that may be added.
pub fn show_group_members(
    group: Result<GroupInfo, RepoError>,
    users: &Vec<User>,
    memberships: &Vec<Membership>,
    can_manage: bool,
    success: Option<String>,
    error: Option<String>,
) -> (r: Result<GroupMembersPage, GroupRedirect>)
    ensures
        group is Err ==> (r matches Err(GroupRedirect::Groups { success, error }) && success is None
            && error is None),
        group matches Ok(g) ==> (r matches Ok(p) && p.template@ == "group_members"@ && p.page_title@ == g.name@
            + " - Members"@ && p.group == g && p.members@.len() == memberships@.len() && p.member_count
            == memberships@.len() && p.owner_count == owner_count(memberships@) && p.can_manage_members
            == can_manage && candidate_views(p.available_users@) == (if can_manage {
            candidates(users@, memberships@)
        } else {
            Seq::empty()
        }) && p.has_available_users == (p.available_users@.len() > 0) && p.success == success && p.error
            == error && forall|i: int|
            0 <= i < memberships@.len() ==> {
                &&& (#[trigger] p.members@[i]).user_id == memberships@[i].user_id
                &&& p.members@[i].role_id == memberships@[i].role
                &&& p.members@[i].is_last_owner == is_last_owner(memberships@[i], owner_count(memberships@))
                &&& p.members@[i].can_remove == (can_manage && !is_last_owner(
                    memberships@[i],
                    owner_count(memberships@),
                ))
                &&& p.members@[i].can_change_role == p.members@[i].can_remove
            }),
{
    match group {
        Err(_) => Err(GroupRedirect::Groups { success: None, error: None }),
        Ok(g) => {
            let members = decorate_group_members(users, memberships, can_manage);
            let available = available_users(users, memberships, can_manage);
            let has_available = available.len() > 0;
            let mut title = String::new();
            push_str(&mut title, g.name.as_str());
            push_str(&mut title, " - Members");
            Ok(
                GroupMembersPage {
                    template: String::from_str("group_members"),
                    page_title: title,
                    group: g,
                    members,
                    member_count: memberships.len(),
                    owner_count: count_owners(memberships),
                    can_manage_members: can_manage,
                    available_users: available,
                    has_available_users: has_available,
                    success,
                    error,
                },
            )
        },
    }
}

proof fn lemma_related_rows_len(
    r: Seq<RelatedProject>,
    projects: Seq<GroupProject>,
    is_admin: bool,
    member_project_ids: Seq<i32>,
    users: Seq<User>,
)
    requires
        related_rows(r, projects, is_admin, member_project_ids, users),
    ensures
        r.len() == projects.len(),
{
    let rows = choose|rows: Seq<RelatedProject>|
        {
            &&& rows.len() == projects.len()
            &&& forall|i: int|
                0 <= i < projects.len() ==> related_row_ok(
                    #[trigger] rows[i],
                    projects[i],
                    is_admin,
                    member_project_ids,
                    users,
                )
            &&& #[trigger] stably_sorted(r, rows, group_project_keys(projects), false)
        };
    let keys = group_project_keys(projects);
    let order = choose|order: Seq<int>|
        #[trigger] is_stable_order(order, keys, false) && r == order.map_values(|i: int| rows[i]);
    assert(keys.len() == projects.len());
}

/// The page of a group.
#[derive(Debug)]
pub struct GroupPage {
    pub template: String,
    pub page_title: String,
    pub group: GroupInfo,
    pub member_count: usize,
    pub project_count: usize,
    pub owners: Vec<String>,
    pub owners_label: String,
    pub current_role: GroupRoleShown,
    pub related_projects: Vec<RelatedProject>,
    pub can_manage_members: bool,
    pub group_slug: String,
    pub success: Option<String>,
    pub error: Option<String>,
}

/// The page of a group, or the group list when the group could not be
/// loaded: its owners, the user's role there, its projects (which the user
/// may open, ordered by name) and its counts.
pub fn show_group(
    group: Result<GroupInfo, RepoError>,
    group_slug: &str,
    is_admin: bool,
    user_groups: &Vec<GroupMembership>,
    users: &Vec<User>,
    members: &Vec<Membership>,
    projects: &Vec<GroupProject>,
    member_project_ids: &Vec<i32>,
    can_manage: bool,
    success: Option<String>,
    error: Option<String>,
) -> (r: Result<GroupPage, GroupRedirect>)
    ensures
        group is Err ==> (r matches Err(GroupRedirect::Groups { success, error }) && success is None
            && error is None),
        group matches Ok(g) ==> (r matches Ok(p) && p.template@ == "group"@ && p.page_title@ == g.name@
            + " - Group"@ && p.group == g && p.member_count == members@.len() && p.project_count
            == projects@.len() && p.owners@.map_values(|o: String| o@) == owner_names(members@, users@)
            && p.owners_label@ == (if owner_names(members@, users@).len() == 0 {
            "No owners assigned"@
        } else {
            joined(owner_names(members@, users@), ", "@)
        }) && p.current_role == (if is_admin {
            GroupRoleShown::Administrator
        } else {
            match first_group_role(user_groups@, g.id) {
                Some(role) => GroupRoleShown::Role(role),
                None => GroupRoleShown::Member,
            }
        }) && related_rows(p.related_projects@, projects@, is_admin, member_project_ids@, users@)
            && p.can_manage_members == can_manage && p.group_slug@ == group_slug@ && p.success == success
            && p.error == error),
{
    match group {
        Err(_) => Err(GroupRedirect::Groups { success: None, error: None }),
        Ok(g) => {
            let owners = group_owner_names(members, users);
            let label = owners_label(&owners);
            let role = current_group_role_label(is_admin, user_groups, g.id);
            let related = related_projects(projects, is_admin, member_project_ids, users);
            proof {
                lemma_related_rows_len(related@, projects@, is_admin, member_project_ids@, users@);
            }
            let mut title = String::new();
            push_str(&mut title, g.name.as_str());
            push_str(&mut title, " - Group");
            Ok(
                GroupPage {
                    template: String::from_str("group"),
                    page_title: title,
                    group: g,
                    member_count: members.len(),
                    project_count: related.len(),
                    owners,
                    owners_label: label,
                    current_role: role,
                    related_projects: related,
                    can_manage_members: can_manage,
                    group_slug: String::from_str(group_slug),
                    success,
                    error,
                },
            )
        },
    }
}

} // verus!
