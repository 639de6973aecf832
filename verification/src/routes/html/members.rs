use vstd::prelude::*;

use crate::models::{Membership, RepoError, User};
use crate::route_info::{route, route_view, route_views, Method, RouteInfo, RouteView};
use crate::routes::html::project::members::{
    allow_removal, available_users, candidate_views, candidates, count_owners, decorate_members,
    member_row, member_row_views, owner_count, removes_last_owner, CandidateUser, MemberRow,
};

verus! {

/// The routes this module serves, in mounting order: method, path pattern
/// and handler name.
pub open spec fn route_table() -> Seq<RouteView> {
    seq![
        route_view(Method::Get, "/<project_id>/members"@, "show_project_members"@),
        route_view(Method::Post, "/<project_id>/members"@, "add_project_member"@),
        route_view(Method::Post, "/<project_id>/members/<member_id>/remove"@, "remove_project_member"@),
    ]
}

/// The routes of this module, in the order they are mounted.
pub fn routes() -> (r: Vec<RouteInfo>)
    ensures
        route_views(r@) == route_table(),
{
    let mut r: Vec<RouteInfo> = Vec::new();
    r.push(route(Method::Get, "/<project_id>/members", "show_project_members"));
    r.push(route(Method::Post, "/<project_id>/members", "add_project_member"));
    r.push(route(Method::Post, "/<project_id>/members/<member_id>/remove", "remove_project_member"));
    assert(route_views(r@) =~= route_table());
    r
}

/// The form that adds a member to a project.
#[derive(Debug)]
pub struct ProjectMemberForm {
    pub user_id: i32,
    pub role: i32,
}

/// Whether the user owns the project: some membership of the user has the
/// owner role.
pub open spec fn owns_project(members: Seq<Membership>, user_id: i32) -> bool {
    exists|i: int| 0 <= i < members.len() && #[trigger] members[i].user_id == user_id && members[i].role == 1
}

/// Whether the user owns the project, from its loaded memberships; a failed
/// load counts as not owning it.
pub fn is_project_owner(members: &Result<Vec<Membership>, RepoError>, user_id: i32) -> (r: bool)
    ensures
        r == (match members {
            Ok(ms) => owns_project(ms@, user_id),
            Err(_) => false,
        }),
{
    match members {
        Ok(ms) => {
            let mut k: usize = 0;
            while k < ms.len()
                invariant
                    members matches Ok(x) && x@ == ms@,
                    k <= ms@.len(),
                    forall|j: int| 0 <= j < k ==> !(#[trigger] ms@[j].user_id == user_id && ms@[j].role == 1),
                decreases ms.len() - k,
            {
                if ms[k].user_id == user_id && ms[k].role == 1 {
                    return true;
                }
                k = k + 1;
            }
            false
        },
        Err(_) => false,
    }
}

/// The member page of a project.
#[derive(Debug)]
pub struct MembersPage {
    pub members: Vec<MemberRow>,
    pub can_manage_members: bool,
    pub available_users: Vec<CandidateUser>,
    pub owner_count: usize,
    pub member_count: usize,
    pub has_available_users: bool,
}

/// The member page: one row per membership, the users that may be added
/// (only for owners), and the counts.
pub fn show_project_members(
    users: &Vec<User>,
    memberships: &Vec<Membership>,
    current_user_id: i32,
) -> (p: MembersPage)
    ensures
        p.can_manage_members == owns_project(memberships@, current_user_id),
        member_row_views(p.members@) == memberships@.map_values(
            |m: Membership| member_row(users@, p.can_manage_members, owner_count(memberships@), current_user_id, m),
        ),
        candidate_views(p.available_users@) == (if p.can_manage_members {
            candidates(users@, memberships@)
        } else {
            Seq::empty()
        }),
        p.owner_count == owner_count(memberships@),
        p.member_count == memberships@.len(),
        p.has_available_users == (p.available_users@.len() > 0),
{
    let mut can_manage = false;
    let mut k: usize = 0;
    while k < memberships.len()
        invariant
            k <= memberships@.len(),
            can_manage == exists|j: int| 0 <= j < k && #[trigger] memberships@[j].user_id == current_user_id && memberships@[j].role == 1,
        decreases memberships.len() - k,
    {
        if memberships[k].user_id == current_user_id && memberships[k].role == 1 {
            can_manage = true;
        }
        k = k + 1;
    }
    let members = decorate_members(users, memberships, can_manage, current_user_id);
    let available = available_users(users, memberships, can_manage);
    let owners = count_owners(memberships);
    let has_available = available.len() > 0;
    MembersPage {
        member_count: memberships.len(),
        members,
        can_manage_members: can_manage,
        available_users: available,
        owner_count: owners,
        has_available_users: has_available,
    }
}

/// Whether a removal goes ahead: only an owner removes members, and never
/// the project's last owner.
pub fn remove_member_allowed(is_owner: bool, members: &Vec<Membership>, member_id: i32) -> (r: bool)
    ensures
        r == (is_owner && !removes_last_owner(members@, member_id)),
{
    if !is_owner {
        return false;
    }
    allow_removal(members, member_id)
}

} // verus!
