use vstd::prelude::*;

use crate::models::{Membership, User};
use crate::route_info::{route, route_view, route_views, Method, RouteInfo, RouteView};
use crate::routes::html::helpers::{describe_project_role, opt_view, project_role_label};
use crate::text::{concat, int_decimal, push_int, push_str};

verus! {

/// The routes this module serves, in mounting order: method, path pattern
/// and handler name.
pub open spec fn route_table() -> Seq<RouteView> {
    seq![
        route_view(Method::Get, "/<project_id>/members"@, "show_project_members"@),
        route_view(Method::Post, "/<project_id>/members"@, "add_project_member"@),
        route_view(Method::Post, "/<project_id>/members/<member_id>/remove"@, "remove_project_member"@),
    ]
}

/// The routes of this module, in the order they are mounted.
pub fn routes() -> (r: Vec<RouteInfo>)
    ensures
        route_views(r@) == route_table(),
{
    let mut r: Vec<RouteInfo> = Vec::new();
    r.push(route(Method::Get, "/<project_id>/members", "show_project_members"));
    r.push(route(Method::Post, "/<project_id>/members", "add_project_member"));
    r.push(route(Method::Post, "/<project_id>/members/<member_id>/remove", "remove_project_member"));
    assert(route_views(r@) =~= route_table());
    r
}


/// Form that adds a member to a project.
#[derive(Debug)]
pub struct ProjectMemberForm {
    pub id: i32,
    pub role: i32,
}

/// Number of owner memberships (role 1).
pub open spec fn owner_count(ms: Seq<Membership>) -> nat
    decreases ms.len(),
{
    if ms.len() == 0 {
        0
    } else {
        owner_count(ms.drop_last()) + if ms.last().role == 1 {
            1nat
        } else {
            0nat
        }
    }
}

/// Whether a member may be removed: only by someone who manages members,
/// and never when the member is the only owner.
pub open spec fn may_remove(can_manage_members: bool, owner_count: nat, member: Membership, current_user_id: i32) -> bool {
    can_manage_members && !(member.role == 1 && owner_count <= 1)
}

/// Whether the "remove" action is offered for a member.
pub fn can_remove_member(can_manage_members: bool, owner_count: usize, member: &Membership, current_user_id: i32) -> (r: bool)
    ensures
        r == may_remove(can_manage_members, owner_count as nat, *member, current_user_id),
{
    if !can_manage_members {
        return false;
    }
    let is_owner = member.role == 1;
    let is_last_owner = is_owner && owner_count <= 1;
    if is_last_owner {
        return false;
    }
    if member.user_id == current_user_id && is_owner && owner_count <= 1 {
        return false;
    }
    true
}

/// Counts the owner memberships.
pub fn count_owners(ms: &Vec<Membership>) -> (n: usize)
    ensures
        n == owner_count(ms@),
{
    let mut n: usize = 0;
    let mut i: usize = 0;
    while i < ms.len()
        invariant
            i <= ms@.len(),
            n == owner_count(ms@.take(i as int)),
            n <= i,
        decreases ms.len() - i,
    {
        assert(ms@.take(i + 1).drop_last() =~= ms@.take(i as int));
        if ms[i].role == 1 {
            n = n + 1;
        }
        i = i + 1;
    }
    assert(ms@.take(i as int) =~= ms@);
    n
}

/// Some membership of `member_id` is the only owner.
pub open spec fn removes_last_owner(ms: Seq<Membership>, member_id: i32) -> bool {
    exists|i: int| 0 <= i < ms.len() && #[trigger] ms[i].user_id == member_id && ms[i].role == 1 && owner_count(ms) <= 1
}

/// Whether removing a member from a project is allowed: not when the member
/// is the project's only owner.
pub fn allow_removal(ms: &Vec<Membership>, member_id: i32) -> (r: bool)
    ensures
        r == !removes_last_owner(ms@, member_id),
{
    let owners = count_owners(ms);
    let mut i: usize = 0;
    while i < ms.len()
        invariant
            i <= ms@.len(),
            owners == owner_count(ms@),
            forall|j: int| 0 <= j < i ==> !(ms@[j].user_id == member_id && ms@[j].role == 1 && owners <= 1),
        decreases ms.len() - i,
    {
        if ms[i].user_id == member_id && ms[i].role == 1 && owners <= 1 {
            return false;
        }
        i = i + 1;
    }
    true
}

/// One row of a member list.
#[derive(Debug)]
pub struct MemberRow {
    pub user_id: i32,
    pub name: String,
    pub username: String,
    pub email: String,
    pub role_id: i32,
    pub role_label: String,
    pub is_admin: bool,
    pub can_remove: bool,
}

/// View of a member row.
pub struct MemberRowView {
    pub user_id: i32,
    pub name: Seq<char>,
    pub username: Seq<char>,
    pub email: Seq<char>,
    pub role_id: i32,
    pub role_label: Seq<char>,
    pub is_admin: bool,
    pub can_remove: bool,
}

impl View for MemberRow {
    type V = MemberRowView;

    open spec fn view(&self) -> MemberRowView {
        MemberRowView {
            user_id: self.user_id,
            name: self.name@,
            username: self.username@,
            email: self.email@,
            role_id: self.role_id,
            role_label: self.role_label@,
            is_admin: self.is_admin,
            can_remove: self.can_remove,
        }
    }
}

/// The last user with the id (as a map collected from the list keeps).
pub open spec fn user_with_id(users: Seq<User>, id: i32) -> Option<User>
    decreases users.len(),
{
    if users.len() == 0 {
        None
    } else if users.last().id == id {
        Some(users.last())
    } else {
        user_with_id(users.drop_last(), id)
    }
}

/// Name shown for a membership whose user is unknown.
pub open spec fn unknown_user_name(id: i32) -> Seq<char> {
    "Unknown User #"@ + int_decimal(id as int)
}

/// The row of one membership.
pub open spec fn member_row(users: Seq<User>, can_manage: bool, owners: nat, current_user_id: i32, m: Membership) -> MemberRowView {
    let u = user_with_id(users, m.user_id);
    MemberRowView {
        user_id: m.user_id,
        name: match u {
            Some(u) => u.name@,
            None => unknown_user_name(m.user_id),
        },
        username: match u {
            Some(u) => u.username@,
            None => "unknown"@,
        },
        email: match u {
            Some(u) => u.email@,
            None => Seq::empty(),
        },
        role_id: m.role,
        role_label: project_role_label(m.role),
        is_admin: match u {
            Some(u) => u.is_admin,
            None => false,
        },
        can_remove: may_remove(can_manage, owners, m, current_user_id),
    }
}

fn find_user(users: &Vec<User>, id: i32) -> (r: Option<usize>)
    ensures
        match r {
            Some(i) => i < users@.len() && user_with_id(users@, id) == Some(users@[i as int]),
            None => user_with_id(users@, id) is None,
        },
{
    let mut i = users.len();
    assert(users@.take(users@.len() as int) =~= users@);
    while i > 0
        invariant
            i <= users@.len(),
            user_with_id(users@, id) == user_with_id(users@.take(i as int), id),
        decreases i,
    {
        assert(users@.take(i as int).drop_last() =~= users@.take(i - 1));
        if users[i - 1].id == id {
            return Some(i - 1);
        }
        i = i - 1;
    }
    None
}

/// Builds the row of one membership.
pub fn build_member_row(users: &Vec<User>, can_manage: bool, owners: usize, current_user_id: i32, m: &Membership) -> (r: MemberRow)
    ensures
        r@ == member_row(users@, can_manage, owners as nat, current_user_id, *m),
{
    let can_remove = can_remove_member(can_manage, owners, m, current_user_id);
    match find_user(users, m.user_id) {
        Some(i) => {
            let u = &users[i];
            MemberRow {
                user_id: m.user_id,
                name: u.name.clone(),
                username: u.username.clone(),
                email: u.email.clone(),
                role_id: m.role,
                role_label: String::from_str(describe_project_role(m.role)),
                is_admin: u.is_admin,
                can_remove,
            }
        },
        None => {
            let mut name = String::from_str("Unknown User #");
            push_int(&mut name, m.user_id as i64);
            MemberRow {
                user_id: m.user_id,
                name,
                username: String::from_str("unknown"),
                email: String::new(),
                role_id: m.role,
                role_label: String::from_str(describe_project_role(m.role)),
                is_admin: false,
                can_remove,
            }
        },
    }
}

/// Views of member rows.
pub open spec fn member_row_views(rows: Seq<MemberRow>) -> Seq<MemberRowView> {
    rows.map_values(|r: MemberRow| r@)
}

/// The member list of a project: one row per membership, in order, with the
/// user's details (or an "Unknown User" placeholder) and whether the
/// current user may remove that member.
pub fn decorate_members(users: &Vec<User>, memberships: &Vec<Membership>, can_manage: bool, current_user_id: i32) -> (r: Vec<MemberRow>)
    ensures
        member_row_views(r@) == memberships@.map_values(|m: Membership| member_row(users@, can_manage, owner_count(memberships@), current_user_id, m)),
{
    let owners = count_owners(memberships);
    let mut rows: Vec<MemberRow> = Vec::new();
    let mut i: usize = 0;
    while i < memberships.len()
        invariant
            i <= memberships@.len(),
            owners == owner_count(memberships@),
            member_row_views(rows@) == memberships@.take(i as int).map_values(|m: Membership| member_row(users@, can_manage, owner_count(memberships@), current_user_id, m)),
        decreases memberships.len() - i,
    {
        let row = build_member_row(users, can_manage, owners, current_user_id, &memberships[i]);
        let ghost before = rows@;
        rows.push(row);
        proof {
            assert(member_row_views(rows@) =~= member_row_views(before).push(rows@.last()@));
            assert(memberships@.take(i + 1) =~= memberships@.take(i as int).push(memberships@[i as int]));
        }
        i = i + 1;
    }
    assert(memberships@.take(i as int) =~= memberships@);
    rows
}

/// A user who can be added to the project.
#[derive(Debug)]
pub struct CandidateUser {
    pub id: i32,
    /// "Name (@username)".
    pub label: String,
}

/// Label of a user in the "add member" list.
pub open spec fn candidate_label(u: User) -> Seq<char> {
    u.name@ + " (@"@ + u.username@ + ")"@
}

/// Whether some membership belongs to the user.
pub open spec fn is_member(ms: Seq<Membership>, user_id: i32) -> bool {
    exists|i: int| 0 <= i < ms.len() && #[trigger] ms[i].user_id == user_id
}

/// The users that are not yet members, in order, with their labels.
pub open spec fn candidates(users: Seq<User>, ms: Seq<Membership>) -> Seq<(i32, Seq<char>)>
    decreases users.len(),
{
    if users.len() == 0 {
        Seq::empty()
    } else {
        let rest = candidates(users.drop_last(), ms);
        let u = users.last();
        if is_member(ms, u.id) {
            rest
        } else {
            rest.push((u.id, candidate_label(u)))
        }
    }
}

fn has_member(ms: &Vec<Membership>, user_id: i32) -> (r: bool)
    ensures
        r == is_member(ms@, user_id),
{
    let mut i: usize = 0;
    while i < ms.len()
        invariant
            i <= ms@.len(),
            forall|j: int| 0 <= j < i ==> ms@[j].user_id != user_id,
        decreases ms.len() - i,
    {
        if ms[i].user_id == user_id {
            return true;
        }
        i = i + 1;
    }
    false
}

/// Views of candidate users.
pub open spec fn candidate_views(c: Seq<CandidateUser>) -> Seq<(i32, Seq<char>)> {
    c.map_values(|x: CandidateUser| (x.id, x.label@))
}

/// The users that can be added as members: none unless the current user
/// manages members, otherwise every user without a membership.
pub fn available_users(users: &Vec<User>, memberships: &Vec<Membership>, can_manage: bool) -> (r: Vec<CandidateUser>)
    ensures
        candidate_views(r@) == if can_manage {
            candidates(users@, memberships@)
        } else {
            Seq::empty()
        },
{
    let mut out: Vec<CandidateUser> = Vec::new();
    if !can_manage {
        assert(candidate_views(out@) =~= Seq::<(i32, Seq<char>)>::empty());
        return out;
    }
    let mut i: usize = 0;
    while i < users.len()
        invariant
            i <= users@.len(),
            candidate_views(out@) == candidates(users@.take(i as int), memberships@),
        decreases users.len() - i,
    {
        let u = &users[i];
        assert(users@.take(i + 1).drop_last() =~= users@.take(i as int));
        if !has_member(memberships, u.id) {
            let mut label = u.name.clone();
            push_str(&mut label, " (@");
            push_str(&mut label, u.username.as_str());
            push_str(&mut label, ")");
            let ghost before = out@;
            out.push(CandidateUser { id: u.id, label });
            assert(candidate_views(out@) =~= candidate_views(before).push((u.id, candidate_label(*u))));
        }
        i = i + 1;
    }
    assert(users@.take(i as int) =~= users@);
    out
}

/// Number of owner memberships other than those of `user_id`.
pub open spec fn owners_except(ms: Seq<Membership>, user_id: i32) -> nat
    decreases ms.len(),
{
    if ms.len() == 0 {
        0
    } else {
        owners_except(ms.drop_last(), user_id) + if ms.last().role == 1 && ms.last().user_id != user_id {
            1nat
        } else {
            0nat
        }
    }
}

/// Each user has at most one membership.
pub open spec fn one_membership_per_user(ms: Seq<Membership>) -> bool {
    forall|i: int, j: int| 0 <= i < j < ms.len() ==> ms[i].user_id != ms[j].user_id
}

proof fn lemma_owner_split(ms: Seq<Membership>, user_id: i32)
    requires
        one_membership_per_user(ms),
    ensures
        owners_except(ms, user_id) + (if is_member(ms, user_id) && exists|i: int|
            0 <= i < ms.len() && #[trigger] ms[i].user_id == user_id && ms[i].role == 1 {
            1nat
        } else {
            0nat
        }) == owner_count(ms),
    decreases ms.len(),
{
    if ms.len() > 0 {
        let rest = ms.drop_last();
        assert(one_membership_per_user(rest)) by {
            assert forall|i: int, j: int| 0 <= i < j < rest.len() implies rest[i].user_id != rest[j].user_id by {
                assert(rest[i] == ms[i] && rest[j] == ms[j]);
            }
        }
        lemma_owner_split(rest, user_id);
        let last = ms.last();
        if last.user_id == user_id {
            assert forall|i: int| 0 <= i < rest.len() implies #[trigger] rest[i].user_id != user_id by {
                assert(rest[i] == ms[i]);
                assert(ms[i].user_id != ms[ms.len() - 1].user_id);
            }
            assert(!is_member(rest, user_id));
            assert(ms[ms.len() - 1].user_id == user_id);
        } else {
            if is_member(ms, user_id) {
                let i = choose|i: int| 0 <= i < ms.len() && #[trigger] ms[i].user_id == user_id;
                assert(rest[i] == ms[i]);
            }
            if exists|i: int| 0 <= i < ms.len() && #[trigger] ms[i].user_id == user_id && ms[i].role == 1 {
                let i = choose|i: int| 0 <= i < ms.len() && #[trigger] ms[i].user_id == user_id && ms[i].role == 1;
                assert(rest[i] == ms[i]);
            }
            if exists|i: int| 0 <= i < rest.len() && #[trigger] rest[i].user_id == user_id && rest[i].role == 1 {
                let i = choose|i: int| 0 <= i < rest.len() && #[trigger] rest[i].user_id == user_id && rest[i].role == 1;
                assert(ms[i] == rest[i]);
            }
            if is_member(rest, user_id) {
                let i = choose|i: int| 0 <= i < rest.len() && #[trigger] rest[i].user_id == user_id;
                assert(ms[i] == rest[i]);
            }
        }
    }
}

/// A project keeps an owner: when removing a member is allowed and the
/// project has an owner, some owner other than that member remains
/// (each user holding at most one membership, as the membership table keeps).
pub proof fn lemma_removal_keeps_an_owner(ms: Seq<Membership>, member_id: i32)
    requires
        one_membership_per_user(ms),
        owner_count(ms) >= 1,
        !removes_last_owner(ms, member_id),
    ensures
        owners_except(ms, member_id) >= 1,
{
    lemma_owner_split(ms, member_id);
    if exists|i: int| 0 <= i < ms.len() && #[trigger] ms[i].user_id == member_id && ms[i].role == 1 {
        let i = choose|i: int| 0 <= i < ms.len() && #[trigger] ms[i].user_id == member_id && ms[i].role == 1;
        assert(owner_count(ms) > 1);
    }
}

/// Removing one membership from a list: the owners of the rest are those of
/// the list, less one when the removed membership is an owner's.
proof fn lemma_owner_count_remove(ms: Seq<Membership>, i: int)
    requires
        0 <= i < ms.len(),
    ensures
        owner_count(ms.remove(i)) + (if ms[i].role == 1 {
            1nat
        } else {
            0nat
        }) == owner_count(ms),
    decreases ms.len(),
{
    let rest = ms.remove(i);
    if i == ms.len() - 1 {
        assert(rest =~= ms.drop_last());
    } else {
        lemma_owner_count_remove(ms.drop_last(), i);
        assert(ms.drop_last().remove(i) =~= rest.drop_last());
        assert(rest.last() == ms.last());
    }
}

/// A project keeps an owner, whatever the list holds: when the project has
/// an owner and removing `member_id` is allowed, removing one membership of
/// `member_id` leaves an owner.
pub proof fn lemma_removing_one_membership_keeps_an_owner(ms: Seq<Membership>, member_id: i32, i: int)
    requires
        0 <= i < ms.len(),
        ms[i].user_id == member_id,
        owner_count(ms) >= 1,
        !removes_last_owner(ms, member_id),
    ensures
        owner_count(ms.remove(i)) >= 1,
{
    lemma_owner_count_remove(ms, i);
    if ms[i].role == 1 {
        assert(owner_count(ms) > 1);
    }
}

/// `/p/<slug>/members`.
pub open spec fn members_path_text(project_slug: Seq<char>) -> Seq<char> {
    "/p/"@ + project_slug + "/members"@
}

/// What a request to remove a member does: where it sends the browser, and
/// whether the membership is removed.
#[derive(Debug)]
pub struct MemberRemoval {
    pub redirect: String,
    pub remove: bool,
}

/// A request to remove `member_id` from a project: removed only when the
/// user manages the project's members and the member is not its only
/// owner; the browser goes back to the member list either way.
pub fn remove_project_member(project_slug: &str, can_manage: bool, members: &Vec<Membership>, member_id: i32) -> (r: MemberRemoval)
    ensures
        r.redirect@ == members_path_text(project_slug@),
        r.remove == (can_manage && !removes_last_owner(members@, member_id)),
{
    let mut redirect = concat("/p/", project_slug);
    push_str(&mut redirect, "/members");
    if !can_manage {
        return MemberRemoval { redirect, remove: false };
    }
    let remove = allow_removal(members, member_id);
    MemberRemoval { redirect, remove }
}

/// The only owner is never offered for removal, whoever looks at the list.
pub proof fn lemma_sole_owner_not_removable(can_manage: bool, ms: Seq<Membership>, current_user_id: i32, i: int)
    requires
        0 <= i < ms.len(),
        ms[i].role == 1,
        owner_count(ms) == 1,
    ensures
        !may_remove(can_manage, owner_count(ms), ms[i], current_user_id),
        removes_last_owner(ms, ms[i].user_id),
{
}

/// Who is offered for removal: nobody by a user who does not manage the
/// members; for one who does, every member but an owner who is the only
/// owner. With two or more owners, any owner may be removed.
pub proof fn lemma_member_removal_rule(can_manage: bool, owners: nat, m: Membership, current_user_id: i32)
    ensures
        !can_manage ==> !may_remove(can_manage, owners, m, current_user_id),
        m.role != 1 ==> may_remove(can_manage, owners, m, current_user_id) == can_manage,
        owners >= 2 ==> may_remove(can_manage, owners, m, current_user_id) == can_manage,
        m.role == 1 && owners <= 1 ==> !may_remove(can_manage, owners, m, current_user_id),
{
}

} // verus!
