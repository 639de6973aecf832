//! Helpers shared by the pages: project selection and ordering, role and
//! status labels, and fallbacks for records that cannot be found.
use vstd::prelude::*;

use crate::external::{to_lowercase, unicode_lowercase};
use crate::models::{Category, Membership, Project, RepoError, Status, User};
use crate::ordering::{key_views, lemma_stably_sorted_rearranges, stable_sort_by_keys, stably_sorted, text_key};
use crate::text::{
    ascii_lowercase, int_decimal, push_int, push_str, to_ascii_lowercase, trim, trimmed,
};

verus! {

/// Label of a project role number.
pub open spec fn project_role_label(role: i32) -> Seq<char> {
    if role == 1 {
        "Owner"@
    } else if role == 2 {
        "Manager"@
    } else if role == 3 {
        "Contributor"@
    } else if role == 4 {
        "Viewer"@
    } else {
        "Member"@
    }
}

/// The label shown for a project role.
pub fn describe_project_role(role: i32) -> (r: &'static str)
    ensures
        r@ == project_role_label(role),
{
    match role {
        1 => "Owner",
        2 => "Manager",
        3 => "Contributor",
        4 => "Viewer",
        _ => "Member",
    }
}

/// Bootstrap class for a normalized (trimmed, ASCII lower-case) status.
pub open spec fn badge_for_normalized(n: Seq<char>) -> Seq<char> {
    if n == "active"@ {
        "bg-success"@
    } else if n == "archived"@ || n == "inactive"@ {
        "bg-secondary"@
    } else if n == "on hold"@ || n == "paused"@ || n == "maintenance"@ {
        "bg-warning"@
    } else {
        "bg-secondary"@
    }
}

/// Bootstrap class of the badge that shows a project status.
pub open spec fn status_badge(status: Seq<char>) -> Seq<char> {
    badge_for_normalized(ascii_lowercase(trimmed(status)))
}

fn is_text(s: &String, lit: &str) -> (r: bool)
    ensures
        r == (s@ == lit@),
{
    let l = String::from_str(lit);
    *s == l
}

/// Badge class for a project status: the status is trimmed and compared
/// without regard to ASCII case.
pub fn project_status_badge(status: &str) -> (r: &'static str)
    ensures
        r@ == status_badge(status@),
{
    let t = trim(status);
    let n = to_ascii_lowercase(t.as_str());
    if is_text(&n, "active") {
        "bg-success"
    } else if is_text(&n, "archived") || is_text(&n, "inactive") {
        "bg-secondary"
    } else if is_text(&n, "on hold") || is_text(&n, "paused") || is_text(&n, "maintenance") {
        "bg-warning"
    } else {
        "bg-secondary"
    }
}

/// Some project in `projects` has the id.
pub open spec fn has_project_id(projects: Seq<Project>, id: i32) -> bool {
    exists|i: int| 0 <= i < projects.len() && #[trigger] projects[i].id == id
}

/// The project the pages work on: the requested one when the user can
/// access it, otherwise the first accessible project, if any.
pub open spec fn selected_project(requested: Option<i32>, projects: Seq<Project>) -> Option<i32> {
    if requested is Some && has_project_id(projects, requested->0) {
        requested
    } else if projects.len() > 0 {
        Some(projects[0].id)
    } else {
        None
    }
}

/// The selection always names a project the user can access, and there is
/// one whenever the user can access any project.
pub proof fn lemma_selected_project_is_accessible(requested: Option<i32>, projects: Seq<Project>)
    ensures
        selected_project(requested, projects) matches Some(id) ==> has_project_id(projects, id),
        selected_project(requested, projects) is Some <==> projects.len() > 0,
{
    if projects.len() > 0 {
        assert(projects[0].id == projects[0].id);
    }
    if requested is Some && has_project_id(projects, requested->0) {
        let i = choose|i: int| 0 <= i < projects.len() && #[trigger] projects[i].id == requested->0;
        assert(projects.len() > 0);
    }
}

/// Resolves the project selection of a request against the projects the
/// user can access.
pub fn resolve_selected_project_id(requested: Option<i32>, projects: &Vec<Project>) -> (r: Option<i32>)
    ensures
        r == selected_project(requested, projects@),
{
    if let Some(id) = requested {
        let mut i: usize = 0;
        while i < projects.len()
            invariant
                requested == Some(id),
                i <= projects@.len(),
                forall|j: int| 0 <= j < i ==> projects@[j].id != id,
            decreases projects.len() - i,
        {
            if projects[i].id == id {
                assert(has_project_id(projects@, id));
                return Some(id);
            }
            i = i + 1;
        }
    }
    if projects.len() > 0 {
        Some(projects[0].id)
    } else {
        None
    }
}

/// Sort key of a text compared without case: the code points of its
/// Unicode lower-case form.
pub open spec fn name_key(name: Seq<char>) -> Seq<i64> {
    text_key(unicode_lowercase(name))
}

/// Key of `s` compared as `String`s compare: by code points.
pub fn text_key_of(s: &str) -> (k: Vec<i64>)
    ensures
        k@ == text_key(s@),
{
    let v = crate::text::chars_of(s);
    let mut k: Vec<i64> = Vec::new();
    let mut i: usize = 0;
    while i < v.len()
        invariant
            v@ == s@,
            i <= v@.len(),
            k@ == text_key(v@.take(i as int)),
        decreases v.len() - i,
    {
        k.push(v[i] as u32 as i64);
        i = i + 1;
        assert(text_key(v@.take(i as int)) =~= text_key(v@.take(i - 1)).push((v@[i - 1] as u32) as i64));
    }
    assert(v@.take(i as int) =~= v@);
    k
}

/// Key of a text compared without case (`to_lowercase` then `cmp`).
pub fn lowercase_key_of(s: &str) -> (k: Vec<i64>)
    ensures
        k@ == name_key(s@),
{
    let lower = to_lowercase(s);
    text_key_of(lower.as_str())
}

/// Keys of the project names, without case.
pub open spec fn project_name_keys(projects: Seq<Project>) -> Seq<Seq<i64>> {
    projects.map_values(|p: Project| name_key(p.name@))
}

/// Projects ordered by name without regard to case; projects with equal
/// names keep their order.
pub fn sort_projects_by_name(fetched: Vec<Project>) -> (r: Vec<Project>)
    ensures
        r@.len() == fetched@.len(),
        stably_sorted(r@, fetched@, project_name_keys(fetched@), false),
{
    let mut keys: Vec<Vec<i64>> = Vec::new();
    let mut i: usize = 0;
    while i < fetched.len()
        invariant
            i <= fetched@.len(),
            key_views(keys@) == project_name_keys(fetched@).take(i as int),
        decreases fetched.len() - i,
    {
        let k = lowercase_key_of(fetched[i].name.as_str());
        let ghost before = keys@;
        keys.push(k);
        proof {
            assert(key_views(keys@) =~= key_views(before).push(k@));
            assert(project_name_keys(fetched@).take(i + 1) =~= project_name_keys(fetched@).take(i as int).push(name_key(fetched@[i as int].name@)));
        }
        i = i + 1;
    }
    assert(project_name_keys(fetched@).take(i as int) =~= project_name_keys(fetched@));
    stable_sort_by_keys(fetched, keys, false)
}

/// The projects that were found, in order, of a list of lookups.
pub open spec fn found_projects(lookups: Seq<Result<Project, RepoError>>) -> Seq<Project>
    decreases lookups.len(),
{
    if lookups.len() == 0 {
        Seq::empty()
    } else {
        match lookups[0] {
            Ok(p) => seq![p] + found_projects(lookups.drop_first()),
            Err(_) => found_projects(lookups.drop_first()),
        }
    }
}

/// The projects a user may open, before ordering: all projects for an
/// administrator, otherwise the projects found for the user's memberships;
/// none when the list cannot be read.
pub open spec fn accessible_projects_unsorted(
    is_admin: bool,
    all_projects: Result<Vec<Project>, RepoError>,
    membership_projects: Result<Vec<Result<Project, RepoError>>, RepoError>,
) -> Seq<Project> {
    if is_admin {
        match all_projects {
            Ok(v) => v@,
            Err(_) => Seq::empty(),
        }
    } else {
        match membership_projects {
            Ok(v) => found_projects(v@),
            Err(_) => Seq::empty(),
        }
    }
}

/// The found projects of a list of lookups.
fn collect_found_projects(lookups: Vec<Result<Project, RepoError>>) -> (r: Vec<Project>)
    ensures
        r@ == found_projects(lookups@),
{
    let ghost all = lookups@;
    let mut rest = lookups;
    let mut out: Vec<Project> = Vec::new();
    while rest.len() > 0
        invariant
            found_projects(all) == out@ + found_projects(rest@),
        decreases rest.len(),
    {
        let ghost before = rest@;
        let ghost out_before = out@;
        let l = rest.remove(0);
        assert(rest@ =~= before.drop_first());
        match l {
            Ok(p) => {
                out.push(p);
                assert(out@ + found_projects(rest@) =~= out_before + (seq![p] + found_projects(rest@)));
            },
            Err(_) => {},
        }
    }
    assert(out@ + found_projects(rest@) =~= out@);
    out
}

/// The projects a user can open, ordered by name without regard to case
/// (projects with equal names keep the order in which they were read): all
/// projects for an administrator (`all_projects` is what reading all of
/// them gave); otherwise, for each of the user's memberships in order, the
/// project looked up by the membership's project id when it was found
/// (`membership_projects` is those lookups, or the error of reading the
/// memberships). Only the list that applies is read.
pub fn get_accessible_projects(
    is_admin: bool,
    all_projects: Result<Vec<Project>, RepoError>,
    membership_projects: Result<Vec<Result<Project, RepoError>>, RepoError>,
) -> (r: Vec<Project>)
    ensures
        r@.len() == accessible_projects_unsorted(is_admin, all_projects, membership_projects).len(),
        stably_sorted(
            r@,
            accessible_projects_unsorted(is_admin, all_projects, membership_projects),
            project_name_keys(accessible_projects_unsorted(is_admin, all_projects, membership_projects)),
            false,
        ),
{
    let fetched: Vec<Project> = if is_admin {
        match all_projects {
            Ok(v) => v,
            Err(_) => Vec::new(),
        }
    } else {
        match membership_projects {
            Ok(lookups) => collect_found_projects(lookups),
            Err(_) => Vec::new(),
        }
    };
    sort_projects_by_name(fetched)
}

proof fn lemma_found_projects_are_members(ids: Seq<i32>, lookups: Seq<Result<Project, RepoError>>)
    requires
        lookups.len() == ids.len(),
        forall|i: int| 0 <= i < lookups.len() && (#[trigger] lookups[i]) is Ok ==> lookups[i]->Ok_0.id == ids[i],
    ensures
        forall|j: int| 0 <= j < found_projects(lookups).len() ==> ids.contains(#[trigger] found_projects(lookups)[j].id),
    decreases lookups.len(),
{
    if lookups.len() > 0 {
        let tl = lookups.drop_first();
        assert forall|i: int| 0 <= i < tl.len() && (#[trigger] tl[i]) is Ok implies tl[i]->Ok_0.id == ids.drop_first()[i] by {
            assert(tl[i] == lookups[i + 1]);
        }
        lemma_found_projects_are_members(ids.drop_first(), tl);
        let f = found_projects(lookups);
        assert forall|j: int| 0 <= j < f.len() implies ids.contains(#[trigger] f[j].id) by {
            match lookups[0] {
                Ok(p) => {
                    if j == 0 {
                        assert(ids[0] == p.id);
                    } else {
                        assert(f[j] == found_projects(tl)[j - 1]);
                        let k = choose|k: int| 0 <= k < ids.drop_first().len() && ids.drop_first()[k] == f[j].id;
                        assert(ids[k + 1] == f[j].id);
                    }
                },
                Err(_) => {
                    assert(f[j] == found_projects(tl)[j]);
                    let k = choose|k: int| 0 <= k < ids.drop_first().len() && ids.drop_first()[k] == f[j].id;
                    assert(ids[k + 1] == f[j].id);
                },
            }
        }
    }
}

/// A user who is not an administrator sees only projects of his
/// memberships: when each project lookup, where it succeeds, gives the
/// project with the looked-up id, every project in the accessible list has
/// the id of one of the user's memberships.
pub proof fn lemma_non_admin_sees_only_member_projects(
    r: Seq<Project>,
    all_projects: Result<Vec<Project>, RepoError>,
    member_project_ids: Seq<i32>,
    lookups: Vec<Result<Project, RepoError>>,
)
    requires
        lookups@.len() == member_project_ids.len(),
        forall|i: int| 0 <= i < lookups@.len() && (#[trigger] lookups@[i]) is Ok ==> lookups@[i]->Ok_0.id == member_project_ids[i],
        stably_sorted(
            r,
            accessible_projects_unsorted(false, all_projects, Ok(lookups)),
            project_name_keys(accessible_projects_unsorted(false, all_projects, Ok(lookups))),
            false,
        ),
    ensures
        forall|j: int| 0 <= j < r.len() ==> member_project_ids.contains(#[trigger] r[j].id),
{
    let f = found_projects(lookups@);
    lemma_stably_sorted_rearranges(r, f, project_name_keys(f), false);
    lemma_found_projects_are_members(member_project_ids, lookups@);
    assert forall|j: int| 0 <= j < r.len() implies member_project_ids.contains(#[trigger] r[j].id) by {
        let k = choose|k: int| 0 <= k < f.len() && f[k] == r[j];
        assert(member_project_ids.contains(f[k].id));
    }
}

/// An administrator gets every project that was read, each once, in name
/// order.
pub proof fn lemma_admin_sees_all_projects(
    r: Seq<Project>,
    all: Vec<Project>,
    membership_projects: Result<Vec<Result<Project, RepoError>>, RepoError>,
)
    requires
        stably_sorted(
            r,
            accessible_projects_unsorted(true, Ok(all), membership_projects),
            project_name_keys(accessible_projects_unsorted(true, Ok(all), membership_projects)),
            false,
        ),
    ensures
        r.len() == all@.len(),
        forall|i: int| 0 <= i < all@.len() ==> r.contains(#[trigger] all@[i]),
        forall|j: int| 0 <= j < r.len() ==> all@.contains(#[trigger] r[j]),
{
    lemma_stably_sorted_rearranges(r, all@, project_name_keys(all@), false);
}

/// A category that could not be found: it keeps the requested id and says
/// so in its title and description.
pub open spec fn placeholder_category_title(id: i32) -> Seq<char> {
    "Unknown Category ("@ + int_decimal(id as int) + ")"@
}

/// The category the lookup found, or a placeholder for the id.
pub fn get_category_by_id_cached(id: i32, lookup: Result<Category, RepoError>) -> (c: Category)
    ensures
        lookup is Ok ==> c == lookup->Ok_0,
        lookup is Err ==> c.id == id && c.title@ == placeholder_category_title(id)
            && c.description@ == "Category not found"@ && c.tag@ == "unknown"@ && c.project_id == 1,
{
    match lookup {
        Ok(c) => c,
        Err(_) => {
            let mut title = String::from_str("Unknown Category (");
            push_int(&mut title, id as i64);
            push_str(&mut title, ")");
            Category {
                id,
                title,
                description: String::from_str("Category not found"),
                tag: String::from_str("unknown"),
                project_id: 1,
            }
        },
    }
}

/// The title of the status the lookup found, or a marker text.
pub fn get_status_name_by_id_cached(lookup: Result<Status, RepoError>) -> (name: String)
    ensures
        lookup is Ok ==> name@ == lookup->Ok_0.title@,
        lookup is Err ==> name@ == "[Status Not Found]"@,
{
    match lookup {
        Ok(s) => s.title,
        Err(_) => String::from_str("[Status Not Found]"),
    }
}

/// Text of a storage error, as the storage layer rendered it.
pub open spec fn repo_error_text(e: RepoError) -> Seq<char> {
    match e {
        RepoError::NotFound => "Not found"@,
        RepoError::BadInput(m) => m@,
        RepoError::Duplicate(m) => m@,
        RepoError::CrossProjectViolation(m) => m@,
        RepoError::Other(m) => m@,
    }
}

/// Exec form of `repo_error_text`.
pub fn repo_error_to_string(e: RepoError) -> (s: String)
    ensures
        s@ == repo_error_text(e),
{
    match e {
        RepoError::NotFound => String::from_str("Not found"),
        RepoError::BadInput(m) => m,
        RepoError::Duplicate(m) => m,
        RepoError::CrossProjectViolation(m) => m,
        RepoError::Other(m) => m,
    }
}

/// Message shown when a requirement lookup fails.
pub open spec fn requirement_lookup_message(id: i32, e: RepoError) -> Seq<char> {
    match e {
        RepoError::NotFound => "Requirement with ID "@ + int_decimal(id as int) + " not found"@,
        _ => repo_error_text(e),
    }
}

/// A requirement lookup with its failure turned into the message the
/// error page shows.
pub fn get_requirement_by_id_cached_safe<T>(id: i32, lookup: Result<T, RepoError>) -> (r: Result<T, String>)
    ensures
        lookup is Ok ==> r == Ok::<T, String>(lookup->Ok_0),
        lookup is Err ==> r is Err && r->Err_0@ == requirement_lookup_message(id, lookup->Err_0),
{
    match lookup {
        Ok(v) => Ok(v),
        Err(RepoError::NotFound) => {
            let mut m = String::from_str("Requirement with ID ");
            push_int(&mut m, id as i64);
            push_str(&mut m, " not found");
            Err(m)
        },
        Err(e) => Err(repo_error_to_string(e)),
    }
}

} // verus!

verus! {

/// A project role of the current user: the project and the role number.
#[derive(Clone, Copy, Debug, PartialEq, Eq, Structural)]
pub struct ProjectRole {
    pub project_id: i32,
    pub role: i32,
}

/// One row of the project list.
#[derive(Debug)]
pub struct ProjectListing {
    pub project_id: i32,
    pub project_name: String,
    pub project_description: Option<String>,
    /// Trimmed status, or "Unknown".
    pub project_status: String,
    /// Trimmed, ASCII lower-case status, or "unknown".
    pub project_status_normalized: String,
    pub project_status_badge: String,
    pub project_owner_id: Option<i32>,
    pub project_owner_name: Option<String>,
    pub role_label: Option<String>,
    pub role_id: Option<i32>,
}

/// View of an optional text.
pub open spec fn opt_view(o: Option<String>) -> Option<Seq<char>> {
    match o {
        Some(s) => Some(s@),
        None => None,
    }
}

/// Mathematical view of a project list row.
pub struct ProjectListingView {
    pub project_id: i32,
    pub project_name: Seq<char>,
    pub project_description: Option<Seq<char>>,
    pub project_status: Seq<char>,
    pub project_status_normalized: Seq<char>,
    pub project_status_badge: Seq<char>,
    pub project_owner_id: Option<i32>,
    pub project_owner_name: Option<Seq<char>>,
    pub role_label: Option<Seq<char>>,
    pub role_id: Option<i32>,
}

impl View for ProjectListing {
    type V = ProjectListingView;

    open spec fn view(&self) -> ProjectListingView {
        ProjectListingView {
            project_id: self.project_id,
            project_name: self.project_name@,
            project_description: opt_view(self.project_description),
            project_status: self.project_status@,
            project_status_normalized: self.project_status_normalized@,
            project_status_badge: self.project_status_badge@,
            project_owner_id: self.project_owner_id,
            project_owner_name: opt_view(self.project_owner_name),
            role_label: opt_view(self.role_label),
            role_id: self.role_id,
        }
    }
}

/// The role of the last membership for the project (later entries replace
/// earlier ones, as when collecting into a map).
pub open spec fn role_for(ms: Seq<ProjectRole>, project_id: i32) -> Option<i32>
    decreases ms.len(),
{
    if ms.len() == 0 {
        None
    } else if ms.last().project_id == project_id {
        Some(ms.last().role)
    } else {
        role_for(ms.drop_last(), project_id)
    }
}

/// The name of the last user with the id.
pub open spec fn user_name_for(users: Seq<User>, id: i32) -> Option<Seq<char>>
    decreases users.len(),
{
    if users.len() == 0 {
        None
    } else if users.last().id == id {
        Some(users.last().name@)
    } else {
        user_name_for(users.drop_last(), id)
    }
}

/// A project is listed for administrators, and for members of it.
pub open spec fn is_listed(is_admin: bool, ms: Seq<ProjectRole>, p: Project) -> bool {
    is_admin || role_for(ms, p.id) is Some
}

/// The list row of a project.
pub open spec fn listing_of(is_admin: bool, ms: Seq<ProjectRole>, users: Seq<User>, p: Project) -> ProjectListingView {
    let status = match p.status {
        Some(s) => Some(trimmed(s@)),
        None => None,
    };
    let display = match status {
        Some(s) => s,
        None => "Unknown"@,
    };
    ProjectListingView {
        project_id: p.id,
        project_name: p.name@,
        project_description: opt_view(p.description),
        project_status: display,
        project_status_normalized: match status {
            Some(s) => ascii_lowercase(s),
            None => "unknown"@,
        },
        project_status_badge: status_badge(display),
        project_owner_id: p.owner_id,
        project_owner_name: match p.owner_id {
            Some(o) => user_name_for(users, o),
            None => None,
        },
        role_label: match role_for(ms, p.id) {
            Some(r) => Some(project_role_label(r)),
            None => if is_admin {
                Some("Administrator"@)
            } else {
                None
            },
        },
        role_id: role_for(ms, p.id),
    }
}

/// The rows of the listed projects, in the order of `projects`.
pub open spec fn listings(is_admin: bool, ms: Seq<ProjectRole>, users: Seq<User>, projects: Seq<Project>) -> Seq<ProjectListingView>
    decreases projects.len(),
{
    if projects.len() == 0 {
        Seq::empty()
    } else {
        let rest = listings(is_admin, ms, users, projects.drop_last());
        if is_listed(is_admin, ms, projects.last()) {
            rest.push(listing_of(is_admin, ms, users, projects.last()))
        } else {
            rest
        }
    }
}

/// Views of project list rows.
pub open spec fn listing_views(rows: Seq<ProjectListing>) -> Seq<ProjectListingView> {
    rows.map_values(|r: ProjectListing| r@)
}

/// Keys of rows' project names, without case.
pub open spec fn listing_name_keys(rows: Seq<ProjectListingView>) -> Seq<Seq<i64>> {
    rows.map_values(|r: ProjectListingView| name_key(r.project_name))
}

fn copy_text(s: &String) -> (r: String)
    ensures
        r@ == s@,
{
    s.clone()
}

fn copy_opt_text(o: &Option<String>) -> (r: Option<String>)
    ensures
        opt_view(r) == opt_view(*o),
{
    match o {
        Some(s) => Some(s.clone()),
        None => None,
    }
}

fn find_role(ms: &Vec<ProjectRole>, project_id: i32) -> (r: Option<i32>)
    ensures
        r == role_for(ms@, project_id),
{
    let mut i = ms.len();
    proof {
        lemma_take_all(ms@);
    }
    while i > 0
        invariant
            i <= ms@.len(),
            role_for(ms@, project_id) == role_for(ms@.take(i as int), project_id),
        decreases i,
    {
        assert(ms@.take(i as int).drop_last() =~= ms@.take(i - 1));
        if ms[i - 1].project_id == project_id {
            return Some(ms[i - 1].role);
        }
        i = i - 1;
    }
    None
}

proof fn lemma_take_all<T>(s: Seq<T>)
    ensures
        s.take(s.len() as int) == s,
{
    assert(s.take(s.len() as int) =~= s);
}

fn find_user_name(users: &Vec<User>, id: i32) -> (r: Option<String>)
    ensures
        opt_view(r) == user_name_for(users@, id),
{
    let mut i = users.len();
    proof {
        lemma_take_all(users@);
    }
    while i > 0
        invariant
            i <= users@.len(),
            user_name_for(users@, id) == user_name_for(users@.take(i as int), id),
        decreases i,
    {
        assert(users@.take(i as int).drop_last() =~= users@.take(i - 1));
        if users[i - 1].id == id {
            return Some(copy_text(&users[i - 1].name));
        }
        i = i - 1;
    }
    None
}

fn listing_row(is_admin: bool, ms: &Vec<ProjectRole>, users: &Vec<User>, p: &Project) -> (r: ProjectListing)
    ensures
        r@ == listing_of(is_admin, ms@, users@, *p),
{
    let status: Option<String> = match &p.status {
        Some(s) => Some(trim(s.as_str())),
        None => None,
    };
    let display = match &status {
        Some(s) => copy_text(s),
        None => String::from_str("Unknown"),
    };
    let normalized = match &status {
        Some(s) => to_ascii_lowercase(s.as_str()),
        None => String::from_str("unknown"),
    };
    let badge = String::from_str(project_status_badge(display.as_str()));
    let owner_name = match p.owner_id {
        Some(o) => find_user_name(users, o),
        None => None,
    };
    let role = find_role(ms, p.id);
    let role_label = match role {
        Some(r) => Some(String::from_str(describe_project_role(r))),
        None => if is_admin {
            Some(String::from_str("Administrator"))
        } else {
            None
        },
    };
    ProjectListing {
        project_id: p.id,
        project_name: copy_text(&p.name),
        project_description: copy_opt_text(&p.description),
        project_status: display,
        project_status_normalized: normalized,
        project_status_badge: badge,
        project_owner_id: p.owner_id,
        project_owner_name: owner_name,
        role_label,
        role_id: role,
    }
}

/// Rows of the project list: the projects the user may see (all of them for
/// an administrator, otherwise those with a membership), each with its
/// trimmed status, the status's badge class, the owner's name and the user's
/// role, ordered by project name without regard to case.
pub fn decorate_projects_for_listing(
    is_admin: bool,
    memberships: &Vec<ProjectRole>,
    users: &Vec<User>,
    projects: &Vec<Project>,
) -> (r: Vec<ProjectListing>)
    ensures
        r@.len() == listings(is_admin, memberships@, users@, projects@).len(),
        stably_sorted(
            listing_views(r@),
            listings(is_admin, memberships@, users@, projects@),
            listing_name_keys(listings(is_admin, memberships@, users@, projects@)),
            false,
        ),
{
    let ghost want = listings(is_admin, memberships@, users@, projects@);
    let mut rows: Vec<ProjectListing> = Vec::new();
    let mut keys: Vec<Vec<i64>> = Vec::new();
    let mut i: usize = 0;
    while i < projects.len()
        invariant
            i <= projects@.len(),
            listing_views(rows@) == listings(is_admin, memberships@, users@, projects@.take(i as int)),
            key_views(keys@) == listing_name_keys(listing_views(rows@)),
        decreases projects.len() - i,
    {
        let p = &projects[i];
        let listed = is_admin || find_role(memberships, p.id).is_some();
        let ghost before_rows = rows@;
        let ghost before_keys = keys@;
        if listed {
            let row = listing_row(is_admin, memberships, users, p);
            let k = lowercase_key_of(row.project_name.as_str());
            rows.push(row);
            keys.push(k);
            proof {
                assert(listing_views(rows@) =~= listing_views(before_rows).push(rows@.last()@));
                assert(key_views(keys@) =~= key_views(before_keys).push(k@));
                assert(listing_name_keys(listing_views(rows@)) =~= listing_name_keys(listing_views(before_rows)).push(name_key(rows@.last()@.project_name)));
            }
        }
        proof {
            assert(projects@.take(i + 1).drop_last() =~= projects@.take(i as int));
        }
        i = i + 1;
    }
    proof {
        lemma_take_all(projects@);
    }
    let ghost unsorted = rows@;
    let r = stable_sort_by_keys(rows, keys, false);
    proof {
        let order = choose|order: Seq<int>|
            #[trigger] crate::ordering::is_stable_order(order, key_views(keys@), false) && r@ == order.map_values(|j: int| unsorted[j]);
        assert(listing_views(r@) =~= order.map_values(|j: int| listing_views(unsorted)[j]));
        assert(crate::ordering::is_stable_order(order, listing_name_keys(want), false));
    }
    r
}

} // verus!
