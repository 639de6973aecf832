use vstd::prelude::*;

use crate::external::{regex_is_match, regex_search};
use crate::ordering::stably_sorted;
use crate::route_info::{route, route_view, route_views, Method, RouteInfo, RouteView};
use crate::routes::html::project::requirements::{
    child_mask, id_keys, requirement_children, requirement_roots, root_mask, ListedRequirement,
};
use crate::selection::{masked, positions};
use crate::text::{concat, has_prefix, push_str, starts_with};

verus! {

/// The routes this module serves, in mounting order: method, path pattern
/// and handler name.
pub open spec fn route_table() -> Seq<RouteView> {
    seq![
        route_view(Method::Get, "/requirements?<status_filter>&<verification_filter>&<category_filter>"@, "show_requirements"@),
        route_view(Method::Get, "/requirements/<req_id>"@, "show_requirement_id"@),
        route_view(Method::Get, "/edit_requirement/<req_id>"@, "get_edit_requirement"@),
        route_view(Method::Post, "/edit_requirement/<req_id>"@, "post_edit_requirement"@),
        route_view(Method::Delete, "/delete_requirement/<req_id>"@, "delete_requirement_route"@),
        route_view(Method::Get, "/new_requirement"@, "new_requirement"@),
        route_view(Method::Post, "/new_requirement"@, "post_requirement"@),
        route_view(Method::Get, "/requirements/tree"@, "show_requirements_tree"@),
    ]
}

/// The routes of this module, in the order they are mounted.
pub fn routes() -> (r: Vec<RouteInfo>)
    ensures
        route_views(r@) == route_table(),
{
    let mut r: Vec<RouteInfo> = Vec::new();
    r.push(route(Method::Get, "/requirements?<status_filter>&<verification_filter>&<category_filter>", "show_requirements"));
    r.push(route(Method::Get, "/requirements/<req_id>", "show_requirement_id"));
    r.push(route(Method::Get, "/edit_requirement/<req_id>", "get_edit_requirement"));
    r.push(route(Method::Post, "/edit_requirement/<req_id>", "post_edit_requirement"));
    r.push(route(Method::Delete, "/delete_requirement/<req_id>", "delete_requirement_route"));
    r.push(route(Method::Get, "/new_requirement", "new_requirement"));
    r.push(route(Method::Post, "/new_requirement", "post_requirement"));
    r.push(route(Method::Get, "/requirements/tree", "show_requirements_tree"));
    assert(route_views(r@) =~= route_table());
    r
}

/// Which requirements the legacy pages show.
#[derive(Clone, Copy, Debug, PartialEq, Eq, Structural)]
pub enum RequirementScope {
    /// Those of one project.
    Project(i32),
    /// All of them, when there is no project at all.
    All,
}

/// The selected project, else the first project, else everything.
pub fn requirement_scope(selected_project_id: Option<i32>, first_project_id: Option<i32>) -> (r: RequirementScope)
    ensures
        r == (match selected_project_id {
            Some(p) => RequirementScope::Project(p),
            None => match first_project_id {
                Some(f) => RequirementScope::Project(f),
                None => RequirementScope::All,
            },
        }),
{
    match selected_project_id {
        Some(p) => RequirementScope::Project(p),
        None => match first_project_id {
            Some(f) => RequirementScope::Project(f),
            None => RequirementScope::All,
        },
    }
}

/// The general form of a reference: `REQ-`, upper-case letters, `-`, digits.
pub open spec fn general_reference_pattern() -> Seq<char> {
    "^REQ-[A-Z]+-\\d+$"@
}

/// The verdict on an edited reference given what matching it against the
/// general form gave (`None` when the pattern did not compile): an empty
/// reference may be saved, another one only when it matched.
pub fn general_reference_verdict(reference: &str, matched: Option<bool>) -> (r: bool)
    ensures
        r == (reference@.len() == 0 || matched == Some(true)),
{
    if reference.is_empty() {
        return true;
    }
    match matched {
        Some(b) => b,
        None => false,
    }
}

/// Whether an edited reference may be saved: an empty one may, another one
/// only when it has the general form (a pattern that fails to compile
/// refuses it too).
pub fn check_general_reference(reference: &str) -> (r: bool)
    ensures
        r == (reference@.len() == 0 || regex_search(general_reference_pattern(), reference@) == Some(true)),
{
    if reference.is_empty() {
        return true;
    }
    let matched = regex_is_match("^REQ-[A-Z]+-\\d+$", reference);
    general_reference_verdict(reference, matched)
}

/// What happens to the reference of a requirement created on the legacy
/// pages.
#[derive(Clone, Copy, Debug, PartialEq, Eq, Structural)]
pub enum LegacyReferenceDecision {
    Keep,
    Generate,
    Reject,
}

/// `^REQ-<tag>-\d+$`, with the tag as it is.
pub open spec fn legacy_reference_pattern(tag: Seq<char>) -> Seq<char> {
    "^REQ-"@ + tag + "-\\d+$"@
}

/// The verdict on a legacy reference given what matching it against the
/// category's pattern gave (`None` when the pattern did not compile): an
/// empty reference is generated; another one is kept when it starts with
/// `REQ-<tag>-` and matched, and refused otherwise.
pub open spec fn legacy_verdict(reference: Seq<char>, tag: Seq<char>, matched: Option<bool>) -> LegacyReferenceDecision {
    if reference.len() == 0 {
        LegacyReferenceDecision::Generate
    } else if starts_with(reference, "REQ-"@ + tag + "-"@) && matched == Some(true) {
        LegacyReferenceDecision::Keep
    } else {
        LegacyReferenceDecision::Reject
    }
}

/// Exec form of `legacy_verdict`.
pub fn legacy_reference_decision(reference: &str, tag: &str, matched: Option<bool>) -> (r: LegacyReferenceDecision)
    ensures
        r == legacy_verdict(reference@, tag@, matched),
{
    if reference.is_empty() {
        return LegacyReferenceDecision::Generate;
    }
    let mut prefix = concat("REQ-", tag);
    push_str(&mut prefix, "-");
    if has_prefix(reference, prefix.as_str()) && matched == Some(true) {
        LegacyReferenceDecision::Keep
    } else {
        LegacyReferenceDecision::Reject
    }
}

/// The legacy check of a reference, matching it against the category's
/// pattern with `regex` (only when the reference is not empty and starts
/// with the prefix).
pub fn legacy_reference_check(reference: &str, tag: &str) -> (r: LegacyReferenceDecision)
    ensures
        r == legacy_verdict(
            reference@,
            tag@,
            if reference@.len() > 0 && starts_with(reference@, "REQ-"@ + tag@ + "-"@) {
                regex_search(legacy_reference_pattern(tag@), reference@)
            } else {
                None
            },
        ),
{
    if reference.is_empty() {
        return LegacyReferenceDecision::Generate;
    }
    let mut prefix = concat("REQ-", tag);
    push_str(&mut prefix, "-");
    if !has_prefix(reference, prefix.as_str()) {
        return legacy_reference_decision(reference, tag, None);
    }
    let mut pattern = concat("^REQ-", tag);
    push_str(&mut pattern, "-\\d+$");
    let matched = regex_is_match(pattern.as_str(), reference);
    legacy_reference_decision(reference, tag, matched)
}

/// Whether a requirement may be deleted on the legacy pages: in status
/// Draft (1) or Proposal (2), or by an administrator.
pub fn legacy_may_delete(status: i32, is_admin: bool) -> (r: bool)
    ensures
        r == (status <= 2 || is_admin),
{
    status <= 2 || is_admin
}

/// One root of the legacy requirement tree and its direct children, as
/// positions in the list.
#[derive(Debug)]
pub struct TreeNode {
    pub root: usize,
    pub children: Vec<usize>,
}

/// The legacy requirement tree, one level deep: the roots ordered by id,
/// each with the requirements that name it as parent, ordered by id.
pub fn legacy_tree(items: &Vec<ListedRequirement>) -> (r: Vec<TreeNode>)
    ensures
        exists|roots: Seq<usize>|
            {
                &&& #[trigger] stably_sorted(
                    roots,
                    masked(positions(items@.len()), root_mask(items@)),
                    id_keys(items@, masked(positions(items@.len()), root_mask(items@))),
                    false,
                )
                &&& r@.len() == roots.len()
                &&& forall|i: int|
                    0 <= i < r@.len() ==> {
                        &&& (#[trigger] r@[i]).root == roots[i]
                        &&& roots[i] < items@.len()
                        &&& stably_sorted(
                            r@[i].children@,
                            masked(positions(items@.len()), child_mask(items@, items@[roots[i] as int].id)),
                            id_keys(
                                items@,
                                masked(positions(items@.len()), child_mask(items@, items@[roots[i] as int].id)),
                            ),
                            false,
                        )
                    }
            },
{
    let roots = requirement_roots(items);
    proof {
        crate::routes::html::project::requirements::lemma_selected_in_range(root_mask(items@));
        crate::routes::html::project::requirements::lemma_stable_positions_in_range(
            roots@,
            masked(positions(items@.len()), root_mask(items@)),
            id_keys(items@, masked(positions(items@.len()), root_mask(items@))),
            items@.len(),
        );
    }
    let mut out: Vec<TreeNode> = Vec::new();
    let mut k: usize = 0;
    while k < roots.len()
        invariant
            k <= roots@.len(),
            forall|j: int| 0 <= j < roots@.len() ==> roots@[j] < items@.len(),
            out@.len() == k,
            forall|i: int|
                0 <= i < k ==> {
                    &&& (#[trigger] out@[i]).root == roots@[i]
                    &&& stably_sorted(
                        out@[i].children@,
                        masked(positions(items@.len()), child_mask(items@, items@[roots@[i] as int].id)),
                        id_keys(
                            items@,
                            masked(positions(items@.len()), child_mask(items@, items@[roots@[i] as int].id)),
                        ),
                        false,
                    )
                },
        decreases roots.len() - k,
    {
        let root = roots[k];
        let children = requirement_children(items, items[root].id);
        out.push(TreeNode { root, children });
        k = k + 1;
    }
    out
}

} // verus!
