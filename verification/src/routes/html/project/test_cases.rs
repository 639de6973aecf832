use vstd::prelude::*;

use crate::ordering::{key_views, stable_sort_by_keys, stably_sorted};
use crate::route_info::{route, route_view, route_views, Method, RouteInfo, RouteView};
use crate::routes::html::project::verifications::{rank_keys, ranked_mask, split_by_mask, unranked_mask, VerificationStatus};
use crate::selection::masked;
use crate::text::{concat, int_decimal, push_int, push_str};

verus! {

/// The routes this module serves, in mounting order: method, path pattern
/// and handler name.
pub open spec fn route_table() -> Seq<RouteView> {
    seq![
        route_view(Method::Delete, "/<project_id>/tests/delete/<test_id>"@, "delete_test_route"@),
        route_view(Method::Post, "/<project_id>/tests/update-status/<test_id>"@, "update_test_status_route"@),
        route_view(Method::Get, "/<project_id>/tests?<status_filter>&<verification_filter>&<category_filter>&<search>"@, "show_tests"@),
        route_view(Method::Get, "/<project_id>/tests/show/<test_id>"@, "show_test_id"@),
        route_view(Method::Get, "/<project_id>/tests/new?<error>"@, "new_test"@),
        route_view(Method::Get, "/<project_id>/tests/edit/<test_id>"@, "get_edit_test"@),
        route_view(Method::Post, "/<project_id>/tests/edit/<test_id>"@, "post_edit_test"@),
        route_view(Method::Post, "/<project_id>/tests/new"@, "post_test"@),
        route_view(Method::Get, "/<project_id>/requirements.xls"@, "get_requirements_xls"@),
        route_view(Method::Get, "/<project_id>/tests.xls"@, "get_tests_xls"@),
    ]
}

/// The routes of this module, in the order they are mounted.
pub fn routes() -> (r: Vec<RouteInfo>)
    ensures
        route_views(r@) == route_table(),
{
    let mut r: Vec<RouteInfo> = Vec::new();
    r.push(route(Method::Delete, "/<project_id>/tests/delete/<test_id>", "delete_test_route"));
    r.push(route(Method::Post, "/<project_id>/tests/update-status/<test_id>", "update_test_status_route"));
    r.push(route(Method::Get, "/<project_id>/tests?<status_filter>&<verification_filter>&<category_filter>&<search>", "show_tests"));
    r.push(route(Method::Get, "/<project_id>/tests/show/<test_id>", "show_test_id"));
    r.push(route(Method::Get, "/<project_id>/tests/new?<error>", "new_test"));
    r.push(route(Method::Get, "/<project_id>/tests/edit/<test_id>", "get_edit_test"));
    r.push(route(Method::Post, "/<project_id>/tests/edit/<test_id>", "post_edit_test"));
    r.push(route(Method::Post, "/<project_id>/tests/new", "post_test"));
    r.push(route(Method::Get, "/<project_id>/requirements.xls", "get_requirements_xls"));
    r.push(route(Method::Get, "/<project_id>/tests.xls", "get_tests_xls"));
    assert(route_views(r@) =~= route_table());
    r
}

/// The four known test statuses of a project ordered by their rank; `ranks`
/// gives each status's rank among the known kinds, `None` for others, which
/// are left out. Equal ranks keep their order.
pub fn canonical_test_statuses(statuses: Vec<VerificationStatus>, ranks: &Vec<Option<i32>>) -> (r: Vec<VerificationStatus>)
    requires
        statuses@.len() == ranks@.len(),
    ensures
        stably_sorted(r@, masked(statuses@, ranked_mask(ranks@)), rank_keys(ranks@), false),
{
    let mut known_mask: Vec<bool> = Vec::new();
    let mut other_mask: Vec<bool> = Vec::new();
    let mut i: usize = 0;
    while i < ranks.len()
        invariant
            i <= ranks@.len(),
            known_mask@ == ranked_mask(ranks@).take(i as int),
            other_mask@ == unranked_mask(ranks@).take(i as int),
        decreases ranks.len() - i,
    {
        known_mask.push(ranks[i].is_some());
        other_mask.push(ranks[i].is_none());
        i = i + 1;
        assert(known_mask@ =~= ranked_mask(ranks@).take(i as int));
        assert(other_mask@ =~= unranked_mask(ranks@).take(i as int));
    }
    assert(known_mask@ =~= ranked_mask(ranks@));
    assert(other_mask@ =~= unranked_mask(ranks@));
    let ghost all = statuses@;
    let (known, _others) = split_by_mask(statuses, &known_mask, &other_mask);
    let keys = crate::routes::html::project::verifications::rank_key_vec(ranks);
    proof {
        crate::selection::lemma_masked_len_same(all, ranks@, ranked_mask(ranks@));
        assert(key_views(keys@).len() == keys@.len());
    }
    stable_sort_by_keys(known, keys, false)
}

/// `<project> - Tests`, or `Tests` when the project is not known.
pub fn tests_page_title(project_name: Option<&str>) -> (r: String)
    ensures
        r@ == (match project_name {
            Some(n) => n@ + " - Tests"@,
            None => "Tests"@,
        }),
{
    match project_name {
        Some(n) => concat(n, " - Tests"),
        None => String::from_str("Tests"),
    }
}

/// `<reference> - Test`, or `Test` when the test has no reference.
pub fn test_page_title(reference_code: Option<&str>) -> (r: String)
    ensures
        r@ == (match reference_code {
            Some(c) => c@ + " - Test"@,
            None => "Test"@,
        }),
{
    match reference_code {
        Some(c) => concat(c, " - Test"),
        None => String::from_str("Test"),
    }
}

/// `/p/<project_id>/tests`, where a deleted test's list is.
pub fn tests_list_path(project_id: i32) -> (r: String)
    ensures
        r@ == "/p/"@ + int_decimal(project_id as int) + "/tests"@,
{
    let mut r = String::from_str("/p/");
    push_int(&mut r, project_id as i64);
    push_str(&mut r, "/tests");
    r
}

/// The refusal of an inline status change.
#[derive(Debug)]
pub enum StatusUpdateRefusal {
    /// The test does not exist.
    NotFound(String),
    /// The test belongs to another project.
    Forbidden(String),
}

/// Whether the inline status change of a test goes ahead: refused when the
/// test is missing or belongs to another project.
pub fn status_update_check(project_id: i32, test_project_id: Option<i32>) -> (r: Option<StatusUpdateRefusal>)
    ensures
        test_project_id is None ==> (r matches Some(StatusUpdateRefusal::NotFound(m)) && m@ == "Test not found"@),
        test_project_id matches Some(p) ==> (p != project_id ==> (r matches Some(StatusUpdateRefusal::Forbidden(m))
            && m@ == "Test does not belong to this project"@)),
        test_project_id == Some(project_id) ==> r is None,
{
    match test_project_id {
        None => Some(StatusUpdateRefusal::NotFound(String::from_str("Test not found"))),
        Some(p) => if p != project_id {
            Some(StatusUpdateRefusal::Forbidden(String::from_str("Test does not belong to this project")))
        } else {
            None
        },
    }
}

} // verus!
