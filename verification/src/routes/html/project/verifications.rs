use vstd::prelude::*;

use crate::external::{to_lowercase, unicode_lowercase, url_encode, url_encoded};
use crate::models::{RepoError, TestStatusKind};
use crate::ordering::{key_views, stable_sort_by_keys, stably_sorted};
use crate::route_info::{route, route_view, route_views, Method, RouteInfo, RouteView};
use crate::routes::html::project::requirements::{
    count_kind, int_param, opt_str, push_int_param, requirement_page_count, requirements_page,
    shown_requirement_page, ErrorStatus, RequirementsPage,
};
use crate::selection::{masked, retain_by_mask};
use crate::text::{concat, contains_text, has_text, int_decimal, join, joined, push_int, push_str, same_text};

verus! {

/// The routes this module serves, in mounting order: method, path pattern
/// and handler name.
pub open spec fn route_table() -> Seq<RouteView> {
    seq![
        route_view(Method::Delete, "/<project_id>/verifications/delete/<test_id>"@, "delete_test_route"@),
        route_view(Method::Post, "/<project_id>/verifications/update-status/<test_id>"@, "update_test_status_route"@),
        route_view(Method::Get, "/<project_id>/verifications?<status_filter>&<verification_filter>&<category_filter>&<search>&<page>"@, "show_tests"@),
        route_view(Method::Get, "/<project_id>/verifications/show/<test_id>"@, "show_test_id"@),
        route_view(Method::Get, "/<project_id>/verifications/show/<verification_id>/version/<baseline_id>"@, "show_verification_version"@),
        route_view(Method::Get, "/<project_id>/verifications/new?<error>"@, "new_test"@),
        route_view(Method::Get, "/<project_id>/verifications/edit/<test_id>"@, "get_edit_test"@),
        route_view(Method::Get, "/<project_id>/verifications/edit-panel/<test_id>"@, "get_edit_test_panel"@),
        route_view(Method::Post, "/<project_id>/verifications/edit/<test_id>"@, "post_edit_test"@),
        route_view(Method::Post, "/<project_id>/verifications/new"@, "post_test"@),
        route_view(Method::Get, "/<project_id>/requirements.xls"@, "get_requirements_xls"@),
        route_view(Method::Get, "/<project_id>/verifications.xls"@, "get_tests_xls"@),
    ]
}

/// The routes of this module, in the order they are mounted.
pub fn routes() -> (r: Vec<RouteInfo>)
    ensures
        route_views(r@) == route_table(),
{
    let mut r: Vec<RouteInfo> = Vec::new();
    r.push(route(Method::Delete, "/<project_id>/verifications/delete/<test_id>", "delete_test_route"));
    r.push(route(Method::Post, "/<project_id>/verifications/update-status/<test_id>", "update_test_status_route"));
    r.push(route(Method::Get, "/<project_id>/verifications?<status_filter>&<verification_filter>&<category_filter>&<search>&<page>", "show_tests"));
    r.push(route(Method::Get, "/<project_id>/verifications/show/<test_id>", "show_test_id"));
    r.push(route(Method::Get, "/<project_id>/verifications/show/<verification_id>/version/<baseline_id>", "show_verification_version"));
    r.push(route(Method::Get, "/<project_id>/verifications/new?<error>", "new_test"));
    r.push(route(Method::Get, "/<project_id>/verifications/edit/<test_id>", "get_edit_test"));
    r.push(route(Method::Get, "/<project_id>/verifications/edit-panel/<test_id>", "get_edit_test_panel"));
    r.push(route(Method::Post, "/<project_id>/verifications/edit/<test_id>", "post_edit_test"));
    r.push(route(Method::Post, "/<project_id>/verifications/new", "post_test"));
    r.push(route(Method::Get, "/<project_id>/requirements.xls", "get_requirements_xls"));
    r.push(route(Method::Get, "/<project_id>/verifications.xls", "get_tests_xls"));
    assert(route_views(r@) =~= route_table());
    r
}

/// Tests shown on one page of the verification list.
pub const VERIFICATIONS_PER_PAGE: u64 = 25;

/// `/p/<slug>/verifications`.
pub open spec fn verifications_list_text(project_slug: Seq<char>) -> Seq<char> {
    "/p/"@ + project_slug + "/verifications"@
}

/// The path of a project's verification list.
pub fn verifications_list_path(project_slug: &str) -> (r: String)
    ensures
        r@ == verifications_list_text(project_slug@),
{
    let mut r = concat("/p/", project_slug);
    push_str(&mut r, "/verifications");
    r
}

/// The redirect target to a project's verification list (the same path).
pub fn verifications_list_redirect(project_slug: &str) -> (r: String)
    ensures
        r@ == verifications_list_text(project_slug@),
{
    verifications_list_path(project_slug)
}

/// `/p/<slug>/verifications/<page>/<test_id>`.
pub open spec fn test_page_text(project_slug: Seq<char>, page: Seq<char>, test_id: i32) -> Seq<char> {
    "/p/"@ + project_slug + "/verifications/"@ + page + "/"@ + int_decimal(test_id as int)
}

fn test_page_path(project_slug: &str, page: &str, test_id: i32) -> (r: String)
    ensures
        r@ == test_page_text(project_slug@, page@, test_id),
{
    let mut r = concat("/p/", project_slug);
    push_str(&mut r, "/verifications/");
    push_str(&mut r, page);
    push_str(&mut r, "/");
    push_int(&mut r, test_id as i64);
    r
}

/// The page of one test.
pub fn test_detail_path(project_slug: &str, test_id: i32) -> (r: String)
    ensures
        r@ == test_page_text(project_slug@, "show"@, test_id),
{
    test_page_path(project_slug, "show", test_id)
}

/// The edit page of one test.
pub fn edit_test_path(project_slug: &str, test_id: i32) -> (r: String)
    ensures
        r@ == test_page_text(project_slug@, "edit"@, test_id),
{
    test_page_path(project_slug, "edit", test_id)
}

/// The edit side panel of one test.
pub fn edit_test_panel_path(project_slug: &str, test_id: i32) -> (r: String)
    ensures
        r@ == test_page_text(project_slug@, "edit-panel"@, test_id),
{
    test_page_path(project_slug, "edit-panel", test_id)
}

/// The new-test page, with the error message percent-encoded in the query
/// when there is a non-empty one.
pub fn new_test_path(project_slug: &str, error: Option<&str>) -> (r: String)
    ensures
        r@ == "/p/"@ + project_slug@ + "/verifications/new"@ + (match opt_str(error) {
            Some(e) if e.len() > 0 => "?error="@ + url_encoded(e),
            _ => Seq::<char>::empty(),
        }),
{
    let mut r = concat("/p/", project_slug);
    push_str(&mut r, "/verifications/new");
    if let Some(e) = error {
        if !e.is_empty() {
            push_str(&mut r, "?error=");
            let encoded = url_encode(e);
            push_str(&mut r, encoded.as_str());
        }
    }
    r
}

/// A test reached under another project's path goes to its page under the
/// project it belongs to (`owner_slug`); otherwise nothing.
pub fn redirect_for_test_project(
    route_project_id: i32,
    resource_project_id: i32,
    owner_slug: &str,
    test_id: i32,
) -> (r: Option<String>)
    ensures
        r is None <==> route_project_id == resource_project_id,
        r matches Some(p) ==> p@ == test_page_text(owner_slug@, "show"@, test_id),
{
    if route_project_id == resource_project_id {
        None
    } else {
        Some(test_detail_path(owner_slug, test_id))
    }
}

/// `name=<percent-encoded value>` for a search text that is present and not
/// empty.
pub open spec fn search_param(value: Option<Seq<char>>) -> Seq<Seq<char>> {
    match value {
        Some(v) => if v.len() > 0 {
            seq!["search"@ + "="@ + url_encoded(v)]
        } else {
            Seq::empty()
        },
        None => Seq::empty(),
    }
}

/// The query string of the verification list for the current filters,
/// without the page.
pub fn build_verifications_query(
    status_filter: Option<i32>,
    verification_filter: Option<i32>,
    category_filter: Option<i32>,
    search: Option<&str>,
) -> (q: String)
    ensures
        q@ == joined(
            int_param("status_filter"@, status_filter) + int_param(
                "verification_filter"@,
                verification_filter,
            ) + int_param("category_filter"@, category_filter) + search_param(opt_str(search)),
            "&"@,
        ),
{
    let mut parts: Vec<String> = Vec::new();
    push_int_param(&mut parts, "status_filter", status_filter);
    push_int_param(&mut parts, "verification_filter", verification_filter);
    push_int_param(&mut parts, "category_filter", category_filter);
    let ghost v3 = parts@.map_values(|p: String| p@);
    assert(v3 =~= int_param("status_filter"@, status_filter) + int_param("verification_filter"@, verification_filter) + int_param("category_filter"@, category_filter));
    if let Some(s) = search {
        if !s.is_empty() {
            let mut part = concat("search", "=");
            let encoded = url_encode(s);
            push_str(&mut part, encoded.as_str());
            parts.push(part);
        }
    }
    assert(parts@.map_values(|p: String| p@) =~= v3 + search_param(opt_str(search)));
    join(&parts, "&")
}

/// A status of a project's verifications.
#[derive(Debug)]
pub struct VerificationStatus {
    pub id: i32,
    pub title: String,
    pub tag_color: Option<String>,
}

/// Whether each status is one of the known kinds (has a rank).
pub open spec fn ranked_mask(ranks: Seq<Option<i32>>) -> Seq<bool> {
    ranks.map_values(|r: Option<i32>| r is Some)
}

/// Whether each status is a status of the project's own (has no rank).
pub open spec fn unranked_mask(ranks: Seq<Option<i32>>) -> Seq<bool> {
    ranks.map_values(|r: Option<i32>| r is None)
}

/// The sort keys of the ranked statuses: their ranks.
pub open spec fn rank_keys(ranks: Seq<Option<i32>>) -> Seq<Seq<i64>> {
    masked(ranks, ranked_mask(ranks)).map_values(|r: Option<i32>| seq![r->0 as i64])
}

/// The sort keys of the other statuses: their ids.
pub open spec fn status_id_keys(statuses: Seq<VerificationStatus>, ranks: Seq<Option<i32>>) -> Seq<Seq<i64>> {
    masked(statuses, unranked_mask(ranks)).map_values(|s: VerificationStatus| seq![s.id as i64])
}

/// The sort keys of the ranked statuses.
pub fn rank_key_vec(ranks: &Vec<Option<i32>>) -> (r: Vec<Vec<i64>>)
    ensures
        key_views(r@) == rank_keys(ranks@),
{
    let mut keep: Vec<bool> = Vec::new();
    let mut i: usize = 0;
    while i < ranks.len()
        invariant
            i <= ranks@.len(),
            keep@ == ranked_mask(ranks@).take(i as int),
        decreases ranks.len() - i,
    {
        keep.push(ranks[i].is_some());
        i = i + 1;
        assert(keep@ =~= ranked_mask(ranks@).take(i as int));
    }
    assert(keep@ =~= ranked_mask(ranks@));
    let mut copy: Vec<Option<i32>> = Vec::new();
    let mut j: usize = 0;
    while j < ranks.len()
        invariant
            j <= ranks@.len(),
            copy@ == ranks@.take(j as int),
        decreases ranks.len() - j,
    {
        copy.push(ranks[j]);
        j = j + 1;
        assert(copy@ =~= ranks@.take(j as int));
    }
    assert(copy@ =~= ranks@);
    let kept = retain_by_mask(copy, &keep);
    let mut keys: Vec<Vec<i64>> = Vec::new();
    let mut k: usize = 0;
    while k < kept.len()
        invariant
            k <= kept@.len(),
            kept@ == masked(ranks@, ranked_mask(ranks@)),
            keys@.len() == k,
            key_views(keys@) == rank_keys(ranks@).take(k as int),
        decreases kept.len() - k,
    {
        let v: i64 = match kept[k] {
            Some(x) => x as i64,
            None => 0,
        };
        let key = vec![v];
        let ghost before = keys@;
        keys.push(key);
        k = k + 1;
        proof {
            let x = kept@[k - 1];
            assert(kept@.contains(x));
            crate::selection::lemma_masked_members(ranks@, ranked_mask(ranks@), x);
            assert(x is Some);
            assert forall|j: int| 0 <= j < k implies #[trigger] key_views(keys@)[j] == rank_keys(ranks@)[j] by {
                if j < k - 1 {
                    assert(keys@[j] == before[j]);
                    assert(key_views(before)[j] == before[j]@);
                    assert(rank_keys(ranks@).take(k - 1)[j] == rank_keys(ranks@)[j]);
                } else {
                    assert(keys@[j]@ =~= seq![v]);
                }
            }
            assert(key_views(keys@) =~= rank_keys(ranks@).take(k as int));
        }
    }
    assert(rank_keys(ranks@).take(k as int) =~= rank_keys(ranks@));
    keys
}

/// The known statuses first, ordered by their rank, then the project's own
/// statuses ordered by id; `ranks` gives each status's rank among the known
/// kinds, `None` for the others. Equal keys keep their order.
pub fn project_test_statuses(statuses: Vec<VerificationStatus>, ranks: &Vec<Option<i32>>) -> (r: Vec<VerificationStatus>)
    requires
        statuses@.len() == ranks@.len(),
    ensures
        exists|a: Seq<VerificationStatus>, b: Seq<VerificationStatus>|
            r@ == a + b && stably_sorted(
                a,
                masked(statuses@, ranked_mask(ranks@)),
                rank_keys(ranks@),
                false,
            ) && stably_sorted(
                b,
                masked(statuses@, unranked_mask(ranks@)),
                status_id_keys(statuses@, ranks@),
                false,
            ),
{
    let mut known_mask: Vec<bool> = Vec::new();
    let mut other_mask: Vec<bool> = Vec::new();
    let mut i: usize = 0;
    while i < ranks.len()
        invariant
            i <= ranks@.len(),
            known_mask@ == ranked_mask(ranks@).take(i as int),
            other_mask@ == unranked_mask(ranks@).take(i as int),
        decreases ranks.len() - i,
    {
        known_mask.push(ranks[i].is_some());
        other_mask.push(ranks[i].is_none());
        i = i + 1;
        assert(known_mask@ =~= ranked_mask(ranks@).take(i as int));
        assert(other_mask@ =~= unranked_mask(ranks@).take(i as int));
    }
    assert(known_mask@ =~= ranked_mask(ranks@));
    assert(other_mask@ =~= unranked_mask(ranks@));
    let ghost all = statuses@;
    let (known, others) = split_by_mask(statuses, &known_mask, &other_mask);
    let known_keys = rank_key_vec(ranks);
    proof {
        crate::selection::lemma_masked_len_same(all, ranks@, ranked_mask(ranks@));
        assert(key_views(known_keys@).len() == known_keys@.len());
    }
    let sorted_known = stable_sort_by_keys(known, known_keys, false);
    let mut other_keys: Vec<Vec<i64>> = Vec::new();
    let mut k: usize = 0;
    while k < others.len()
        invariant
            k <= others@.len(),
            others@ == masked(all, unranked_mask(ranks@)),
            other_keys@.len() == k,
            key_views(other_keys@) == status_id_keys(all, ranks@).take(k as int),
        decreases others.len() - k,
    {
        let key = vec![others[k].id as i64];
        let ghost before = other_keys@;
        other_keys.push(key);
        k = k + 1;
        proof {
            assert forall|j: int| 0 <= j < k implies #[trigger] key_views(other_keys@)[j] == status_id_keys(all, ranks@)[j] by {
                if j < k - 1 {
                    assert(other_keys@[j] == before[j]);
                    assert(key_views(before)[j] == before[j]@);
                    assert(status_id_keys(all, ranks@).take(k - 1)[j] == status_id_keys(all, ranks@)[j]);
                } else {
                    assert(other_keys@[j]@ =~= seq![others@[j].id as i64]);
                }
            }
            assert(key_views(other_keys@) =~= status_id_keys(all, ranks@).take(k as int));
        }
    }
    assert(status_id_keys(all, ranks@).take(k as int) =~= status_id_keys(all, ranks@));
    let sorted_others = stable_sort_by_keys(others, other_keys, false);
    let ghost a = sorted_known@;
    let ghost b = sorted_others@;
    let mut out = sorted_known;
    let mut rest = sorted_others;
    out.append(&mut rest);
    assert(out@ == a + b);
    out
}

/// Splits `items` into those flagged in `first` and those flagged in
/// `second`, each in order.
pub fn split_by_mask<T>(items: Vec<T>, first: &Vec<bool>, second: &Vec<bool>) -> (r: (Vec<T>, Vec<T>))
    requires
        items@.len() == first@.len(),
        items@.len() == second@.len(),
        forall|i: int| 0 <= i < first@.len() ==> first@[i] != second@[i],
    ensures
        r.0@ == masked(items@, first@),
        r.1@ == masked(items@, second@),
{
    let ghost items0 = items@;
    let n = items.len();
    let mut items = items;
    let mut a: Vec<T> = Vec::new();
    let mut b: Vec<T> = Vec::new();
    let mut k: usize = 0;
    while k < n
        invariant
            n == items0.len(),
            n == first@.len(),
            n == second@.len(),
            forall|i: int| 0 <= i < first@.len() ==> first@[i] != second@[i],
            k <= n,
            items@ == items0.skip(k as int),
            a@ == masked(items0.take(k as int), first@.take(k as int)),
            b@ == masked(items0.take(k as int), second@.take(k as int)),
        decreases n - k,
    {
        assert(items0.skip(k as int)[0] == items0[k as int]);
        let item = items.remove(0);
        if first[k] {
            a.push(item);
        } else {
            b.push(item);
        }
        k = k + 1;
        proof {
            assert(items0.take(k as int).drop_last() =~= items0.take(k - 1));
            assert(first@.take(k as int).drop_last() =~= first@.take(k - 1));
            assert(second@.take(k as int).drop_last() =~= second@.take(k - 1));
            assert(items@ =~= items0.skip(k as int));
        }
    }
    assert(items0.take(n as int) =~= items0);
    assert(first@.take(n as int) =~= first@);
    assert(second@.take(n as int) =~= second@);
    (a, b)
}

proof fn lemma_count_kind_bound(kinds: Seq<Option<TestStatusKind>>)
    ensures
        count_kind(kinds, TestStatusKind::Passed) + count_kind(kinds, TestStatusKind::Failed)
            + count_kind(kinds, TestStatusKind::Pending) + count_kind(kinds, TestStatusKind::InProgress)
            <= kinds.len(),
    decreases kinds.len(),
{
    if kinds.len() > 0 {
        lemma_count_kind_bound(kinds.drop_last());
    }
}

/// The status counts shown above a test list.
#[derive(Clone, Copy, Debug, PartialEq, Eq, Structural)]
pub struct TestMetrics {
    pub total: usize,
    pub passed: usize,
    pub failed: usize,
    pub pending: usize,
    pub in_progress: usize,
    /// Tests whose status is none of the four known kinds.
    pub other: usize,
    /// Passed tests per hundred, rounded down; zero without tests.
    pub pass_rate_percent: usize,
}

/// Counts tests by the kind of their status (`None` for a status that is
/// none of the four), and the pass rate in whole percent.
pub fn test_metrics(kinds: &Vec<Option<TestStatusKind>>) -> (m: TestMetrics)
    requires
        kinds@.len() * 100 <= usize::MAX,
    ensures
        m.total == kinds@.len(),
        m.passed == count_kind(kinds@, TestStatusKind::Passed),
        m.failed == count_kind(kinds@, TestStatusKind::Failed),
        m.pending == count_kind(kinds@, TestStatusKind::Pending),
        m.in_progress == count_kind(kinds@, TestStatusKind::InProgress),
        m.passed + m.failed + m.pending + m.in_progress + m.other == m.total,
        m.pass_rate_percent == (if m.total > 0 {
            m.passed * 100 / m.total as int
        } else {
            0
        }),
        m.pass_rate_percent <= 100,
{
    let mut passed: usize = 0;
    let mut failed: usize = 0;
    let mut pending: usize = 0;
    let mut in_progress: usize = 0;
    let mut k: usize = 0;
    while k < kinds.len()
        invariant
            k <= kinds@.len(),
            passed == count_kind(kinds@.take(k as int), TestStatusKind::Passed),
            failed == count_kind(kinds@.take(k as int), TestStatusKind::Failed),
            pending == count_kind(kinds@.take(k as int), TestStatusKind::Pending),
            in_progress == count_kind(kinds@.take(k as int), TestStatusKind::InProgress),
            passed + failed + pending + in_progress <= k,
        decreases kinds.len() - k,
    {
        proof {
            assert(kinds@.take(k + 1).drop_last() =~= kinds@.take(k as int));
        }
        match kinds[k] {
            Some(TestStatusKind::Passed) => {
                passed = passed + 1;
            },
            Some(TestStatusKind::Failed) => {
                failed = failed + 1;
            },
            Some(TestStatusKind::Pending) => {
                pending = pending + 1;
            },
            Some(TestStatusKind::InProgress) => {
                in_progress = in_progress + 1;
            },
            None => {},
        }
        k = k + 1;
    }
    assert(kinds@.take(k as int) =~= kinds@);
    let total = kinds.len();
    let other: usize = total - passed - failed - pending - in_progress;
    let pass_rate_percent: usize = if total > 0 {
        passed * 100 / total
    } else {
        0
    };
    proof {
        if total > 0 {
            assert(passed * 100 / total as int <= 100) by (nonlinear_arith)
                requires
                    passed <= total,
                    total > 0,
            ;
        }
    }
    TestMetrics { total, passed, failed, pending, in_progress, other, pass_rate_percent }
}

/// A test as the list pages search it.
#[derive(Debug)]
pub struct TestListItem {
    pub id: i32,
    pub name: String,
    pub description: String,
    pub reference: String,
    pub status_id: i32,
}

/// Whether a test matches a search: its name, description or reference
/// contains the query, all lower-cased.
pub open spec fn matches_search(query: Seq<char>, t: TestListItem) -> bool {
    let q = unicode_lowercase(query);
    contains_text(unicode_lowercase(t.name@), q) || contains_text(unicode_lowercase(t.description@), q)
        || contains_text(unicode_lowercase(t.reference@), q)
}

/// The search's verdict on each test; without a search every test stays.
pub open spec fn search_mask(items: Seq<TestListItem>, search: Option<Seq<char>>) -> Seq<bool> {
    items.map_values(
        |t: TestListItem|
            match search {
                Some(q) => matches_search(q, t),
                None => true,
            },
    )
}

/// The tests that match the search, in their order.
pub fn search_tests(items: Vec<TestListItem>, search: Option<&str>) -> (r: Vec<TestListItem>)
    ensures
        r@ == masked(items@, search_mask(items@, opt_str(search))),
{
    let mut keep: Vec<bool> = Vec::new();
    let mut i: usize = 0;
    match search {
        Some(q) => {
            let ql = to_lowercase(q);
            while i < items.len()
                invariant
                    search == Some(q),
                    ql@ == unicode_lowercase(q@),
                    i <= items@.len(),
                    keep@ == search_mask(items@, opt_str(search)).take(i as int),
                decreases items.len() - i,
            {
                let t = &items[i];
                let n = to_lowercase(t.name.as_str());
                let d = to_lowercase(t.description.as_str());
                let r = to_lowercase(t.reference.as_str());
                let hit = has_text(n.as_str(), ql.as_str()) || has_text(d.as_str(), ql.as_str())
                    || has_text(r.as_str(), ql.as_str());
                keep.push(hit);
                i = i + 1;
                assert(keep@ =~= search_mask(items@, opt_str(search)).take(i as int));
            }
        },
        None => {
            while i < items.len()
                invariant
                    search is None,
                    i <= items@.len(),
                    keep@ == search_mask(items@, opt_str(search)).take(i as int),
                decreases items.len() - i,
            {
                keep.push(true);
                i = i + 1;
                assert(keep@ =~= search_mask(items@, opt_str(search)).take(i as int));
            }
        },
    }
    assert(keep@ =~= search_mask(items@, opt_str(search)));
    retain_by_mask(items, &keep)
}

/// The items of one page: those from `offset` on, at most `per_page` of
/// them (`iter().skip(offset).take(per_page)`).
pub fn page_items<T>(items: Vec<T>, offset: usize, per_page: usize) -> (r: Vec<T>)
    ensures
        r@ == items@.subrange(
            if offset <= items@.len() {
                offset as int
            } else {
                items@.len() as int
            },
            if offset + per_page <= items@.len() {
                offset + per_page
            } else {
                items@.len() as int
            },
        ),
{
    let mut items = items;
    let start: usize = if offset <= items.len() {
        offset
    } else {
        items.len()
    };
    let mut tail = items.split_off(start);
    if per_page < tail.len() {
        tail.truncate(per_page);
    }
    tail
}

/// The shown page of the (filtered) verification list: the page window for
/// the requested page, 25 verifications to a page, and the verifications on
/// that page.
pub fn verifications_page<T>(items: Vec<T>, page: Option<u32>) -> (r: (RequirementsPage, Vec<T>))
    requires
        items@.len() <= i64::MAX,
    ensures
        r.0.total_count == items@.len(),
        r.0.total_pages == requirement_page_count(items@.len() as int),
        r.0.current_page == shown_requirement_page(page, r.0.total_pages as int),
        r.0.offset == (r.0.current_page - 1) * VERIFICATIONS_PER_PAGE,
        r.1@ == items@.subrange(
            if r.0.offset <= items@.len() {
                r.0.offset as int
            } else {
                items@.len() as int
            },
            if r.0.offset + VERIFICATIONS_PER_PAGE <= items@.len() {
                r.0.offset + VERIFICATIONS_PER_PAGE
            } else {
                items@.len() as int
            },
        ),
{
    let len: usize = items.len();
    let window = requirements_page(page, len as i64);
    assert(window.current_page >= 1);
    let start: usize = if (window.offset as u64) <= (len as u64) {
        window.offset as usize
    } else {
        len
    };
    let shown = page_items(items, start, 25);
    (window, shown)
}

/// Whether a test in a status of the given kind may be deleted: passed and
/// failed tests may, others only by an administrator.
pub fn test_deletable(kind: Option<TestStatusKind>, is_admin: bool) -> (r: bool)
    ensures
        r == (kind == Some(TestStatusKind::Passed) || kind == Some(TestStatusKind::Failed)
            || is_admin),
{
    match kind {
        Some(TestStatusKind::Passed) => true,
        Some(TestStatusKind::Failed) => true,
        _ => is_admin,
    }
}

/// What deleting a test of the verification list comes to.
#[derive(Clone, Copy, Debug, PartialEq, Eq, Structural)]
pub enum DeleteTestDecision {
    /// The test belongs to another project: go to that project's list.
    RedirectToOwnerList,
    /// Its status forbids deleting it and the user is no administrator.
    Forbidden,
    /// It is deleted.
    Delete,
}

/// Ownership first, then the status gate of `test_deletable`.
pub fn delete_test_decision(
    project_id: i32,
    test_project_id: i32,
    kind: Option<TestStatusKind>,
    is_admin: bool,
) -> (r: DeleteTestDecision)
    ensures
        r == (if project_id != test_project_id {
            DeleteTestDecision::RedirectToOwnerList
        } else if kind == Some(TestStatusKind::Passed) || kind == Some(TestStatusKind::Failed)
            || is_admin {
            DeleteTestDecision::Delete
        } else {
            DeleteTestDecision::Forbidden
        }),
{
    if test_project_id != project_id {
        DeleteTestDecision::RedirectToOwnerList
    } else if test_deletable(kind, is_admin) {
        DeleteTestDecision::Delete
    } else {
        DeleteTestDecision::Forbidden
    }
}

/// An optional id where zero means none (`and_then(|id| (id != 0).then_some(id))`).
pub fn nonzero_id(id: Option<i32>) -> (r: Option<i32>)
    ensures
        r == (match id {
            Some(v) => if v == 0 {
                None
            } else {
                Some(v)
            },
            None => None,
        }),
{
    match id {
        Some(v) => if v == 0 {
            None
        } else {
            Some(v)
        },
        None => None,
    }
}

/// Where the page of a test as of a baseline redirects instead: to the
/// baselines list when the baseline is missing or belongs to another
/// project, to the current test when the baseline has no snapshot of it.
pub fn verification_version_redirect(
    project_slug: &str,
    project_id: i32,
    baseline_project_id: Option<i32>,
    snapshot_found: bool,
    verification_id: i32,
) -> (r: Option<String>)
    ensures
        (baseline_project_id is None || baseline_project_id != Some(project_id)) ==> (r matches Some(p)
            && p@ == "/p/"@ + project_slug@ + "/baselines"@),
        baseline_project_id == Some(project_id) && !snapshot_found ==> (r matches Some(p) && p@
            == test_page_text(project_slug@, "show"@, verification_id)),
        baseline_project_id == Some(project_id) && snapshot_found ==> r is None,
{
    let same = match baseline_project_id {
        Some(p) => p == project_id,
        None => false,
    };
    if !same {
        let mut r = concat("/p/", project_slug);
        push_str(&mut r, "/baselines");
        return Some(r);
    }
    if !snapshot_found {
        return Some(test_detail_path(project_slug, verification_id));
    }
    None
}

/// The title of a status, or `Status #<id>` when it cannot be found.
pub fn status_title_or_number(title: Option<String>, status_id: i32) -> (r: String)
    ensures
        r@ == (match title {
            Some(t) => t@,
            None => "Status #"@ + int_decimal(status_id as int),
        }),
{
    match title {
        Some(t) => t,
        None => {
            let mut r = String::from_str("Status #");
            push_int(&mut r, status_id as i64);
            r
        },
    }
}

/// A test (verification) as it is created or saved.
#[derive(Debug)]
pub struct NewVerification {
    pub id: Option<i32>,
    pub name: String,
    pub description: String,
    pub source: String,
    pub status_id: i32,
    pub reference_code: String,
    pub parent_id: Option<i32>,
    pub project_id: i32,
    pub verification_method_id: Option<i32>,
}

/// The form that creates a test.
#[derive(Debug)]
pub struct NewVerificationForm {
    pub name: String,
    pub description: String,
    pub source: String,
    pub status_id: i32,
    pub reference_code: String,
    /// Zero when no parent is chosen.
    pub parent_id: Option<i32>,
    /// Zero when no method is chosen.
    pub verification_method_id: Option<i32>,
    /// The requirements the test verifies.
    pub verification_req: Vec<i32>,
}

/// An optional id where zero means none, as a spec.
pub open spec fn nonzero(id: Option<i32>) -> Option<i32> {
    match id {
        Some(v) => if v == 0 {
            None
        } else {
            Some(v)
        },
        None => None,
    }
}

/// The test a creation form describes, in the project of the route (not one
/// the form might name); a parent or method of zero is none.
pub fn new_verification_payload(form: &NewVerificationForm, project_id: i32) -> (r: NewVerification)
    ensures
        r.id is None,
        r.name == form.name,
        r.description == form.description,
        r.source == form.source,
        r.status_id == form.status_id,
        r.reference_code == form.reference_code,
        r.parent_id == nonzero(form.parent_id),
        r.project_id == project_id,
        r.verification_method_id == nonzero(form.verification_method_id),
{
    NewVerification {
        id: None,
        name: form.name.clone(),
        description: form.description.clone(),
        source: form.source.clone(),
        status_id: form.status_id,
        reference_code: form.reference_code.clone(),
        parent_id: nonzero_id(form.parent_id),
        project_id,
        verification_method_id: nonzero_id(form.verification_method_id),
    }
}

/// A link between a requirement and a test, made when a test is created.
#[derive(Clone, Copy, Debug, PartialEq, Eq, Structural)]
pub struct NewMatrixLink {
    pub req_id: i32,
    pub verification_id: i32,
    pub project_id: i32,
}

/// The links of a new test: one per chosen requirement, in order, all in
/// the project of the route, so that a tampered form cannot link across
/// projects.
pub fn new_test_links(req_ids: &Vec<i32>, verification_id: i32, project_id: i32) -> (r: Vec<NewMatrixLink>)
    ensures
        r@ == req_ids@.map_values(
            |id: i32| NewMatrixLink { req_id: id, verification_id, project_id },
        ),
{
    let mut r: Vec<NewMatrixLink> = Vec::new();
    let mut i: usize = 0;
    while i < req_ids.len()
        invariant
            i <= req_ids@.len(),
            r@ == req_ids@.take(i as int).map_values(
                |id: i32| NewMatrixLink { req_id: id, verification_id, project_id },
            ),
        decreases req_ids.len() - i,
    {
        r.push(NewMatrixLink { req_id: req_ids[i], verification_id, project_id });
        i = i + 1;
        assert(r@ =~= req_ids@.take(i as int).map_values(
            |id: i32| NewMatrixLink { req_id: id, verification_id, project_id },
        ));
    }
    assert(req_ids@.take(i as int) =~= req_ids@);
    r
}

/// The message shown when linking a new test to a requirement fails: the
/// storage layer's detail for a link across projects, a fixed one otherwise.
pub open spec fn link_failure_text(e: RepoError) -> Seq<char> {
    match e {
        RepoError::CrossProjectViolation(detail) => "Cannot link requirement across projects: "@ + detail@,
        _ => "Failed to link requirements"@,
    }
}

/// Exec form of `link_failure_text`.
pub fn link_failure_message(e: &RepoError) -> (r: String)
    ensures
        r@ == link_failure_text(*e),
{
    match e {
        RepoError::CrossProjectViolation(detail) => concat(
            "Cannot link requirement across projects: ",
            detail.as_str(),
        ),
        _ => String::from_str("Failed to link requirements"),
    }
}

/// The form that edits a test.
#[derive(Debug)]
pub struct EditVerificationForm {
    pub id: i32,
    pub name: String,
    pub description: String,
    pub source: String,
    pub status_id: i32,
    pub reference_code: String,
    pub parent_id: Option<i32>,
    pub project_id: i32,
    pub verification_method_id: Option<i32>,
    pub linked_requirements: Vec<i32>,
}

/// The test an edit form saves: every field copied, a parent or method of
/// zero being none.
pub fn edit_verification_payload(form: &EditVerificationForm) -> (r: NewVerification)
    ensures
        r.id == Some(form.id),
        r.name == form.name,
        r.description == form.description,
        r.source == form.source,
        r.status_id == form.status_id,
        r.reference_code == form.reference_code,
        r.parent_id == nonzero(form.parent_id),
        r.project_id == form.project_id,
        r.verification_method_id == nonzero(form.verification_method_id),
{
    NewVerification {
        id: Some(form.id),
        name: form.name.clone(),
        description: form.description.clone(),
        source: form.source.clone(),
        status_id: form.status_id,
        reference_code: form.reference_code.clone(),
        parent_id: nonzero_id(form.parent_id),
        project_id: form.project_id,
        verification_method_id: nonzero_id(form.verification_method_id),
    }
}

/// A stored test.
#[derive(Debug)]
pub struct Verification {
    pub id: i32,
    pub name: String,
    pub description: String,
    pub source: String,
    pub status_id: i32,
    pub reference_code: String,
    pub parent_id: Option<i32>,
    pub project_id: i32,
    pub verification_method_id: Option<i32>,
}

/// The inline status change of a test: the test as stored, with only its
/// status replaced.
pub fn status_update_payload(test: Verification, status_id: i32) -> (r: NewVerification)
    ensures
        r.id == Some(test.id),
        r.name == test.name,
        r.description == test.description,
        r.source == test.source,
        r.status_id == status_id,
        r.reference_code == test.reference_code,
        r.parent_id == test.parent_id,
        r.project_id == test.project_id,
        r.verification_method_id == test.verification_method_id,
{
    NewVerification {
        id: Some(test.id),
        name: test.name,
        description: test.description,
        source: test.source,
        status_id,
        reference_code: test.reference_code,
        parent_id: test.parent_id,
        project_id: test.project_id,
        verification_method_id: test.verification_method_id,
    }
}

/// The status a failed delete answers with: not found for a missing test,
/// a server error otherwise.
pub fn delete_failure_status(e: &RepoError) -> (s: ErrorStatus)
    ensures
        s == (if *e is NotFound {
            ErrorStatus::NotFound
        } else {
            ErrorStatus::InternalServerError
        }),
{
    match e {
        RepoError::NotFound => ErrorStatus::NotFound,
        _ => ErrorStatus::InternalServerError,
    }
}

/// One status choice of the new-test form.
#[derive(Debug)]
pub struct StatusChoice {
    pub id: i32,
    pub title: String,
    pub selected: bool,
}

/// The status choices of the new-test form, in order: the status titled
/// `default_title` (the pending status) is preselected.
pub fn status_choices(statuses: &Vec<VerificationStatus>, default_title: &str) -> (r: Vec<StatusChoice>)
    ensures
        r@.len() == statuses@.len(),
        forall|i: int|
            0 <= i < statuses@.len() ==> {
                &&& (#[trigger] r@[i]).id == statuses@[i].id
                &&& r@[i].title == statuses@[i].title
                &&& r@[i].selected == (statuses@[i].title@ == default_title@)
            },
{
    let mut r: Vec<StatusChoice> = Vec::new();
    let mut i: usize = 0;
    while i < statuses.len()
        invariant
            i <= statuses@.len(),
            r@.len() == i,
            forall|k: int|
                0 <= k < i ==> {
                    &&& (#[trigger] r@[k]).id == statuses@[k].id
                    &&& r@[k].title == statuses@[k].title
                    &&& r@[k].selected == (statuses@[k].title@ == default_title@)
                },
        decreases statuses.len() - i,
    {
        let st = &statuses[i];
        r.push(
            StatusChoice {
                id: st.id,
                title: st.title.clone(),
                selected: same_text(st.title.as_str(), default_title),
            },
        );
        i = i + 1;
    }
    r
}

/// `New Test - <project>`, or `New Test` when the project is not known.
pub fn new_test_page_title(project_name: Option<&str>) -> (r: String)
    ensures
        r@ == (match project_name {
            Some(n) => "New Test - "@ + n@,
            None => "New Test"@,
        }),
{
    match project_name {
        Some(n) => concat("New Test - ", n),
        None => String::from_str("New Test"),
    }
}

/// `Edit <reference> - Test`, the title of a test's edit page.
pub fn edit_test_page_title(reference_code: &str) -> (r: String)
    ensures
        r@ == "Edit "@ + reference_code@ + " - Test"@,
{
    let mut r = concat("Edit ", reference_code);
    push_str(&mut r, " - Test");
    r
}

/// `<reference> (baseline) - Test`, the title of a test as of a baseline.
pub fn baseline_test_page_title(reference_code: &str) -> (r: String)
    ensures
        r@ == reference_code@ + " (baseline) - Test"@,
{
    concat(reference_code, " (baseline) - Test")
}

} // verus!
