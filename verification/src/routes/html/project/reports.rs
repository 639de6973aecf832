use vstd::prelude::*;

use crate::route_info::{route, route_view, route_views, Method, RouteInfo, RouteView};

verus! {

/// The routes this module serves, in mounting order: method, path pattern
/// and handler name.
pub open spec fn route_table() -> Seq<RouteView> {
    seq![
        route_view(Method::Get, "/<project_id>/reports"@, "show_reports"@),
        route_view(Method::Get, "/<project_id>/reports/pdf"@, "generate_pdf_report"@),
    ]
}

/// The routes of this module, in the order they are mounted.
pub fn routes() -> (r: Vec<RouteInfo>)
    ensures
        route_views(r@) == route_table(),
{
    let mut r: Vec<RouteInfo> = Vec::new();
    r.push(route(Method::Get, "/<project_id>/reports", "show_reports"));
    r.push(route(Method::Get, "/<project_id>/reports/pdf", "generate_pdf_report"));
    assert(route_views(r@) =~= route_table());
    r
}

/// How many of `names` equal `n`.
pub open spec fn occurrences(names: Seq<Seq<char>>, n: Seq<char>) -> nat
    decreases names.len(),
{
    if names.len() == 0 {
        0
    } else {
        occurrences(names.drop_last(), n) + if names.last() == n {
            1nat
        } else {
            0nat
        }
    }
}

proof fn lemma_occurrences_bound(names: Seq<Seq<char>>, n: Seq<char>)
    ensures
        occurrences(names, n) <= names.len(),
    decreases names.len(),
{
    if names.len() > 0 {
        lemma_occurrences_bound(names.drop_last(), n);
    }
}

proof fn lemma_occurrences_zero(names: Seq<Seq<char>>, n: Seq<char>)
    requires
        forall|k: int| 0 <= k < names.len() ==> names[k] != n,
    ensures
        occurrences(names, n) == 0,
    decreases names.len(),
{
    if names.len() > 0 {
        lemma_occurrences_zero(names.drop_last(), n);
    }
}

/// A name and how often it occurs.
#[derive(Debug)]
pub struct NameCount {
    pub name: String,
    pub count: i32,
}

/// `tally` counts `names`: each distinct name once, with its number of
/// occurrences; the order of the entries is not fixed.
pub open spec fn is_tally(tally: Seq<NameCount>, names: Seq<Seq<char>>) -> bool {
    &&& forall|i: int| 0 <= i < tally.len() ==> (#[trigger] tally[i]).count == occurrences(names, tally[i].name@)
    &&& forall|i: int, j: int| 0 <= i < j < tally.len() ==> (#[trigger] tally[i]).name@ != (#[trigger] tally[j]).name@
    &&& forall|k: int| 0 <= k < names.len() ==> exists|i: int| 0 <= i < tally.len() && (#[trigger] tally[i]).name@ == #[trigger] names[k]
    &&& forall|i: int| 0 <= i < tally.len() ==> names.contains((#[trigger] tally[i]).name@)
}

/// Counts how often each name occurs (the grouping of the report page).
pub fn tally_names(names: &Vec<String>) -> (r: Vec<NameCount>)
    requires
        names@.len() <= i32::MAX,
    ensures
        is_tally(r@, names@.map_values(|s: String| s@)),
{
    let ghost all = names@.map_values(|s: String| s@);
    let mut out: Vec<NameCount> = Vec::new();
    let mut k: usize = 0;
    while k < names.len()
        invariant
            k <= names@.len() <= i32::MAX,
            all == names@.map_values(|s: String| s@),
            is_tally(out@, all.take(k as int)),
        decreases names.len() - k,
    {
        let ghost prefix = all.take(k as int);
        let ghost next = all.take(k + 1);
        assert(next.drop_last() =~= prefix);
        let name = &names[k];
        let mut j: usize = 0;
        let mut found: Option<usize> = None;
        while j < out.len()
            invariant_except_break
                found is None,
            invariant
                j <= out@.len(),
                forall|q: int| 0 <= q < j ==> out@[q].name@ != name@,
            ensures
                found matches Some(idx) ==> idx < out@.len() && out@[idx as int].name@ == name@,
                found is None ==> forall|q: int| 0 <= q < out@.len() ==> out@[q].name@ != name@,
            decreases out.len() - j,
        {
            if out[j].name == *name {
                found = Some(j);
                break;
            }
            j = j + 1;
        }
        proof {
            lemma_occurrences_bound(prefix, name@);
        }
        match found {
            Some(idx) => {
                assert(out@[idx as int].name@ == name@);
                let ghost before = out@;
                let c = out[idx].count;
                let entry = NameCount { name: name.clone(), count: c + 1 };
                out.set(idx, entry);
                proof {
                    assert forall|i: int| 0 <= i < out@.len() implies (#[trigger] out@[i]).count == occurrences(next, out@[i].name@) by {
                        if i != idx {
                            assert(out@[i] == before[i]);
                        }
                    }
                    assert forall|q: int| 0 <= q < next.len() implies exists|i: int| 0 <= i < out@.len() && (#[trigger] out@[i]).name@ == #[trigger] next[q] by {
                        if q < k {
                            assert(next[q] == prefix[q]);
                            let i = choose|i: int| 0 <= i < before.len() && (#[trigger] before[i]).name@ == prefix[q];
                            assert(out@[i].name@ == before[i].name@);
                        } else {
                            assert(out@[idx as int].name@ == next[q]);
                        }
                    }
                    assert forall|i: int| 0 <= i < out@.len() implies next.contains((#[trigger] out@[i]).name@) by {
                        if i != idx {
                            assert(out@[i] == before[i]);
                            let q = choose|q: int| 0 <= q < prefix.len() && prefix[q] == before[i].name@;
                            assert(next[q] == prefix[q]);
                        } else {
                            assert(next[k as int] == name@);
                        }
                    }
                    assert forall|a: int, b: int| 0 <= a < b < out@.len() implies (#[trigger] out@[a]).name@ != (#[trigger] out@[b]).name@ by {
                        assert(out@[a].name@ == before[a].name@);
                        assert(out@[b].name@ == before[b].name@);
                    }
                }
            },
            None => {
                let ghost before = out@;
                proof {
                    assert forall|q: int| 0 <= q < prefix.len() implies prefix[q] != name@ by {
                        let i = choose|i: int| 0 <= i < before.len() && (#[trigger] before[i]).name@ == prefix[q];
                    }
                    lemma_occurrences_zero(prefix, name@);
                }
                out.push(NameCount { name: name.clone(), count: 1 });
                proof {
                    assert forall|i: int| 0 <= i < out@.len() implies (#[trigger] out@[i]).count == occurrences(next, out@[i].name@) by {
                        if i < before.len() {
                            assert(out@[i] == before[i]);
                            assert(out@[i].name@ != name@) by {
                                let q = choose|q: int| 0 <= q < prefix.len() && prefix[q] == before[i].name@;
                            }
                        }
                    }
                    assert forall|q: int| 0 <= q < next.len() implies exists|i: int| 0 <= i < out@.len() && (#[trigger] out@[i]).name@ == #[trigger] next[q] by {
                        if q < k {
                            assert(next[q] == prefix[q]);
                            let i = choose|i: int| 0 <= i < before.len() && (#[trigger] before[i]).name@ == prefix[q];
                            assert(out@[i] == before[i]);
                        } else {
                            assert(out@[before.len() as int].name@ == next[q]);
                        }
                    }
                    assert forall|i: int| 0 <= i < out@.len() implies next.contains((#[trigger] out@[i]).name@) by {
                        if i < before.len() {
                            assert(out@[i] == before[i]);
                            let q = choose|q: int| 0 <= q < prefix.len() && prefix[q] == before[i].name@;
                            assert(next[q] == prefix[q]);
                        } else {
                            assert(next[k as int] == name@);
                        }
                    }
                    assert forall|a: int, b: int| 0 <= a < b < out@.len() implies (#[trigger] out@[a]).name@ != (#[trigger] out@[b]).name@ by {
                        if b == before.len() {
                            assert(out@[a] == before[a]);
                            let q = choose|q: int| 0 <= q < prefix.len() && prefix[q] == before[a].name@;
                        } else {
                            assert(out@[a] == before[a]);
                            assert(out@[b] == before[b]);
                        }
                    }
                }
            },
        }
        k = k + 1;
    }
    assert(all.take(k as int) =~= all);
    out
}

/// The number of requirements with at least one linked test, and the
/// number of links, from each requirement's link count.
pub open spec fn covered_count(links: Seq<usize>) -> nat
    decreases links.len(),
{
    if links.len() == 0 {
        0
    } else {
        covered_count(links.drop_last()) + if links.last() > 0 {
            1nat
        } else {
            0nat
        }
    }
}

/// The total of the link counts.
pub open spec fn link_total(links: Seq<usize>) -> nat
    decreases links.len(),
{
    if links.len() == 0 {
        0
    } else {
        link_total(links.drop_last()) + (links.last() as nat)
    }
}

proof fn lemma_covered_bound(links: Seq<usize>)
    ensures
        covered_count(links) <= links.len(),
    decreases links.len(),
{
    if links.len() > 0 {
        lemma_covered_bound(links.drop_last());
    }
}

proof fn lemma_link_total_prefix(links: Seq<usize>, k: int)
    requires
        0 <= k <= links.len(),
    ensures
        link_total(links.take(k)) <= link_total(links),
    decreases links.len() - k,
{
    if k < links.len() {
        lemma_link_total_prefix(links, k + 1);
        assert(links.take(k + 1).drop_last() =~= links.take(k));
    } else {
        assert(links.take(k) =~= links);
    }
}

/// The counts of a project's report; the two ratios the page shows are
/// worked out from them.
#[derive(Debug)]
pub struct ReportCounts {
    pub users_len: usize,
    pub total_requirements: usize,
    pub total_tests: usize,
    pub total_categories: usize,
    pub requirements_by_status: Vec<NameCount>,
    pub tests_by_status: Vec<NameCount>,
    pub requirements_by_category: Vec<NameCount>,
    pub covered_requirements: usize,
    pub total_links: usize,
    pub recent_requirements: usize,
    pub recent_tests: usize,
}

/// The report of a project from the status name of each requirement and
/// test, the category name of each requirement and the number of tests
/// linked to each requirement.
pub fn compute_metrics(
    requirement_status_names: &Vec<String>,
    test_status_names: &Vec<String>,
    requirement_category_names: &Vec<String>,
    requirement_link_counts: &Vec<usize>,
    categories_len: usize,
    users_len: usize,
) -> (m: ReportCounts)
    requires
        requirement_status_names@.len() <= i32::MAX,
        test_status_names@.len() <= i32::MAX,
        requirement_category_names@.len() <= i32::MAX,
        link_total(requirement_link_counts@) <= usize::MAX,
    ensures
        m.users_len == users_len,
        m.total_requirements == requirement_status_names@.len(),
        m.total_tests == test_status_names@.len(),
        m.total_categories == categories_len,
        is_tally(m.requirements_by_status@, requirement_status_names@.map_values(|s: String| s@)),
        is_tally(m.tests_by_status@, test_status_names@.map_values(|s: String| s@)),
        is_tally(m.requirements_by_category@, requirement_category_names@.map_values(|s: String| s@)),
        m.covered_requirements == covered_count(requirement_link_counts@),
        m.total_links == link_total(requirement_link_counts@),
        m.recent_requirements == m.total_requirements,
        m.recent_tests == m.total_tests,
{
    let mut covered: usize = 0;
    let mut total: usize = 0;
    let mut k: usize = 0;
    while k < requirement_link_counts.len()
        invariant
            k <= requirement_link_counts@.len(),
            link_total(requirement_link_counts@) <= usize::MAX,
            covered == covered_count(requirement_link_counts@.take(k as int)),
            total == link_total(requirement_link_counts@.take(k as int)),
            covered <= k,
        decreases requirement_link_counts.len() - k,
    {
        proof {
            assert(requirement_link_counts@.take(k + 1).drop_last() =~= requirement_link_counts@.take(k as int));
            lemma_link_total_prefix(requirement_link_counts@, k + 1);
        }
        let n = requirement_link_counts[k];
        if n > 0 {
            covered = covered + 1;
        }
        total = total + n;
        k = k + 1;
    }
    assert(requirement_link_counts@.take(k as int) =~= requirement_link_counts@);
    ReportCounts {
        users_len,
        total_requirements: requirement_status_names.len(),
        total_tests: test_status_names.len(),
        total_categories: categories_len,
        requirements_by_status: tally_names(requirement_status_names),
        tests_by_status: tally_names(test_status_names),
        requirements_by_category: tally_names(requirement_category_names),
        covered_requirements: covered,
        total_links: total,
        recent_requirements: requirement_status_names.len(),
        recent_tests: test_status_names.len(),
    }
}

} // verus!
