use vstd::prelude::*;

use crate::external::{to_lowercase, unicode_lowercase};
use crate::ordering::{key_views, stable_sort_by_keys, stably_sorted, text_key};
use crate::route_info::{route, route_view, route_views, Method, RouteInfo, RouteView};
use crate::routes::html::helpers::text_key_of;
use crate::routes::html::project::matrix::{
    build_matrix_rows, build_pagination_context, has_link, matrix_page, matrix_per_page, row_cells,
    total_linked, MatrixRequirement, MatrixRow, MatrixTest, PaginationContext,
};
use crate::routes::html::project::requirements::opt_str;
use crate::selection::{masked, retain_by_mask, reverse_vec};
use crate::text::{chars_of, contains_text, has_prefix, has_text, int_decimal, int_to_string, parse_i32, parsed_i32, same_text, starts_with, string_from_chars};

verus! {

/// The routes this module serves, in mounting order: method, path pattern
/// and handler name.
pub open spec fn route_table() -> Seq<RouteView> {
    seq![
        route_view(Method::Delete, "/<project_id>/tests/delete/<test_id>"@, "delete_test_route"@),
        route_view(Method::Get, "/<project_id>/tests?<status_filter>&<verification_filter>&<category_filter>&<search>"@, "show_tests"@),
        route_view(Method::Get, "/<project_id>/tests/show/<test_id>"@, "show_test_id"@),
        route_view(Method::Get, "/<project_id>/tests/new?<error>"@, "new_test"@),
        route_view(Method::Get, "/<project_id>/tests/edit/<test_id>"@, "get_edit_test"@),
        route_view(Method::Post, "/<project_id>/tests/edit/<test_id>"@, "post_edit_test"@),
        route_view(Method::Post, "/<project_id>/tests/new"@, "post_test"@),
        route_view(Method::Get, "/<project_id>/matrix?<sort_by>&<sort_order>&<test_status_filter>&<req_status_filter>&<category_filter>&<applicability_filter>&<linkage_filter>&<page>&<per_page>&<search>"@, "get_matrix"@),
        route_view(Method::Get, "/<project_id>/matrix.xls"@, "get_matrix_xls"@),
        route_view(Method::Get, "/<project_id>/matrix.csv?<test_status_filter>"@, "get_matrix_csv"@),
        route_view(Method::Get, "/<project_id>/requirements.xls"@, "get_requirements_xls"@),
        route_view(Method::Get, "/<project_id>/tests.xls"@, "get_tests_xls"@),
    ]
}

/// The routes of this module, in the order they are mounted.
pub fn routes() -> (r: Vec<RouteInfo>)
    ensures
        route_views(r@) == route_table(),
{
    let mut r: Vec<RouteInfo> = Vec::new();
    r.push(route(Method::Delete, "/<project_id>/tests/delete/<test_id>", "delete_test_route"));
    r.push(route(Method::Get, "/<project_id>/tests?<status_filter>&<verification_filter>&<category_filter>&<search>", "show_tests"));
    r.push(route(Method::Get, "/<project_id>/tests/show/<test_id>", "show_test_id"));
    r.push(route(Method::Get, "/<project_id>/tests/new?<error>", "new_test"));
    r.push(route(Method::Get, "/<project_id>/tests/edit/<test_id>", "get_edit_test"));
    r.push(route(Method::Post, "/<project_id>/tests/edit/<test_id>", "post_edit_test"));
    r.push(route(Method::Post, "/<project_id>/tests/new", "post_test"));
    r.push(route(Method::Get, "/<project_id>/matrix?<sort_by>&<sort_order>&<test_status_filter>&<req_status_filter>&<category_filter>&<applicability_filter>&<linkage_filter>&<page>&<per_page>&<search>", "get_matrix"));
    r.push(route(Method::Get, "/<project_id>/matrix.xls", "get_matrix_xls"));
    r.push(route(Method::Get, "/<project_id>/matrix.csv?<test_status_filter>", "get_matrix_csv"));
    r.push(route(Method::Get, "/<project_id>/requirements.xls", "get_requirements_xls"));
    r.push(route(Method::Get, "/<project_id>/tests.xls", "get_tests_xls"));
    assert(route_views(r@) =~= route_table());
    r
}

/// A requirement of the test matrix with the fields its filters read.
#[derive(Debug)]
pub struct MatrixRequirementRecord {
    pub req: MatrixRequirement,
    pub status: i32,
    pub category: i32,
    pub applicability: i32,
}

/// Whether a requirement matches the matrix search: its title or reference
/// contains the lower-cased query (both lower-cased), or its id's decimal
/// text contains it.
pub open spec fn req_search_hit(query: Seq<char>, r: MatrixRequirementRecord) -> bool {
    let q = unicode_lowercase(query);
    contains_text(unicode_lowercase(r.req.req_title@), q) || contains_text(
        unicode_lowercase(r.req.req_reference@),
        q,
    ) || contains_text(int_decimal(r.req.req_id as int), q)
}

/// Whether a requirement passes the status, category, applicability and
/// search filters that are set.
pub open spec fn req_filter_keeps(
    r: MatrixRequirementRecord,
    req_status: Option<i32>,
    category: Option<i32>,
    applicability: Option<i32>,
    search: Option<Seq<char>>,
) -> bool {
    &&& (req_status matches Some(v) ==> r.status == v)
    &&& (category matches Some(v) ==> r.category == v)
    &&& (applicability matches Some(v) ==> r.applicability == v)
    &&& (search matches Some(q) ==> req_search_hit(q, r))
}

/// The filters' verdict on each requirement.
pub open spec fn req_filter_mask(
    reqs: Seq<MatrixRequirementRecord>,
    req_status: Option<i32>,
    category: Option<i32>,
    applicability: Option<i32>,
    search: Option<Seq<char>>,
) -> Seq<bool> {
    reqs.map_values(
        |r: MatrixRequirementRecord| req_filter_keeps(r, req_status, category, applicability, search),
    )
}

fn search_hit(q_lower: &str, r: &MatrixRequirementRecord, Ghost(query): Ghost<Seq<char>>) -> (b: bool)
    requires
        q_lower@ == unicode_lowercase(query),
    ensures
        b == req_search_hit(query, *r),
{
    let t = to_lowercase(r.req.req_title.as_str());
    let f = to_lowercase(r.req.req_reference.as_str());
    let id = int_to_string(r.req.req_id as i64);
    has_text(t.as_str(), q_lower) || has_text(f.as_str(), q_lower) || has_text(id.as_str(), q_lower)
}

/// The requirements that pass the matrix filters, in order.
pub fn filter_matrix_requirements(
    reqs: Vec<MatrixRequirementRecord>,
    req_status: Option<i32>,
    category: Option<i32>,
    applicability: Option<i32>,
    search: Option<&str>,
) -> (r: Vec<MatrixRequirementRecord>)
    ensures
        r@ == masked(reqs@, req_filter_mask(reqs@, req_status, category, applicability, opt_str(search))),
{
    let q_lower = match search {
        Some(q) => to_lowercase(q),
        None => String::new(),
    };
    let ghost query = match search {
        Some(q) => q@,
        None => Seq::<char>::empty(),
    };
    let ghost mask = req_filter_mask(reqs@, req_status, category, applicability, opt_str(search));
    let mut keep: Vec<bool> = Vec::new();
    let mut i: usize = 0;
    while i < reqs.len()
        invariant
            i <= reqs@.len(),
            mask == req_filter_mask(reqs@, req_status, category, applicability, opt_str(search)),
            search is Some ==> q_lower@ == unicode_lowercase(query) && opt_str(search) == Some(query),
            keep@ == mask.take(i as int),
        decreases reqs.len() - i,
    {
        let r = &reqs[i];
        let mut ok = true;
        if let Some(v) = req_status {
            ok = ok && r.status == v;
        }
        if let Some(v) = category {
            ok = ok && r.category == v;
        }
        if let Some(v) = applicability {
            ok = ok && r.applicability == v;
        }
        if search.is_some() {
            ok = ok && search_hit(q_lower.as_str(), r, Ghost(query));
        }
        keep.push(ok);
        i = i + 1;
        assert(keep@ =~= mask.take(i as int));
    }
    assert(keep@ =~= mask);
    retain_by_mask(reqs, &keep)
}

/// The sort keys of the test columns: their ids.
pub open spec fn test_id_keys(tests: Seq<MatrixTest>) -> Seq<Seq<i64>> {
    tests.map_values(|t: MatrixTest| seq![t.test_id as i64])
}

/// Whether each test passes the status filter.
pub open spec fn test_status_mask(tests: Seq<MatrixTest>, status_filter: Option<i32>) -> Seq<bool> {
    tests.map_values(
        |t: MatrixTest|
            match status_filter {
                Some(s) => t.test_status == s,
                None => true,
            },
    )
}

fn test_id_key_vec(tests: &Vec<MatrixTest>) -> (r: Vec<Vec<i64>>)
    ensures
        key_views(r@) == test_id_keys(tests@),
{
    let mut keys: Vec<Vec<i64>> = Vec::new();
    let mut k: usize = 0;
    while k < tests.len()
        invariant
            k <= tests@.len(),
            keys@.len() == k,
            key_views(keys@) == test_id_keys(tests@).take(k as int),
        decreases tests.len() - k,
    {
        let key = vec![tests[k].test_id as i64];
        let ghost before = keys@;
        keys.push(key);
        k = k + 1;
        proof {
            assert forall|j: int| 0 <= j < k implies #[trigger] key_views(keys@)[j] == test_id_keys(tests@)[j] by {
                if j < k - 1 {
                    assert(keys@[j] == before[j]);
                    assert(key_views(before)[j] == before[j]@);
                    assert(test_id_keys(tests@).take(k - 1)[j] == test_id_keys(tests@)[j]);
                } else {
                    assert(keys@[j]@ =~= seq![tests@[j].test_id as i64]);
                }
            }
            assert(key_views(keys@) =~= test_id_keys(tests@).take(k as int));
        }
    }
    assert(test_id_keys(tests@).take(k as int) =~= test_id_keys(tests@));
    keys
}

/// The matrix columns: the tests ordered by id (equal ids keep their
/// order), then only those in the filtered status.
pub fn order_matrix_tests(tests: Vec<MatrixTest>, status_filter: Option<i32>) -> (r: Vec<MatrixTest>)
    ensures
        exists|sorted: Seq<MatrixTest>|
            stably_sorted(sorted, tests@, test_id_keys(tests@), false) && r@ == masked(
                sorted,
                test_status_mask(sorted, status_filter),
            ),
{
    let keys = test_id_key_vec(&tests);
    let ghost input_view = tests@;
    assert(key_views(keys@).len() == keys@.len());
    let sorted = stable_sort_by_keys(tests, keys, false);
    let ghost sorted_view = sorted@;
    let mut keep: Vec<bool> = Vec::new();
    let mut i: usize = 0;
    while i < sorted.len()
        invariant
            i <= sorted@.len(),
            keep@ == test_status_mask(sorted@, status_filter).take(i as int),
        decreases sorted.len() - i,
    {
        let ok = match status_filter {
            Some(s) => sorted[i].test_status == s,
            None => true,
        };
        keep.push(ok);
        i = i + 1;
        assert(keep@ =~= test_status_mask(sorted@, status_filter).take(i as int));
    }
    assert(keep@ =~= test_status_mask(sorted@, status_filter));
    let r = retain_by_mask(sorted, &keep);
    assert(stably_sorted(sorted_view, input_view, test_id_keys(input_view), false));
    r
}

/// Whether the requirement is linked to some test that passes the status
/// filter.
pub open spec fn has_any_link(
    links: Seq<(i32, i32)>,
    req_id: i32,
    tests: Seq<MatrixTest>,
    status_filter: Option<i32>,
) -> bool {
    exists|j: int|
        0 <= j < tests.len() && (status_filter matches Some(s) ==> tests[j].test_status == s)
            && links.contains((req_id, #[trigger] tests[j].test_id))
}

/// Whether the linkage filter keeps a requirement: `linked` keeps linked
/// ones, `unlinked` the others, anything else keeps all.
pub open spec fn linkage_keeps(linkage: Option<Seq<char>>, linked: bool) -> bool {
    match linkage {
        Some(l) => if l == "linked"@ {
            linked
        } else if l == "unlinked"@ {
            !linked
        } else {
            true
        },
        None => true,
    }
}

/// The linkage filter's verdict on each requirement.
pub open spec fn linkage_mask(
    reqs: Seq<MatrixRequirementRecord>,
    tests: Seq<MatrixTest>,
    status_filter: Option<i32>,
    links: Seq<(i32, i32)>,
    linkage: Option<Seq<char>>,
) -> Seq<bool> {
    reqs.map_values(
        |r: MatrixRequirementRecord|
            linkage_keeps(linkage, has_any_link(links, r.req.req_id, tests, status_filter)),
    )
}

fn any_link(links: &Vec<(i32, i32)>, req_id: i32, tests: &Vec<MatrixTest>, status_filter: Option<i32>) -> (r: bool)
    ensures
        r == has_any_link(links@, req_id, tests@, status_filter),
{
    let mut j: usize = 0;
    while j < tests.len()
        invariant
            j <= tests@.len(),
            forall|q: int|
                0 <= q < j ==> !((status_filter matches Some(s) ==> tests@[q].test_status == s)
                    && links@.contains((req_id, #[trigger] tests@[q].test_id))),
        decreases tests.len() - j,
    {
        let t = &tests[j];
        let passes = match status_filter {
            Some(s) => t.test_status == s,
            None => true,
        };
        if passes && has_link(links, req_id, t.test_id) {
            return true;
        }
        j = j + 1;
    }
    false
}

/// The requirements the linkage filter keeps, in order.
pub fn filter_by_linkage(
    reqs: Vec<MatrixRequirementRecord>,
    tests: &Vec<MatrixTest>,
    status_filter: Option<i32>,
    links: &Vec<(i32, i32)>,
    linkage: Option<&str>,
) -> (r: Vec<MatrixRequirementRecord>)
    ensures
        r@ == masked(reqs@, linkage_mask(reqs@, tests@, status_filter, links@, opt_str(linkage))),
{
    let ghost mask = linkage_mask(reqs@, tests@, status_filter, links@, opt_str(linkage));
    let mut keep: Vec<bool> = Vec::new();
    let mut i: usize = 0;
    while i < reqs.len()
        invariant
            i <= reqs@.len(),
            mask == linkage_mask(reqs@, tests@, status_filter, links@, opt_str(linkage)),
            keep@ == mask.take(i as int),
        decreases reqs.len() - i,
    {
        let ok = match linkage {
            Some(l) => {
                if same_text(l, "linked") {
                    any_link(links, reqs[i].req.req_id, tests, status_filter)
                } else if same_text(l, "unlinked") {
                    !any_link(links, reqs[i].req.req_id, tests, status_filter)
                } else {
                    true
                }
            },
            None => true,
        };
        keep.push(ok);
        i = i + 1;
        assert(keep@ =~= mask.take(i as int));
    }
    assert(keep@ =~= mask);
    retain_by_mask(reqs, &keep)
}

/// How the matrix rows are ordered.
#[derive(Clone, Copy, Debug, PartialEq, Eq, Structural)]
pub enum MatrixSort {
    /// By whether the requirement is linked to this test (unlinked first).
    TestColumn(i32),
    Title,
    Reference,
    Id,
    /// A `test_` column whose number does not parse: no ordering at all.
    Unsorted,
}

/// The ordering named by `sort_by`: `test_<id>`, `req_title`,
/// `req_reference`, anything else by id.
pub open spec fn matrix_sort_of(sort_by: Seq<char>) -> MatrixSort {
    if starts_with(sort_by, "test_"@) {
        match parsed_i32(sort_by.skip("test_"@.len() as int)) {
            Some(t) => MatrixSort::TestColumn(t),
            None => MatrixSort::Unsorted,
        }
    } else if sort_by == "req_title"@ {
        MatrixSort::Title
    } else if sort_by == "req_reference"@ {
        MatrixSort::Reference
    } else {
        MatrixSort::Id
    }
}

/// Exec form of `matrix_sort_of`.
pub fn matrix_sort_mode(sort_by: &str) -> (m: MatrixSort)
    ensures
        m == matrix_sort_of(sort_by@),
{
    if has_prefix(sort_by, "test_") {
        let v = chars_of(sort_by);
        let p = chars_of("test_");
        let mut rest: Vec<char> = Vec::new();
        let mut k: usize = p.len();
        while k < v.len()
            invariant
                p.len() <= k <= v.len(),
                rest@ == v@.subrange(p@.len() as int, k as int),
            decreases v.len() - k,
        {
            rest.push(v[k]);
            k = k + 1;
            assert(rest@ =~= v@.subrange(p@.len() as int, k as int));
        }
        assert(rest@ =~= sort_by@.skip("test_"@.len() as int));
        let rest_text = string_from_chars(&rest);
        match parse_i32(rest_text.as_str()) {
            Some(t) => MatrixSort::TestColumn(t),
            None => MatrixSort::Unsorted,
        }
    } else if same_text(sort_by, "req_title") {
        MatrixSort::Title
    } else if same_text(sort_by, "req_reference") {
        MatrixSort::Reference
    } else {
        MatrixSort::Id
    }
}

/// The sort key of a requirement under an ordering.
pub open spec fn sort_key_of(mode: MatrixSort, links: Seq<(i32, i32)>, r: MatrixRequirementRecord) -> Seq<i64> {
    match mode {
        MatrixSort::TestColumn(t) => seq![
            if links.contains((r.req.req_id, t)) {
                1i64
            } else {
                0i64
            },
        ],
        MatrixSort::Title => text_key(r.req.req_title@),
        MatrixSort::Reference => text_key(r.req.req_reference@),
        _ => seq![r.req.req_id as i64],
    }
}

/// The sort keys of all requirements under an ordering.
pub open spec fn sort_keys(mode: MatrixSort, links: Seq<(i32, i32)>, reqs: Seq<MatrixRequirementRecord>) -> Seq<Seq<i64>> {
    reqs.map_values(|r: MatrixRequirementRecord| sort_key_of(mode, links, r))
}

/// `ordered` is `reqs` in the matrix order: unchanged when unsorted,
/// otherwise stably sorted ascending by the keys and then reversed when the
/// order is descending (so equal keys come out reversed too).
pub open spec fn in_matrix_order(
    ordered: Seq<MatrixRequirementRecord>,
    reqs: Seq<MatrixRequirementRecord>,
    mode: MatrixSort,
    links: Seq<(i32, i32)>,
    descending: bool,
) -> bool {
    if mode is Unsorted {
        ordered == reqs
    } else {
        exists|s: Seq<MatrixRequirementRecord>|
            stably_sorted(s, reqs, sort_keys(mode, links, reqs), false) && ordered == (if descending {
                s.reverse()
            } else {
                s
            })
    }
}

fn sort_key_exec(mode: MatrixSort, links: &Vec<(i32, i32)>, r: &MatrixRequirementRecord) -> (k: Vec<i64>)
    ensures
        k@ == sort_key_of(mode, links@, *r),
{
    match mode {
        MatrixSort::TestColumn(t) => {
            let v: i64 = if has_link(links, r.req.req_id, t) {
                1
            } else {
                0
            };
            let k = vec![v];
            assert(k@ =~= seq![v]);
            k
        },
        MatrixSort::Title => text_key_of(r.req.req_title.as_str()),
        MatrixSort::Reference => text_key_of(r.req.req_reference.as_str()),
        _ => {
            let k = vec![r.req.req_id as i64];
            assert(k@ =~= seq![r.req.req_id as i64]);
            k
        },
    }
}

/// Orders the matrix rows as `in_matrix_order` says.
pub fn sort_matrix_requirements(
    reqs: Vec<MatrixRequirementRecord>,
    mode: MatrixSort,
    links: &Vec<(i32, i32)>,
    descending: bool,
) -> (r: Vec<MatrixRequirementRecord>)
    ensures
        in_matrix_order(r@, reqs@, mode, links@, descending),
{
    if mode == MatrixSort::Unsorted {
        return reqs;
    }
    let ghost want = sort_keys(mode, links@, reqs@);
    let mut keys: Vec<Vec<i64>> = Vec::new();
    let mut k: usize = 0;
    while k < reqs.len()
        invariant
            k <= reqs@.len(),
            want == sort_keys(mode, links@, reqs@),
            keys@.len() == k,
            key_views(keys@) == want.take(k as int),
        decreases reqs.len() - k,
    {
        let key = sort_key_exec(mode, links, &reqs[k]);
        let ghost before = keys@;
        keys.push(key);
        k = k + 1;
        proof {
            assert forall|j: int| 0 <= j < k implies #[trigger] key_views(keys@)[j] == want[j] by {
                if j < k - 1 {
                    assert(keys@[j] == before[j]);
                    assert(key_views(before)[j] == before[j]@);
                    assert(want.take(k - 1)[j] == want[j]);
                }
            }
            assert(key_views(keys@) =~= want.take(k as int));
        }
    }
    assert(want.take(k as int) =~= want);
    let ghost input_view = reqs@;
    let sorted = stable_sort_by_keys(reqs, keys, false);
    let ghost s = sorted@;
    if descending {
        let r = reverse_vec(sorted);
        assert(stably_sorted(s, input_view, want, false) && r@ == s.reverse());
        r
    } else {
        assert(stably_sorted(s, input_view, want, false) && sorted@ == s);
        sorted
    }
}

proof fn lemma_matrix_order_len(
    ordered: Seq<MatrixRequirementRecord>,
    reqs: Seq<MatrixRequirementRecord>,
    mode: MatrixSort,
    links: Seq<(i32, i32)>,
    descending: bool,
)
    requires
        in_matrix_order(ordered, reqs, mode, links, descending),
    ensures
        ordered.len() == reqs.len(),
{
    if !(mode is Unsorted) {
        let s = choose|s: Seq<MatrixRequirementRecord>|
            stably_sorted(s, reqs, sort_keys(mode, links, reqs), false) && ordered == (if descending {
                s.reverse()
            } else {
                s
            });
        let order = choose|order: Seq<int>|
            #[trigger] crate::ordering::is_stable_order(order, sort_keys(mode, links, reqs), false)
                && s == order.map_values(|i: int| reqs[i]);
    }
}

/// Pages needed for `total` rows of `per_page` (rounded up; none when there
/// are no rows).
pub open spec fn matrix_page_count(total: int, per_page: int) -> int {
    (total + per_page - 1) / per_page
}

/// The plain requirement of each record.
pub open spec fn plain_requirements(reqs: Seq<MatrixRequirementRecord>) -> Seq<MatrixRequirement> {
    reqs.map_values(|r: MatrixRequirementRecord| r.req)
}

fn into_plain(reqs: Vec<MatrixRequirementRecord>) -> (r: Vec<MatrixRequirement>)
    ensures
        r@ == plain_requirements(reqs@),
{
    let ghost items0 = reqs@;
    let n = reqs.len();
    let mut reqs = reqs;
    let mut out: Vec<MatrixRequirement> = Vec::new();
    let mut k: usize = 0;
    while k < n
        invariant
            n == items0.len(),
            k <= n,
            reqs@ == items0.skip(k as int),
            out@ == plain_requirements(items0.take(k as int)),
        decreases n - k,
    {
        assert(items0.skip(k as int)[0] == items0[k as int]);
        let r = reqs.remove(0);
        out.push(r.req);
        k = k + 1;
        proof {
            assert(out@ =~= plain_requirements(items0.take(k as int)));
            assert(reqs@ =~= items0.skip(k as int));
        }
    }
    assert(items0.take(n as int) =~= items0);
    out
}

/// The query parameters of the test matrix page.
#[derive(Debug)]
pub struct TestMatrixQuery {
    pub sort_by: Option<String>,
    pub sort_order: Option<String>,
    pub test_status_filter: Option<i32>,
    pub req_status_filter: Option<i32>,
    pub category_filter: Option<i32>,
    pub applicability_filter: Option<i32>,
    pub linkage_filter: Option<String>,
    pub page: Option<i64>,
    pub per_page: Option<i64>,
    pub search: Option<String>,
}

/// The view of an optional string.
pub open spec fn opt_string(o: Option<String>) -> Option<Seq<char>> {
    match o {
        Some(s) => Some(s@),
        None => None,
    }
}

/// The requirements that survive all filters of the matrix query, before
/// ordering.
pub open spec fn matrix_rows_kept(
    reqs: Seq<MatrixRequirementRecord>,
    tests: Seq<MatrixTest>,
    links: Seq<(i32, i32)>,
    q: TestMatrixQuery,
) -> Seq<MatrixRequirementRecord> {
    let filtered = masked(
        reqs,
        req_filter_mask(
            reqs,
            q.req_status_filter,
            q.category_filter,
            q.applicability_filter,
            opt_string(q.search),
        ),
    );
    masked(
        filtered,
        linkage_mask(filtered, tests, q.test_status_filter, links, opt_string(q.linkage_filter)),
    )
}

/// The sort column asked for, `req_id` by default.
pub open spec fn matrix_sort_by(q: TestMatrixQuery) -> Seq<char> {
    match q.sort_by {
        Some(s) => s@,
        None => "req_id"@,
    }
}

/// Whether the order asked for is exactly `desc`.
pub open spec fn matrix_descending(q: TestMatrixQuery) -> bool {
    match q.sort_order {
        Some(o) => o@ == "desc"@,
        None => false,
    }
}

/// One page of the test matrix.
#[derive(Debug)]
pub struct TestMatrixPage {
    pub rows: Vec<MatrixRow>,
    pub tests: Vec<MatrixTest>,
    pub total_requirements: i64,
    pub total_links: usize,
    pub total_pages: i64,
    pub page: i64,
    pub per_page: i64,
    pub sort_by: String,
    pub descending: bool,
    pub pagination: PaginationContext,
}

/// `p` is the page the query asks for of the rows `kept`, over the columns
/// `p.tests`: page number and size with their defaults, the ordering asked
/// for, the rows of the page in that order with one cell per column, the
/// number of linked cells on the page, and the pager.
pub open spec fn page_matches(
    p: TestMatrixPage,
    kept: Seq<MatrixRequirementRecord>,
    links: Seq<(i32, i32)>,
    q: TestMatrixQuery,
) -> bool {
    let pg = matrix_page(q.page);
    let pp = matrix_per_page(q.per_page);
    let start = (pg - 1) * pp;
    let end = if start + pp <= kept.len() {
        start + pp
    } else {
        kept.len() as int
    };
    &&& p.page == pg
    &&& p.per_page == pp
    &&& p.sort_by@ == matrix_sort_by(q)
    &&& p.descending == matrix_descending(q)
    &&& p.total_requirements == kept.len()
    &&& p.total_pages == matrix_page_count(kept.len() as int, pp)
    &&& exists|ordered: Seq<MatrixRequirementRecord>|
        {
            &&& in_matrix_order(
                ordered,
                kept,
                matrix_sort_of(matrix_sort_by(q)),
                links,
                matrix_descending(q),
            )
            &&& p.rows@.len() == end - start
            &&& forall|i: int|
                0 <= i < end - start ==> {
                    &&& (#[trigger] p.rows@[i]).req_id == ordered[start + i].req.req_id
                    &&& p.rows@[i].req_title@ == ordered[start + i].req.req_title@
                    &&& p.rows@[i].req_reference@ == ordered[start + i].req.req_reference@
                    &&& p.rows@[i].matrix@ == row_cells(links, ordered[start + i].req.req_id, p.tests@)
                }
            &&& p.total_links == total_linked(
                plain_requirements(ordered.subrange(start, end)),
                p.tests@,
                links,
            )
        }
    &&& p.pagination.start_item == (if start + 1 <= kept.len() {
        start + 1
    } else {
        kept.len() as int
    })
    &&& p.pagination.end_item == (if pg * pp <= kept.len() {
        pg * pp
    } else {
        kept.len() as int
    })
    &&& p.pagination.has_prev_page == (pg > 1)
    &&& p.pagination.has_next_page == (pg < p.total_pages)
}

/// The page the query asks for of the rows `kept` over the columns `tests`;
/// `None` when it starts past the last row.
#[verifier::rlimit(30)]
fn matrix_page_of(
    kept: Vec<MatrixRequirementRecord>,
    shown_tests: Vec<MatrixTest>,
    links: &Vec<(i32, i32)>,
    q: &TestMatrixQuery,
) -> (r: Option<TestMatrixPage>)
    requires
        kept@.len() <= i64::MAX / 2,
        shown_tests@.len() * 200 <= usize::MAX,
    ensures
        (r is Some <==> (matrix_page(q.page) - 1) * matrix_per_page(q.per_page) <= kept@.len()),
        r matches Some(p) ==> p.tests@ == shown_tests@ && page_matches(p, kept@, links@, *q),
{
    let ghost kept_view = kept@;
    let requested_page: i64 = match q.page {
        Some(p) => p,
        None => 1,
    };
    let page: i64 = if requested_page < 1 {
        1
    } else {
        requested_page
    };
    let requested_size: i64 = match q.per_page {
        Some(p) => p,
        None => 50,
    };
    let per_page: i64 = if requested_size < 10 {
        10
    } else if requested_size > 200 {
        200
    } else {
        requested_size
    };
    let total_len: usize = kept.len();
    proof {
        assert(0 <= (page - 1) * per_page <= i64::MAX as int * 200) by (nonlinear_arith)
            requires
                1 <= page <= i64::MAX,
                10 <= per_page <= 200,
        ;
    }
    // the first row of the page, computed wide so that it cannot overflow
    let start_wide: i128 = (page as i128 - 1) * (per_page as i128);
    if start_wide > total_len as i128 {
        return None;
    }
    let start: usize = start_wide as usize;
    let sort_by = match &q.sort_by {
        Some(s) => s.clone(),
        None => String::from_str("req_id"),
    };
    let descending = match &q.sort_order {
        Some(o) => same_text(o.as_str(), "desc"),
        None => false,
    };
    let mode = matrix_sort_mode(sort_by.as_str());
    let ordered = sort_matrix_requirements(kept, mode, links, descending);
    let ghost ordered_view = ordered@;
    proof {
        lemma_matrix_order_len(ordered_view, kept_view, mode, links@, descending);
    }
    let end: usize = if (per_page as usize) <= total_len - start {
        start + (per_page as usize)
    } else {
        total_len
    };
    let page_rows = crate::routes::html::project::verifications::page_items(ordered, start, per_page as usize);
    let plain = into_plain(page_rows);
    proof {
        assert(plain@.len() * shown_tests@.len() <= usize::MAX) by (nonlinear_arith)
            requires
                plain@.len() <= 200,
                shown_tests@.len() * 200 <= usize::MAX,
        ;
    }
    let (rows, total_links) = build_matrix_rows(&plain, &shown_tests, links);
    let total_requirements: i64 = total_len as i64;
    let total_pages: i64 = (total_requirements + per_page - 1) / per_page;
    proof {
        assert(page * per_page <= i64::MAX) by (nonlinear_arith)
            requires
                (page - 1) * per_page <= total_requirements,
                total_requirements <= i64::MAX / 2,
                per_page <= 200,
        ;
    }
    let pagination = build_pagination_context(page, per_page, total_requirements, total_pages);
    let result = TestMatrixPage {
        rows,
        tests: shown_tests,
        total_requirements,
        total_links,
        total_pages,
        page,
        per_page,
        sort_by,
        descending,
        pagination,
    };
    proof {
        assert(plain@ == plain_requirements(ordered_view.subrange(start as int, end as int)));
        assert forall|i: int| 0 <= i < end - start implies {
            &&& (#[trigger] result.rows@[i]).req_id == ordered_view[start + i].req.req_id
            &&& result.rows@[i].req_title@ == ordered_view[start + i].req.req_title@
            &&& result.rows@[i].req_reference@ == ordered_view[start + i].req.req_reference@
            &&& result.rows@[i].matrix@ == row_cells(links@, ordered_view[start + i].req.req_id, result.tests@)
        } by {
            assert(plain@[i] == ordered_view[start + i].req);
        }
        assert(in_matrix_order(ordered_view, kept_view, matrix_sort_of(matrix_sort_by(*q)), links@, matrix_descending(*q)));
    }
    Some(result)
}

/// The test matrix of a project for a query: requirements filtered by
/// status, category, applicability and search, then by linkage to the
/// tests that pass the status filter; test columns ordered by id and
/// filtered by status; rows ordered as asked; then the page asked for (page
/// one and fifty rows by default, the size kept within 10..=200), its cells
/// and link count, and the pager. `None` when the page starts past the last
/// requirement (where slicing the rows would fail).
pub fn build_test_matrix(
    reqs: Vec<MatrixRequirementRecord>,
    tests: Vec<MatrixTest>,
    links: &Vec<(i32, i32)>,
    q: &TestMatrixQuery,
) -> (r: Option<TestMatrixPage>)
    requires
        reqs@.len() <= i64::MAX / 2,
        tests@.len() * 200 <= usize::MAX,
    ensures
        (r is Some <==> (matrix_page(q.page) - 1) * matrix_per_page(q.per_page) <= matrix_rows_kept(
            reqs@,
            tests@,
            links@,
            *q,
        ).len()),
        r matches Some(p) ==> page_matches(p, matrix_rows_kept(reqs@, tests@, links@, *q), links@, *q),
        r matches Some(p) ==> exists|sorted_tests: Seq<MatrixTest>|
            stably_sorted(sorted_tests, tests@, test_id_keys(tests@), false) && p.tests@ == masked(
                sorted_tests,
                test_status_mask(sorted_tests, q.test_status_filter),
            ),
{
    let search = match &q.search {
        Some(s) => Some(s.as_str()),
        None => None,
    };
    let linkage = match &q.linkage_filter {
        Some(s) => Some(s.as_str()),
        None => None,
    };
    let ghost input_tests = tests@;
    let ghost input_reqs = reqs@;
    let filtered = filter_matrix_requirements(
        reqs,
        q.req_status_filter,
        q.category_filter,
        q.applicability_filter,
        search,
    );
    let ghost filtered_view = filtered@;
    let kept = filter_by_linkage(filtered, &tests, q.test_status_filter, links, linkage);
    proof {
        crate::selection::lemma_masked_len(
            filtered_view,
            linkage_mask(filtered_view, input_tests, q.test_status_filter, links@, opt_string(q.linkage_filter)),
        );
        crate::selection::lemma_masked_len(
            input_reqs,
            req_filter_mask(input_reqs, q.req_status_filter, q.category_filter, q.applicability_filter, opt_string(q.search)),
        );
        assert(kept@ == matrix_rows_kept(input_reqs, input_tests, links@, *q));
    }
    let shown_tests = order_matrix_tests(tests, q.test_status_filter);
    let ghost shown_view = shown_tests@;
    proof {
        let st = choose|sorted: Seq<MatrixTest>|
            stably_sorted(sorted, input_tests, test_id_keys(input_tests), false) && shown_view == masked(
                sorted,
                test_status_mask(sorted, q.test_status_filter),
            );
        let order = choose|order: Seq<int>|
            #[trigger] crate::ordering::is_stable_order(order, test_id_keys(input_tests), false)
                && st == order.map_values(|i: int| input_tests[i]);
        crate::selection::lemma_masked_len(st, test_status_mask(st, q.test_status_filter));
    }
    matrix_page_of(kept, shown_tests, links, q)
}

/// The two linkage filters split the requirements: each one passes exactly
/// one of `linked` and `unlinked`.
pub proof fn lemma_linkage_filters_partition(linked: bool)
    ensures
        linkage_keeps(Some("linked"@), linked) != linkage_keeps(Some("unlinked"@), linked),
{
    reveal_strlit("linked");
    reveal_strlit("unlinked");
    assert("linked"@.len() != "unlinked"@.len());
}

/// The matrix search looks at the title, the reference and the id: a
/// requirement is a hit exactly when its lower-cased title or lower-cased
/// reference, or its id's decimal text, contains the lower-cased query.
pub proof fn lemma_matrix_search_fields(query: Seq<char>, r: MatrixRequirementRecord)
    ensures
        contains_text(unicode_lowercase(r.req.req_title@), unicode_lowercase(query)) ==> req_search_hit(query, r),
        contains_text(unicode_lowercase(r.req.req_reference@), unicode_lowercase(query)) ==> req_search_hit(
            query,
            r,
        ),
        contains_text(int_decimal(r.req.req_id as int), unicode_lowercase(query)) ==> req_search_hit(query, r),
        req_search_hit(query, r) ==> contains_text(unicode_lowercase(r.req.req_title@), unicode_lowercase(query))
            || contains_text(unicode_lowercase(r.req.req_reference@), unicode_lowercase(query))
            || contains_text(int_decimal(r.req.req_id as int), unicode_lowercase(query)),
{
}

/// With only the search set, the matrix keeps a requirement exactly when it
/// is a search hit (title, reference or id).
pub proof fn lemma_matrix_search_only(query: Seq<char>, r: MatrixRequirementRecord)
    ensures
        req_filter_keeps(r, None, None, None, Some(query)) == (contains_text(
            unicode_lowercase(r.req.req_title@),
            unicode_lowercase(query),
        ) || contains_text(unicode_lowercase(r.req.req_reference@), unicode_lowercase(query))
            || contains_text(int_decimal(r.req.req_id as int), unicode_lowercase(query))),
{
}

} // verus!
