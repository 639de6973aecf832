use vstd::prelude::*;

use crate::route_info::{route, route_view, route_views, Method, RouteInfo, RouteView};
use crate::text::same_text;

verus! {

/// The routes this module serves, in mounting order: method, path pattern
/// and handler name.
pub open spec fn route_table() -> Seq<RouteView> {
    seq![
        route_view(Method::Get, "/<project_id>/matrix?<sort_by>&<sort_order>&<test_status_filter>&<req_status_filter>&<category_filter>&<applicability_filter>&<page>&<per_page>&<search>"@, "get_matrix"@),
        route_view(Method::Get, "/<project_id>/matrix.xls"@, "get_matrix_xls"@),
        route_view(Method::Get, "/<project_id>/matrix.csv?<test_status_filter>"@, "get_matrix_csv"@),
    ]
}

/// The routes of this module, in the order they are mounted.
pub fn routes() -> (r: Vec<RouteInfo>)
    ensures
        route_views(r@) == route_table(),
{
    let mut r: Vec<RouteInfo> = Vec::new();
    r.push(route(Method::Get, "/<project_id>/matrix?<sort_by>&<sort_order>&<test_status_filter>&<req_status_filter>&<category_filter>&<applicability_filter>&<page>&<per_page>&<search>", "get_matrix"));
    r.push(route(Method::Get, "/<project_id>/matrix.xls", "get_matrix_xls"));
    r.push(route(Method::Get, "/<project_id>/matrix.csv?<test_status_filter>", "get_matrix_csv"));
    assert(route_views(r@) =~= route_table());
    r
}

/// The smaller of two integers.
pub open spec fn min_int(a: int, b: int) -> int {
    if a <= b {
        a
    } else {
        b
    }
}

/// The larger of two integers.
pub open spec fn max_int(a: int, b: int) -> int {
    if a >= b {
        a
    } else {
        b
    }
}

/// Page, page size and ordering of the traceability matrix, as read from
/// the query string.
pub struct MatrixPagination {
    pub page: i64,
    pub per_page: i64,
    pub sort_by: String,
    pub descending: bool,
}

/// The page asked for, or the first; never below one.
pub open spec fn matrix_page(page: Option<i64>) -> int {
    max_int(
        match page {
            Some(p) => p as int,
            None => 1,
        },
        1,
    )
}

/// The page size asked for, or fifty, kept between ten and two hundred.
pub open spec fn matrix_per_page(per_page: Option<i64>) -> int {
    let n: int = match per_page {
        Some(p) => p as int,
        None => 50,
    };
    if n < 10 {
        10
    } else if n > 200 {
        200
    } else {
        n
    }
}

/// The matrix query parameters with their defaults applied: page one, fifty
/// rows (clamped to 10..=200), ordered by `req_id`, descending only when the
/// order is exactly `desc`.
pub fn matrix_pagination(
    sort_by: Option<String>,
    sort_order: Option<String>,
    page: Option<i64>,
    per_page: Option<i64>,
) -> (p: MatrixPagination)
    ensures
        p.page == matrix_page(page),
        p.per_page == matrix_per_page(per_page),
        p.sort_by@ == (match sort_by {
            Some(s) => s@,
            None => "req_id"@,
        }),
        p.descending == (match sort_order {
            Some(o) => o@ == "desc"@,
            None => false,
        }),
{
    let sort_by_value = match sort_by {
        Some(s) => s,
        None => String::from_str("req_id"),
    };
    let descending = match &sort_order {
        Some(o) => same_text(o.as_str(), "desc"),
        None => false,
    };
    let requested_page: i64 = match page {
        Some(p) => p,
        None => 1,
    };
    let requested_size: i64 = match per_page {
        Some(p) => p,
        None => 50,
    };
    let page_value: i64 = if requested_page < 1 {
        1
    } else {
        requested_page
    };
    let size_value: i64 = if requested_size < 10 {
        10
    } else if requested_size > 200 {
        200
    } else {
        requested_size
    };
    MatrixPagination { page: page_value, per_page: size_value, sort_by: sort_by_value, descending }
}

/// The item range shown on one page and which navigation links to draw.
#[derive(Clone, Copy, Debug, PartialEq, Eq, Structural)]
pub struct PaginationContext {
    pub start_item: i64,
    pub end_item: i64,
    pub show_first_page: bool,
    pub show_last_page: bool,
    pub show_first_ellipsis: bool,
    pub show_last_ellipsis: bool,
    pub has_prev_page: bool,
    pub has_next_page: bool,
}

/// Navigation for `page` of `total_pages`, with `per_page` rows of
/// `total_items`: the first and last item shown (capped at the total), a link
/// to the first page beyond the second page and to the last before the last
/// but one, ellipses one page further out, and previous/next links.
pub fn build_pagination_context(page: i64, per_page: i64, total_items: i64, total_pages: i64) -> (c:
    PaginationContext)
    requires
        i64::MIN < page,
        i64::MIN <= (page - 1) * per_page < i64::MAX,
        i64::MIN <= page * per_page <= i64::MAX,
        i64::MIN + 2 <= total_pages,
    ensures
        c.start_item == min_int((page - 1) * per_page + 1, total_items as int),
        c.end_item == min_int(page * per_page, total_items as int),
        c.show_first_page == (page > 2),
        c.show_last_page == (page < total_pages - 1),
        c.show_first_ellipsis == (page > 3),
        c.show_last_ellipsis == (page < total_pages - 2),
        c.has_prev_page == (page > 1),
        c.has_next_page == (page < total_pages),
{
    let first: i64 = (page - 1) * per_page + 1;
    let last: i64 = page * per_page;
    PaginationContext {
        start_item: if first <= total_items {
            first
        } else {
            total_items
        },
        end_item: if last <= total_items {
            last
        } else {
            total_items
        },
        show_first_page: page > 2,
        show_last_page: page < total_pages - 1,
        show_first_ellipsis: page > 3,
        show_last_ellipsis: page < total_pages - 2,
        has_prev_page: page > 1,
        has_next_page: page < total_pages,
    }
}

/// On any page from the first on, with a positive page size and a total that
/// is not negative, the first item shown comes no later than the last, and
/// the last does not pass the total.
pub proof fn lemma_page_range_ordered(page: int, per_page: int, total_items: int)
    requires
        page >= 1,
        per_page >= 1,
        total_items >= 0,
    ensures
        min_int((page - 1) * per_page + 1, total_items) <= min_int(page * per_page, total_items)
            <= total_items,
{
    assert((page - 1) * per_page + 1 <= page * per_page) by (nonlinear_arith)
        requires
            per_page >= 1,
    ;
}

/// A requirement as the matrix lists it.
#[derive(Clone, Debug)]
pub struct MatrixRequirement {
    pub req_id: i32,
    pub req_title: String,
    pub req_reference: String,
}

/// A test (verification) column of the matrix.
#[derive(Clone, Debug)]
pub struct MatrixTest {
    pub test_id: i32,
    pub test_name: String,
    pub test_reference: String,
    pub test_status: i32,
}

/// One cell: whether the row's requirement is linked to the column's test,
/// and that test's status.
#[derive(Clone, Copy, Debug, PartialEq, Eq, Structural)]
pub struct MatrixCell {
    pub linked: bool,
    pub test_status: i32,
}

/// One row: the requirement and one cell per test, in column order.
#[derive(Clone, Debug)]
pub struct MatrixRow {
    pub req_id: i32,
    pub req_title: String,
    pub req_reference: String,
    pub matrix: Vec<MatrixCell>,
}

/// The cell of requirement `req_id` under test `t`.
pub open spec fn cell_of(links: Seq<(i32, i32)>, req_id: i32, t: MatrixTest) -> MatrixCell {
    MatrixCell { linked: links.contains((req_id, t.test_id)), test_status: t.test_status }
}

/// The cells of requirement `req_id`, one per test.
pub open spec fn row_cells(links: Seq<(i32, i32)>, req_id: i32, tests: Seq<MatrixTest>) -> Seq<MatrixCell> {
    tests.map_values(|t: MatrixTest| cell_of(links, req_id, t))
}

/// How many of `tests` are linked to requirement `req_id`.
pub open spec fn linked_in_row(links: Seq<(i32, i32)>, req_id: i32, tests: Seq<MatrixTest>) -> nat
    decreases tests.len(),
{
    if tests.len() == 0 {
        0
    } else {
        linked_in_row(links, req_id, tests.drop_last()) + if links.contains(
            (req_id, tests.last().test_id),
        ) {
            1nat
        } else {
            0nat
        }
    }
}

/// How many (requirement, test) cells of the matrix are linked.
pub open spec fn total_linked(reqs: Seq<MatrixRequirement>, tests: Seq<MatrixTest>, links: Seq<(i32, i32)>) -> nat
    decreases reqs.len(),
{
    if reqs.len() == 0 {
        0
    } else {
        total_linked(reqs.drop_last(), tests, links) + linked_in_row(links, reqs.last().req_id, tests)
    }
}

proof fn lemma_linked_in_row_bound(links: Seq<(i32, i32)>, req_id: i32, tests: Seq<MatrixTest>)
    ensures
        linked_in_row(links, req_id, tests) <= tests.len(),
    decreases tests.len(),
{
    if tests.len() > 0 {
        lemma_linked_in_row_bound(links, req_id, tests.drop_last());
    }
}

proof fn lemma_total_linked_bound(reqs: Seq<MatrixRequirement>, tests: Seq<MatrixTest>, links: Seq<(i32, i32)>)
    ensures
        total_linked(reqs, tests, links) <= reqs.len() * tests.len(),
    decreases reqs.len(),
{
    if reqs.len() > 0 {
        lemma_total_linked_bound(reqs.drop_last(), tests, links);
        lemma_linked_in_row_bound(links, reqs.last().req_id, tests);
        assert((reqs.len() - 1) * tests.len() + tests.len() == reqs.len() * tests.len()) by (nonlinear_arith);
    }
}

/// Whether the pair `(req_id, test_id)` is among `links`.
pub fn has_link(links: &Vec<(i32, i32)>, req_id: i32, test_id: i32) -> (r: bool)
    ensures
        r == links@.contains((req_id, test_id)),
{
    let mut k: usize = 0;
    while k < links.len()
        invariant
            k <= links@.len(),
            forall|j: int| 0 <= j < k ==> links@[j] != (req_id, test_id),
        decreases links.len() - k,
    {
        let (a, b) = links[k];
        if a == req_id && b == test_id {
            assert(links@[k as int] == (req_id, test_id));
            return true;
        }
        k = k + 1;
    }
    false
}

/// The cells of one requirement's row and how many of them are linked.
fn row_for(links: &Vec<(i32, i32)>, req_id: i32, tests: &Vec<MatrixTest>) -> (r: (Vec<MatrixCell>, usize))
    ensures
        r.0@ == row_cells(links@, req_id, tests@),
        r.1 == linked_in_row(links@, req_id, tests@),
{
    let mut cells: Vec<MatrixCell> = Vec::new();
    let mut count: usize = 0;
    let mut j: usize = 0;
    while j < tests.len()
        invariant
            j <= tests@.len(),
            cells@ == row_cells(links@, req_id, tests@.take(j as int)),
            count == linked_in_row(links@, req_id, tests@.take(j as int)),
            count <= j,
        decreases tests.len() - j,
    {
        let t = &tests[j];
        let linked = has_link(links, req_id, t.test_id);
        cells.push(MatrixCell { linked, test_status: t.test_status });
        if linked {
            count = count + 1;
        }
        j = j + 1;
        assert(tests@.take(j as int).drop_last() =~= tests@.take(j - 1));
        assert(row_cells(links@, req_id, tests@.take(j as int)) =~= row_cells(links@, req_id, tests@.take(j - 1)).push(cell_of(links@, req_id, tests@[j - 1])));
    }
    assert(tests@.take(j as int) =~= tests@);
    (cells, count)
}

/// The matrix: one row per requirement, one cell per test in each row, a
/// cell marked linked exactly when the pair is in `links`; and the number of
/// linked cells.
pub fn build_matrix_rows(reqs: &Vec<MatrixRequirement>, tests: &Vec<MatrixTest>, links: &Vec<(i32, i32)>) -> (r: (
    Vec<MatrixRow>,
    usize,
))
    requires
        reqs@.len() * tests@.len() <= usize::MAX,
    ensures
        r.0@.len() == reqs@.len(),
        forall|i: int|
            0 <= i < reqs@.len() ==> {
                &&& (#[trigger] r.0@[i]).req_id == reqs@[i].req_id
                &&& r.0@[i].req_title@ == reqs@[i].req_title@
                &&& r.0@[i].req_reference@ == reqs@[i].req_reference@
                &&& r.0@[i].matrix@ == row_cells(links@, reqs@[i].req_id, tests@)
            },
        r.1 == total_linked(reqs@, tests@, links@),
{
    let mut rows: Vec<MatrixRow> = Vec::new();
    let mut total: usize = 0;
    let mut i: usize = 0;
    while i < reqs.len()
        invariant
            i <= reqs@.len(),
            reqs@.len() * tests@.len() <= usize::MAX,
            rows@.len() == i,
            forall|k: int|
                0 <= k < i ==> {
                    &&& (#[trigger] rows@[k]).req_id == reqs@[k].req_id
                    &&& rows@[k].req_title@ == reqs@[k].req_title@
                    &&& rows@[k].req_reference@ == reqs@[k].req_reference@
                    &&& rows@[k].matrix@ == row_cells(links@, reqs@[k].req_id, tests@)
                },
            total == total_linked(reqs@.take(i as int), tests@, links@),
        decreases reqs.len() - i,
    {
        let req = &reqs[i];
        let (cells, count) = row_for(links, req.req_id, tests);
        proof {
            assert(reqs@.take(i + 1).drop_last() =~= reqs@.take(i as int));
            lemma_total_linked_bound(reqs@.take(i + 1), tests@, links@);
            assert((i + 1) * tests@.len() <= reqs@.len() * tests@.len()) by (nonlinear_arith)
                requires
                    i + 1 <= reqs@.len(),
            ;
        }
        total = total + count;
        rows.push(
            MatrixRow {
                req_id: req.req_id,
                req_title: req.req_title.clone(),
                req_reference: req.req_reference.clone(),
                matrix: cells,
            },
        );
        i = i + 1;
    }
    assert(reqs@.take(i as int) =~= reqs@);
    (rows, total)
}

} // verus!
