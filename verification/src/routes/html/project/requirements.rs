use vstd::prelude::*;

use crate::external::{
    format_utc_timestamp, regex_escape, regex_escaped, regex_is_match, regex_search, url_encode,
    url_encoded, utc_datetime_text,
};
use crate::models::{Membership, RepoError, Status, TestStatusKind};
use crate::ordering::{key_views, stable_sort_by_keys, stably_sorted};
use crate::selection::{masked, positions, retain_by_mask, selected_positions};
use crate::route_info::{route, route_view, route_views, Method, RouteInfo, RouteView};
use crate::text::{
    ascii_lowercase, concat, eq_ignore_ascii_case, has_prefix, int_decimal, is_blank, join, joined,
    nat_decimal, trim, push_decimal, push_int, push_str, push_zero_padded, same_text, starts_with, trimmed,
    zero_padded,
};

verus! {

/// The routes this module serves, in mounting order: method, path pattern
/// and handler name.
pub open spec fn route_table() -> Seq<RouteView> {
    seq![
        route_view(Method::Get, "/<project_id>/requirements?<status_filter>&<verification_filter>&<category_filter>&<applicability_filter>&<approval_filter>&<custom_filters>&<view>&<page>"@, "show_requirements"@),
        route_view(Method::Get, "/<project_id>/requirements/show/<requirement_id>"@, "show_requirement_id"@),
        route_view(Method::Get, "/<project_id>/requirements/show/<requirement_id>/version/<version_id>"@, "show_requirement_version"@),
        route_view(Method::Get, "/<project_id>/requirements/edit/<requirement_id>"@, "get_edit_requirement"@),
        route_view(Method::Post, "/<project_id>/requirements/edit/<requirement_id>"@, "post_edit_requirement"@),
        route_view(Method::Delete, "/<project_id>/requirements/delete/<requirement_id>"@, "delete_requirement_route"@),
        route_view(Method::Get, "/<project_id>/requirements/new?<error>&<created>&<parent>&<template>"@, "new_requirement"@),
        route_view(Method::Post, "/<project_id>/requirements/new"@, "post_requirement"@),
        route_view(Method::Get, "/<project_id>/requirements/tree"@, "show_requirements_tree"@),
        route_view(Method::Post, "/<project_id>/requirements/inline/category"@, "create_category_inline"@),
        route_view(Method::Post, "/<project_id>/requirements/inline/applicability"@, "create_applicability_inline"@),
        route_view(Method::Post, "/<project_id>/requirements/inline/verification"@, "create_verification_inline"@),
    ]
}

/// The routes of this module, in the order they are mounted.
pub fn routes() -> (r: Vec<RouteInfo>)
    ensures
        route_views(r@) == route_table(),
{
    let mut r: Vec<RouteInfo> = Vec::new();
    r.push(route(Method::Get, "/<project_id>/requirements?<status_filter>&<verification_filter>&<category_filter>&<applicability_filter>&<approval_filter>&<custom_filters>&<view>&<page>", "show_requirements"));
    r.push(route(Method::Get, "/<project_id>/requirements/show/<requirement_id>", "show_requirement_id"));
    r.push(route(Method::Get, "/<project_id>/requirements/show/<requirement_id>/version/<version_id>", "show_requirement_version"));
    r.push(route(Method::Get, "/<project_id>/requirements/edit/<requirement_id>", "get_edit_requirement"));
    r.push(route(Method::Post, "/<project_id>/requirements/edit/<requirement_id>", "post_edit_requirement"));
    r.push(route(Method::Delete, "/<project_id>/requirements/delete/<requirement_id>", "delete_requirement_route"));
    r.push(route(Method::Get, "/<project_id>/requirements/new?<error>&<created>&<parent>&<template>", "new_requirement"));
    r.push(route(Method::Post, "/<project_id>/requirements/new", "post_requirement"));
    r.push(route(Method::Get, "/<project_id>/requirements/tree", "show_requirements_tree"));
    r.push(route(Method::Post, "/<project_id>/requirements/inline/category", "create_category_inline"));
    r.push(route(Method::Post, "/<project_id>/requirements/inline/applicability", "create_applicability_inline"));
    r.push(route(Method::Post, "/<project_id>/requirements/inline/verification", "create_verification_inline"));
    assert(route_views(r@) =~= route_table());
    r
}

/// Requirements shown on one page of the list.
pub const REQUIREMENTS_PER_PAGE: i64 = 25;

/// Which page of the requirement list is shown, out of how many, and where
/// it starts.
#[derive(Clone, Copy, Debug, PartialEq, Eq, Structural)]
pub struct RequirementsPage {
    pub current_page: u32,
    pub total_pages: u64,
    pub total_count: u64,
    pub offset: i64,
}

/// Pages needed for `total_count` requirements: one page even when there
/// are none.
pub open spec fn requirement_page_count(total_count: int) -> int {
    if total_count <= 0 {
        1
    } else {
        (total_count + REQUIREMENTS_PER_PAGE - 1) / REQUIREMENTS_PER_PAGE as int
    }
}

/// The page that is shown when `page` is asked for: the first by default,
/// never below one, never past the last page (counted within `u32`).
pub open spec fn shown_requirement_page(page: Option<u32>, total_pages: int) -> int {
    let asked: int = match page {
        Some(p) => if p < 1 {
            1
        } else {
            p as int
        },
        None => 1,
    };
    let last: int = if total_pages > u32::MAX {
        u32::MAX as int
    } else {
        total_pages
    };
    if asked <= last {
        asked
    } else {
        last
    }
}

/// The page window of the requirement list for a requested page and the
/// number of matching requirements (a negative count counts as none).
pub fn requirements_page(page: Option<u32>, total: i64) -> (p: RequirementsPage)
    ensures
        p.total_count == (if total < 0 {
            0
        } else {
            total as int
        }),
        p.total_pages == requirement_page_count(p.total_count as int),
        p.current_page == shown_requirement_page(page, p.total_pages as int),
        p.offset == (p.current_page - 1) * REQUIREMENTS_PER_PAGE,
{
    let total_count: u64 = if total < 0 {
        0
    } else {
        total as u64
    };
    let per_page: u64 = 25;
    let total_pages: u64 = if total_count == 0 {
        1
    } else {
        (total_count + per_page - 1) / per_page
    };
    let last: u32 = if total_pages > 4294967295u64 {
        4294967295u32
    } else {
        total_pages as u32
    };
    let asked: u32 = match page {
        Some(n) => if n < 1 {
            1
        } else {
            n
        },
        None => 1,
    };
    let current_page: u32 = if asked <= last {
        asked
    } else {
        last
    };
    let offset: i64 = ((current_page as u64 - 1) * per_page) as i64;
    RequirementsPage { current_page, total_pages, total_count, offset }
}

/// The page shown lies between the first and the last page, and when there
/// are requirements it starts before their end: a page is never empty for
/// want of items ahead of it.
pub proof fn lemma_requirements_page_in_range(page: Option<u32>, total: i64)
    ensures
        ({
            let count: int = if total < 0 {
                0
            } else {
                total as int
            };
            let pages = requirement_page_count(count);
            let current = shown_requirement_page(page, pages);
            &&& 1 <= current <= pages
            &&& (count > 0 ==> (current - 1) * REQUIREMENTS_PER_PAGE < count)
        }),
{
    let count: int = if total < 0 {
        0
    } else {
        total as int
    };
    let pages = requirement_page_count(count);
    let current = shown_requirement_page(page, pages);
    if count > 0 {
        assert(pages >= 1) by (nonlinear_arith)
            requires
                count > 0,
                pages == (count + 24) / 25,
        ;
        assert((current - 1) * 25 < count) by (nonlinear_arith)
            requires
                count > 0,
                pages == (count + 24) / 25,
                1 <= current <= pages,
        ;
    }
}

/// One link of the page list.
#[derive(Clone, Copy, Debug, PartialEq, Eq, Structural)]
pub struct PageNumber {
    pub num: u32,
    pub is_current: bool,
}

/// What the list template needs to draw its pager.
#[derive(Clone, Debug)]
pub struct PaginationCtx {
    pub current_page: u32,
    pub total_pages: u64,
    pub total_count: u64,
    pub per_page: u64,
    pub query: String,
    pub start: u64,
    pub end: u64,
    pub has_prev: bool,
    pub has_next: bool,
    pub prev_page: u32,
    pub next_page: u32,
    pub page_numbers: Vec<PageNumber>,
}

/// Pages listed around the current one: up to four on each side.
pub open spec fn page_window(lo: int, hi: int, current: int) -> Seq<PageNumber> {
    Seq::new(
        if hi >= lo {
            (hi - lo + 1) as nat
        } else {
            0
        },
        |i: int| PageNumber { num: (lo + i) as u32, is_current: lo + i == current },
    )
}

/// First page of the window around `current`.
pub open spec fn window_low(current: int) -> int {
    if current - 4 < 1 {
        1
    } else {
        current - 4
    }
}

/// Last page of the window around `current`.
pub open spec fn window_high(current: int, total_pages: u64) -> int {
    if current + 4 <= (total_pages as u32) {
        current + 4
    } else {
        (total_pages as u32) as int
    }
}

/// The first item shown on `current_page` (numbered from one), or zero when
/// there is nothing to show.
pub open spec fn first_shown(current_page: int, per_page: u64, total_count: int) -> int {
    if total_count == 0 {
        0
    } else {
        (current_page - 1) * ((per_page as u32) as int) + 1
    }
}

/// Pager context: first and last item shown, previous/next links and the
/// page numbers from four before to four after the current page.
pub fn build_pagination_ctx(
    current_page: u32,
    total_pages: u64,
    total_count: u64,
    per_page: u64,
    query: &str,
) -> (c: PaginationCtx)
    requires
        total_count != 0 ==> current_page >= 1 && (current_page - 1) * ((per_page as u32) as int)
            <= u32::MAX,
        1 <= first_shown(current_page as int, per_page, total_count as int) + per_page <= u64::MAX,
        current_page + 4 <= u32::MAX,
    ensures
        c.current_page == current_page,
        c.total_pages == total_pages,
        c.total_count == total_count,
        c.per_page == per_page,
        c.query@ == query@,
        c.start == first_shown(current_page as int, per_page, total_count as int),
        c.end == (if c.start + per_page - 1 <= total_count {
            c.start + per_page - 1
        } else {
            total_count as int
        }),
        c.has_prev == (current_page > 1),
        c.has_next == (current_page < (total_pages as u32)),
        c.prev_page == (if current_page <= 2 {
            1
        } else {
            current_page - 1
        }),
        c.next_page == (if current_page + 1 <= (total_pages as u32) {
            current_page + 1
        } else if (total_pages as u32) >= 1 {
            (total_pages as u32) as int
        } else {
            1
        }),
        c.page_numbers@ == page_window(
            window_low(current_page as int),
            window_high(current_page as int, total_pages),
            current_page as int,
        ),
{
    let per_page_u32: u32 = #[verifier::truncate] (per_page as u32);
    let start: u64 = if total_count == 0 {
        0
    } else {
        ((current_page - 1) * per_page_u32) as u64 + 1
    };
    let last: u64 = start + per_page - 1;
    let end: u64 = if last <= total_count {
        last
    } else {
        total_count
    };
    let total_pages_u: u32 = #[verifier::truncate] (total_pages as u32);
    let has_prev = current_page > 1;
    let has_next = current_page < total_pages_u;
    let prev_page: u32 = if current_page <= 2 {
        1
    } else {
        current_page - 1
    };
    let next_page: u32 = if current_page + 1 <= total_pages_u {
        current_page + 1
    } else if total_pages_u >= 1 {
        total_pages_u
    } else {
        1
    };
    let lo: u32 = if current_page < 5 {
        1
    } else {
        current_page - 4
    };
    let hi: u32 = if current_page + 4 <= total_pages_u {
        current_page + 4
    } else {
        total_pages_u
    };
    let ghost window = page_window(lo as int, hi as int, current_page as int);
    let mut page_numbers: Vec<PageNumber> = Vec::new();
    if lo <= hi {
        let mut n: u64 = lo as u64;
        while n <= hi as u64
            invariant
                lo <= n <= hi + 1,
                page_numbers@ == window.take(n - lo),
                window == page_window(lo as int, hi as int, current_page as int),
            decreases hi + 1 - n,
        {
            let num: u32 = n as u32;
            page_numbers.push(PageNumber { num, is_current: num == current_page });
            n = n + 1;
            assert(page_numbers@ =~= window.take(n - lo));
        }
        assert(window.take(n - lo) =~= window);
    } else {
        assert(page_numbers@ =~= window);
    }
    PaginationCtx {
        current_page,
        total_pages,
        total_count,
        per_page,
        query: String::from_str(query),
        start,
        end,
        has_prev,
        has_next,
        prev_page,
        next_page,
        page_numbers,
    }
}

/// When the current page is a real page, the pager lists it, marked as the
/// current one, and only pages within four of it and within the page count.
pub proof fn lemma_window_shows_current(current_page: u32, total_pages: u64)
    requires
        1 <= current_page <= (total_pages as u32),
        current_page + 4 <= u32::MAX,
    ensures
        ({
            let w = page_window(
                window_low(current_page as int),
                window_high(current_page as int, total_pages),
                current_page as int,
            );
            &&& exists|i: int| 0 <= i < w.len() && (#[trigger] w[i]).num == current_page && w[i].is_current
            &&& forall|i: int|
                0 <= i < w.len() ==> {
                    &&& current_page - 4 <= (#[trigger] w[i]).num <= current_page + 4
                    &&& 1 <= w[i].num <= (total_pages as u32)
                    &&& (w[i].is_current <==> w[i].num == current_page)
                }
        }),
{
    let lo = window_low(current_page as int);
    let w = page_window(lo, window_high(current_page as int, total_pages), current_page as int);
    let i = current_page - lo;
    assert(w[i].num == current_page);
}

/// `name=value` for a text parameter that is present and not empty.
pub open spec fn text_param(name: Seq<char>, value: Option<Seq<char>>) -> Seq<Seq<char>> {
    match value {
        Some(v) => if v.len() > 0 {
            seq![name + "="@ + v]
        } else {
            Seq::empty()
        },
        None => Seq::empty(),
    }
}

/// `name=value` with the value percent-encoded, for a text parameter that
/// is present and not empty.
pub open spec fn encoded_param(name: Seq<char>, value: Option<Seq<char>>) -> Seq<Seq<char>> {
    match value {
        Some(v) => if v.len() > 0 {
            seq![name + "="@ + url_encoded(v)]
        } else {
            Seq::empty()
        },
        None => Seq::empty(),
    }
}

/// `name=value` for a numeric parameter that is present.
pub open spec fn int_param(name: Seq<char>, value: Option<i32>) -> Seq<Seq<char>> {
    match value {
        Some(v) => seq![name + "="@ + int_decimal(v as int)],
        None => Seq::empty(),
    }
}

/// The view of an optional string slice.
pub open spec fn opt_str(o: Option<&str>) -> Option<Seq<char>> {
    match o {
        Some(s) => Some(s@),
        None => None,
    }
}

/// The query-string parts of the requirement list, in order: view, the
/// four id filters, the approval filter and the percent-encoded custom
/// filters; absent and empty values are left out.
pub open spec fn requirements_query_parts(
    view: Option<Seq<char>>,
    status_filter: Option<i32>,
    verification_filter: Option<i32>,
    category_filter: Option<i32>,
    applicability_filter: Option<i32>,
    approval_filter: Option<Seq<char>>,
    custom_filters: Option<Seq<char>>,
) -> Seq<Seq<char>> {
    text_param("view"@, view) + int_param("status_filter"@, status_filter) + int_param(
        "verification_filter"@,
        verification_filter,
    ) + int_param("category_filter"@, category_filter) + int_param(
        "applicability_filter"@,
        applicability_filter,
    ) + text_param("approval_filter"@, approval_filter) + encoded_param("custom_filters"@, custom_filters)
}

/// Adds `name=value` to `parts` for a present, non-empty value.
pub fn push_text_param(parts: &mut Vec<String>, name: &str, value: Option<&str>)
    ensures
        final(parts)@.map_values(|p: String| p@) == old(parts)@.map_values(|p: String| p@) + text_param(
            name@,
            opt_str(value),
        ),
{
    if let Some(v) = value {
        if !v.is_empty() {
            let mut part = concat(name, "=");
            push_str(&mut part, v);
            parts.push(part);
        }
    }
    assert(final(parts)@.map_values(|p: String| p@) =~= old(parts)@.map_values(|p: String| p@) + text_param(name@, opt_str(value)));
}

/// Adds `name=value` to `parts` for a present number.
pub fn push_int_param(parts: &mut Vec<String>, name: &str, value: Option<i32>)
    ensures
        final(parts)@.map_values(|p: String| p@) == old(parts)@.map_values(|p: String| p@) + int_param(
            name@,
            value,
        ),
{
    if let Some(v) = value {
        let mut part = concat(name, "=");
        push_int(&mut part, v as i64);
        parts.push(part);
    }
    assert(final(parts)@.map_values(|p: String| p@) =~= old(parts)@.map_values(|p: String| p@) + int_param(name@, value));
}

/// The query string of the requirement list for the current view and
/// filters, without the page: the parts of `requirements_query_parts`
/// joined with `&`.
pub fn build_requirements_query(
    view: Option<&str>,
    status_filter: Option<i32>,
    verification_filter: Option<i32>,
    category_filter: Option<i32>,
    applicability_filter: Option<i32>,
    approval_filter: Option<&str>,
    custom_filters: Option<&str>,
) -> (q: String)
    ensures
        q@ == joined(
            requirements_query_parts(
                opt_str(view),
                status_filter,
                verification_filter,
                category_filter,
                applicability_filter,
                opt_str(approval_filter),
                opt_str(custom_filters),
            ),
            "&"@,
        ),
{
    let mut parts: Vec<String> = Vec::new();
    push_text_param(&mut parts, "view", view);
    push_int_param(&mut parts, "status_filter", status_filter);
    push_int_param(&mut parts, "verification_filter", verification_filter);
    push_int_param(&mut parts, "category_filter", category_filter);
    push_int_param(&mut parts, "applicability_filter", applicability_filter);
    push_text_param(&mut parts, "approval_filter", approval_filter);
    let ghost before = parts@.map_values(|p: String| p@);
    if let Some(cf) = custom_filters {
        if !cf.is_empty() {
            let encoded = url_encode(cf);
            let mut part = concat("custom_filters", "=");
            push_str(&mut part, encoded.as_str());
            parts.push(part);
        }
    }
    assert(parts@.map_values(|p: String| p@) =~= before + encoded_param("custom_filters"@, opt_str(custom_filters)));
    join(&parts, "&")
}

/// `/p/<project_id>/requirements`, the requirement list of a project.
pub open spec fn requirements_list_path_text(project_id: i32) -> Seq<char> {
    "/p/"@ + int_decimal(project_id as int) + "/requirements"@
}

/// The path of a project's requirement list.
pub fn requirements_list_path(project_id: i32) -> (r: String)
    ensures
        r@ == requirements_list_path_text(project_id),
{
    let mut r = String::from_str("/p/");
    push_int(&mut r, project_id as i64);
    push_str(&mut r, "/requirements");
    r
}

/// `<prefix>/<project_id>/requirements/show/<requirement_id>`.
pub open spec fn requirement_path_text(prefix: Seq<char>, project_id: i32, requirement_id: i32) -> Seq<char> {
    prefix + "/"@ + int_decimal(project_id as int) + "/requirements/show/"@ + int_decimal(
        requirement_id as int,
    )
}

/// The path of one requirement's page, under `prefix`.
pub fn requirement_path(prefix: &str, project_id: i32, requirement_id: i32) -> (r: String)
    ensures
        r@ == requirement_path_text(prefix@, project_id, requirement_id),
{
    let mut r = concat(prefix, "/");
    push_int(&mut r, project_id as i64);
    push_str(&mut r, "/requirements/show/");
    push_int(&mut r, requirement_id as i64);
    r
}

/// A requirement reached under another project's path sends the user to the
/// requirement list of the project it belongs to; otherwise nothing.
pub fn enforce_project_ownership(route_project_id: i32, resource_project_id: i32) -> (r: Option<String>)
    ensures
        r matches Some(p) ==> p@ == requirements_list_path_text(resource_project_id),
        r is None <==> route_project_id == resource_project_id,
{
    if resource_project_id != route_project_id {
        Some(requirements_list_path(resource_project_id))
    } else {
        None
    }
}

/// Where the page of one version of a requirement redirects instead of
/// showing it: to the requirement itself when the version belongs to another
/// requirement, to the owning project's list when the requirement belongs to
/// another project; `None` when the version can be shown.
pub fn version_page_redirect(
    project_id: i32,
    requirement_id: i32,
    version_requirement_id: i32,
    requirement_project_id: i32,
) -> (r: Option<String>)
    ensures
        version_requirement_id != requirement_id ==> (r matches Some(p) && p@ == requirement_path_text(
            ""@,
            project_id,
            requirement_id,
        )),
        version_requirement_id == requirement_id ==> (r matches Some(p) ==> p@
            == requirements_list_path_text(requirement_project_id)),
        version_requirement_id == requirement_id ==> (r is None <==> project_id
            == requirement_project_id),
{
    if version_requirement_id != requirement_id {
        return Some(requirement_path("", project_id, requirement_id));
    }
    enforce_project_ownership(project_id, requirement_project_id)
}

/// A requirement as the list and tree pages arrange it: its id, its approval
/// state and the ids of its parents.
#[derive(Debug)]
pub struct ListedRequirement {
    pub id: i32,
    pub approval_state: String,
    pub parent_ids: Vec<i32>,
}

/// The parents of a requirement that records at most one: none when the
/// parent is absent or zero.
pub fn parent_ids_of(parent_id: Option<i32>) -> (r: Vec<i32>)
    ensures
        r@ == (match parent_id {
            Some(p) => if p == 0 {
                Seq::<i32>::empty()
            } else {
                seq![p]
            },
            None => Seq::<i32>::empty(),
        }),
{
    let mut r: Vec<i32> = Vec::new();
    if let Some(p) = parent_id {
        if p != 0 {
            r.push(p);
        }
    }
    proof {
        if let Some(p) = parent_id {
            if p != 0 {
                assert(r@ =~= seq![p]);
            }
        }
    }
    r
}

/// Whether the approval filter keeps a requirement in the given state:
/// `approved` keeps approved ones, `not_approved` the others, both compared
/// without regard to ASCII case; any other filter, or none, keeps all.
pub open spec fn approval_keeps(filter: Option<Seq<char>>, state: Seq<char>) -> bool {
    match filter {
        Some(f) => if ascii_lowercase(f) == ascii_lowercase("approved"@) {
            ascii_lowercase(state) == ascii_lowercase("approved"@)
        } else if ascii_lowercase(f) == ascii_lowercase("not_approved"@) {
            ascii_lowercase(state) != ascii_lowercase("approved"@)
        } else {
            true
        },
        None => true,
    }
}

/// The approval filter's verdict on each requirement.
pub open spec fn approval_mask(items: Seq<ListedRequirement>, filter: Option<Seq<char>>) -> Seq<bool> {
    items.map_values(|r: ListedRequirement| approval_keeps(filter, r.approval_state@))
}

fn approval_keeps_exec(filter: Option<&str>, state: &str) -> (r: bool)
    ensures
        r == approval_keeps(opt_str(filter), state@),
{
    match filter {
        Some(f) => {
            if eq_ignore_ascii_case(f, "approved") {
                eq_ignore_ascii_case(state, "approved")
            } else if eq_ignore_ascii_case(f, "not_approved") {
                !eq_ignore_ascii_case(state, "approved")
            } else {
                true
            }
        },
        None => true,
    }
}

/// The requirements that pass the approval filter, in their order.
pub fn filter_by_approval(items: Vec<ListedRequirement>, filter: Option<&str>) -> (r: Vec<ListedRequirement>)
    ensures
        r@ == masked(items@, approval_mask(items@, opt_str(filter))),
{
    let mut keep: Vec<bool> = Vec::new();
    let mut i: usize = 0;
    while i < items.len()
        invariant
            i <= items@.len(),
            keep@ == approval_mask(items@, opt_str(filter)).take(i as int),
        decreases items.len() - i,
    {
        keep.push(approval_keeps_exec(filter, items[i].approval_state.as_str()));
        i = i + 1;
        assert(keep@ =~= approval_mask(items@, opt_str(filter)).take(i as int));
    }
    assert(approval_mask(items@, opt_str(filter)).take(i as int) =~= approval_mask(items@, opt_str(filter)));
    retain_by_mask(items, &keep)
}

/// The sort key of a requirement: its id.
pub open spec fn id_keys(items: Seq<ListedRequirement>, idx: Seq<usize>) -> Seq<Seq<i64>> {
    idx.map_values(|i: usize| seq![items[i as int].id as i64])
}

/// Which requirements are roots of the tree: those without parents.
pub open spec fn root_mask(items: Seq<ListedRequirement>) -> Seq<bool> {
    items.map_values(|r: ListedRequirement| r.parent_ids@.len() == 0)
}

/// Which requirements hang under `parent_id`: those that list it as a
/// parent (a requirement with several parents hangs under each).
pub open spec fn child_mask(items: Seq<ListedRequirement>, parent_id: i32) -> Seq<bool> {
    items.map_values(|r: ListedRequirement| r.parent_ids@.contains(parent_id))
}

fn sort_positions_by_id(items: &Vec<ListedRequirement>, idx: Vec<usize>) -> (r: Vec<usize>)
    requires
        forall|k: int| 0 <= k < idx@.len() ==> idx@[k] < items@.len(),
    ensures
        stably_sorted(r@, idx@, id_keys(items@, idx@), false),
{
    let mut keys: Vec<Vec<i64>> = Vec::new();
    let mut k: usize = 0;
    while k < idx.len()
        invariant
            k <= idx@.len(),
            forall|j: int| 0 <= j < idx@.len() ==> idx@[j] < items@.len(),
            keys@.len() == k,
            key_views(keys@) == id_keys(items@, idx@).take(k as int),
        decreases idx.len() - k,
    {
        let id: i64 = items[idx[k]].id as i64;
        let key = vec![id];
        assert(key@ =~= seq![id]);
        let ghost before = keys@;
        keys.push(key);
        k = k + 1;
        proof {
            assert forall|j: int| 0 <= j < k implies #[trigger] key_views(keys@)[j] == id_keys(items@, idx@)[j] by {
                if j < k - 1 {
                    assert(keys@[j] == before[j]);
                    assert(key_views(before)[j] == before[j]@);
                    assert(id_keys(items@, idx@).take(k - 1)[j] == id_keys(items@, idx@)[j]);
                }
            }
            assert(key_views(keys@) =~= id_keys(items@, idx@).take(k as int));
        }
    }
    assert(id_keys(items@, idx@).take(k as int) =~= id_keys(items@, idx@));
    stable_sort_by_keys(idx, keys, false)
}

/// The positions a mask selects lie below its length.
pub proof fn lemma_selected_in_range(keep: Seq<bool>)
    ensures
        forall|k: int|
            0 <= k < masked(positions(keep.len()), keep).len() ==> #[trigger] masked(
                positions(keep.len()),
                keep,
            )[k] < keep.len(),
{
    assert forall|k: int| 0 <= k < masked(positions(keep.len()), keep).len() implies #[trigger] masked(positions(keep.len()), keep)[k] < keep.len() by {
        let x = masked(positions(keep.len()), keep)[k];
        crate::selection::lemma_masked_members(positions(keep.len()), keep, x);
    }
}

/// A stable ordering of positions below `n` holds only positions below `n`.
pub proof fn lemma_stable_positions_in_range(r: Seq<usize>, idx: Seq<usize>, keys: Seq<Seq<i64>>, n: nat)
    requires
        stably_sorted(r, idx, keys, false),
        keys.len() == idx.len(),
        forall|k: int| 0 <= k < idx.len() ==> idx[k] < n,
    ensures
        forall|j: int| 0 <= j < r.len() ==> r[j] < n,
{
    let order = choose|order: Seq<int>|
        #[trigger] crate::ordering::is_stable_order(order, keys, false) && r == order.map_values(|i: int| idx[i]);
    assert forall|j: int| 0 <= j < r.len() implies r[j] < n by {
        assert(r[j] == idx[order[j]]);
    }
}

/// The roots of the requirement tree, as positions in `items`, ordered by
/// requirement id (equal ids keep their order).
pub fn requirement_roots(items: &Vec<ListedRequirement>) -> (r: Vec<usize>)
    ensures
        stably_sorted(
            r@,
            masked(positions(items@.len()), root_mask(items@)),
            id_keys(items@, masked(positions(items@.len()), root_mask(items@))),
            false,
        ),
{
    let mut keep: Vec<bool> = Vec::new();
    let mut i: usize = 0;
    while i < items.len()
        invariant
            i <= items@.len(),
            keep@ == root_mask(items@).take(i as int),
        decreases items.len() - i,
    {
        keep.push(items[i].parent_ids.len() == 0);
        i = i + 1;
        assert(keep@ =~= root_mask(items@).take(i as int));
    }
    assert(keep@ =~= root_mask(items@));
    let idx = selected_positions(&keep);
    proof {
        lemma_selected_in_range(keep@);
    }
    sort_positions_by_id(items, idx)
}

/// Whether `ids` holds `x`.
pub fn contains_id(ids: &Vec<i32>, x: i32) -> (r: bool)
    ensures
        r == ids@.contains(x),
{
    let mut k: usize = 0;
    while k < ids.len()
        invariant
            k <= ids@.len(),
            forall|j: int| 0 <= j < k ==> ids@[j] != x,
        decreases ids.len() - k,
    {
        if ids[k] == x {
            assert(ids@[k as int] == x);
            return true;
        }
        k = k + 1;
    }
    false
}

/// The children of `parent_id` in the requirement tree, as positions in
/// `items`, ordered by requirement id (equal ids keep their order).
pub fn requirement_children(items: &Vec<ListedRequirement>, parent_id: i32) -> (r: Vec<usize>)
    ensures
        stably_sorted(
            r@,
            masked(positions(items@.len()), child_mask(items@, parent_id)),
            id_keys(items@, masked(positions(items@.len()), child_mask(items@, parent_id))),
            false,
        ),
{
    let mut keep: Vec<bool> = Vec::new();
    let mut i: usize = 0;
    while i < items.len()
        invariant
            i <= items@.len(),
            keep@ == child_mask(items@, parent_id).take(i as int),
        decreases items.len() - i,
    {
        keep.push(contains_id(&items[i].parent_ids, parent_id));
        i = i + 1;
        assert(keep@ =~= child_mask(items@, parent_id).take(i as int));
    }
    assert(keep@ =~= child_mask(items@, parent_id));
    let idx = selected_positions(&keep);
    proof {
        lemma_selected_in_range(keep@);
    }
    sort_positions_by_id(items, idx)
}

/// How a requirement is named in labels: its reference code, or `RM-<id>`
/// when the code is blank.
pub open spec fn reference_or_id(id: i32, reference_code: Seq<char>) -> Seq<char> {
    if trimmed(reference_code).len() == 0 {
        "RM-"@ + int_decimal(id as int)
    } else {
        reference_code
    }
}

/// `<reference> — <title>`, the label of a requirement in change details.
pub fn requirement_label(id: i32, reference_code: &str, title: &str) -> (r: String)
    ensures
        r@ == reference_or_id(id, reference_code@) + " — "@ + title@,
{
    let mut r = if is_blank(reference_code) {
        let mut t = String::from_str("RM-");
        push_int(&mut t, id as i64);
        t
    } else {
        String::from_str(reference_code)
    };
    push_str(&mut r, " — ");
    push_str(&mut r, title);
    r
}

/// The reference shown on the edit page: the code, or `RM-` and the id
/// padded to three digits when the code is blank.
pub fn display_reference(id: i32, reference_code: &str) -> (r: String)
    ensures
        r@ == (if trimmed(reference_code@).len() == 0 {
            "RM-"@ + zero_padded(id as int, 3)
        } else {
            reference_code@
        }),
{
    if is_blank(reference_code) {
        let mut t = String::from_str("RM-");
        push_zero_padded(&mut t, id as i64, 3);
        t
    } else {
        String::from_str(reference_code)
    }
}

/// Whether a user may approve requirements of a project: administrators,
/// and members whose role there is owner (1) or manager (2).
pub open spec fn may_approve(is_admin: bool, user_id: i32, members: Seq<Membership>) -> bool {
    is_admin || exists|i: int|
        0 <= i < members.len() && #[trigger] members[i].user_id == user_id && (members[i].role == 1
            || members[i].role == 2)
}

/// Exec form of `may_approve`.
pub fn can_approve(is_admin: bool, user_id: i32, members: &Vec<Membership>) -> (r: bool)
    ensures
        r == may_approve(is_admin, user_id, members@),
{
    if is_admin {
        return true;
    }
    let mut k: usize = 0;
    while k < members.len()
        invariant
            k <= members@.len(),
            forall|j: int|
                0 <= j < k ==> !(#[trigger] members@[j].user_id == user_id && (members@[j].role == 1
                    || members@[j].role == 2)),
        decreases members.len() - k,
    {
        let m = members[k];
        if m.user_id == user_id && (m.role == 1 || m.role == 2) {
            return true;
        }
        k = k + 1;
    }
    false
}

/// How many of `kinds` are exactly `kind`.
pub open spec fn count_kind(kinds: Seq<Option<TestStatusKind>>, kind: TestStatusKind) -> nat
    decreases kinds.len(),
{
    if kinds.len() == 0 {
        0
    } else {
        count_kind(kinds.drop_last(), kind) + if kinds.last() == Some(kind) {
            1nat
        } else {
            0nat
        }
    }
}

proof fn lemma_count_kinds_bound(kinds: Seq<Option<TestStatusKind>>)
    ensures
        count_kind(kinds, TestStatusKind::Passed) + count_kind(kinds, TestStatusKind::Failed)
            <= kinds.len(),
    decreases kinds.len(),
{
    if kinds.len() > 0 {
        lemma_count_kinds_bound(kinds.drop_last());
    }
}

/// Counts of the tests linked to a requirement.
#[derive(Clone, Copy, Debug, PartialEq, Eq, Structural)]
pub struct TestTally {
    pub total: i32,
    pub passed: i32,
    pub failed: i32,
    pub pending: i32,
}

/// Tallies linked tests by the kind of their status: passed, failed, and
/// pending for every other status, known or not.
pub fn tally_linked_tests(kinds: &Vec<Option<TestStatusKind>>) -> (t: TestTally)
    requires
        kinds@.len() <= i32::MAX,
    ensures
        t.total == kinds@.len(),
        t.passed == count_kind(kinds@, TestStatusKind::Passed),
        t.failed == count_kind(kinds@, TestStatusKind::Failed),
        t.pending == t.total - t.passed - t.failed,
{
    let mut passed: i32 = 0;
    let mut failed: i32 = 0;
    let mut pending: i32 = 0;
    let mut k: usize = 0;
    while k < kinds.len()
        invariant
            k <= kinds@.len() <= i32::MAX,
            passed == count_kind(kinds@.take(k as int), TestStatusKind::Passed),
            failed == count_kind(kinds@.take(k as int), TestStatusKind::Failed),
            pending == k - passed - failed,
        decreases kinds.len() - k,
    {
        proof {
            lemma_count_kinds_bound(kinds@.take(k + 1));
            assert(kinds@.take(k + 1).drop_last() =~= kinds@.take(k as int));
        }
        match kinds[k] {
            Some(TestStatusKind::Passed) => {
                passed = passed + 1;
            },
            Some(TestStatusKind::Failed) => {
                failed = failed + 1;
            },
            _ => {
                pending = pending + 1;
            },
        }
        k = k + 1;
    }
    assert(kinds@.take(k as int) =~= kinds@);
    TestTally { total: k as i32, passed, failed, pending }
}

/// Whether a text equals `word` without regard to ASCII case.
pub open spec fn is_word(s: Seq<char>, word: Seq<char>) -> bool {
    ascii_lowercase(s) == ascii_lowercase(word)
}

/// Which approval stage a requirement is in.
#[derive(Clone, Copy, Debug, PartialEq, Eq, Structural)]
pub struct ApprovalFlags {
    pub is_draft: bool,
    pub is_reviewed: bool,
    pub is_approved: bool,
}

/// The approval flags of a state: draft, reviewed, approved, each compared
/// without regard to ASCII case.
pub fn approval_flags(approval_state: &str) -> (f: ApprovalFlags)
    ensures
        f.is_draft == is_word(approval_state@, "draft"@),
        f.is_reviewed == is_word(approval_state@, "reviewed"@),
        f.is_approved == is_word(approval_state@, "approved"@),
{
    ApprovalFlags {
        is_draft: eq_ignore_ascii_case(approval_state, "draft"),
        is_reviewed: eq_ignore_ascii_case(approval_state, "reviewed"),
        is_approved: eq_ignore_ascii_case(approval_state, "approved"),
    }
}

/// Comments may be added to a version unless the configuration locks
/// approved versions and this one is approved.
pub fn can_comment_on_version(lock_approved: bool, approval_state: &str) -> (r: bool)
    ensures
        r == !(lock_approved && is_word(approval_state@, "approved"@)),
{
    !(lock_approved && eq_ignore_ascii_case(approval_state, "approved"))
}

/// `v1.<n>`, the version label of a requirement with `history_len` logged
/// changes (counted with saturating arithmetic, as the page does).
pub fn version_label(history_len: usize) -> (r: String)
    ensures
        r@ == "v1."@ + nat_decimal(
            (if history_len == usize::MAX {
                history_len - 1
            } else {
                history_len as int
            }) as nat,
        ),
{
    let counter: usize = if history_len == usize::MAX {
        usize::MAX
    } else {
        history_len + 1
    };
    let shown: usize = counter - 1;
    let mut r = String::from_str("v1.");
    push_decimal(&mut r, shown as u64);
    r
}

/// The last editor shown on the edit page: the author of the latest logged
/// change when it has a name, else the assigned checker, else the author (each when
/// not blank), else `Unknown author`.
pub fn last_editor_name(latest_change_user: Option<&str>, reviewer: &str, author: &str) -> (r: String)
    ensures
        r@ == (match opt_str(latest_change_user) {
            Some(u) if u.len() > 0 => u,
            _ => if trimmed(reviewer@).len() > 0 {
                reviewer@
            } else if trimmed(author@).len() > 0 {
                author@
            } else {
                "Unknown author"@
            },
        }),
{
    if let Some(u) = latest_change_user {
        if !u.is_empty() {
            return String::from_str(u);
        }
    }
    if !is_blank(reviewer) {
        String::from_str(reviewer)
    } else if !is_blank(author) {
        String::from_str(author)
    } else {
        String::from_str("Unknown author")
    }
}

/// The flash message of the new-requirement page: shown when `created` is
/// `1` or, without regard to ASCII case, `true`.
pub fn created_flash(created: Option<&str>) -> (r: Option<String>)
    ensures
        r matches Some(m) ==> m@ == "Requirement created successfully."@,
        r is Some <==> (match opt_str(created) {
            Some(f) => f == "1"@ || is_word(f, "true"@),
            None => false,
        }),
{
    match created {
        Some(flag) => {
            if same_text(flag, "1") || eq_ignore_ascii_case(flag, "true") {
                Some(String::from_str("Requirement created successfully."))
            } else {
                None
            }
        },
        None => None,
    }
}

/// The verification methods kept from a form: those with a positive id, in
/// order.
pub open spec fn positive_mask(ids: Seq<i32>) -> Seq<bool> {
    ids.map_values(|id: i32| id > 0)
}

/// Drops the ids that are not positive (unselected entries of a dropdown).
pub fn positive_ids(ids: Vec<i32>) -> (r: Vec<i32>)
    ensures
        r@ == masked(ids@, positive_mask(ids@)),
{
    let mut keep: Vec<bool> = Vec::new();
    let mut i: usize = 0;
    while i < ids.len()
        invariant
            i <= ids@.len(),
            keep@ == positive_mask(ids@).take(i as int),
        decreases ids.len() - i,
    {
        keep.push(ids[i] > 0);
        i = i + 1;
        assert(keep@ =~= positive_mask(ids@).take(i as int));
    }
    assert(keep@ =~= positive_mask(ids@));
    retain_by_mask(ids, &keep)
}

/// A requirement as it is created or saved.
#[derive(Debug)]
pub struct NewRequirement {
    pub id: Option<i32>,
    pub title: String,
    pub description: String,
    pub author_id: i32,
    pub category_id: i32,
    pub status_id: i32,
    pub reference_code: String,
    pub reviewer_id: i32,
    pub applicability_id: i32,
    pub justification: Option<String>,
    pub project_id: i32,
}

/// The form that creates a requirement.
#[derive(Debug)]
pub struct RequirementCreateForm {
    pub intent: Option<String>,
    pub id: Option<i32>,
    pub title: String,
    pub description: String,
    pub verification_method_ids: Vec<i32>,
    pub category_id: Option<i32>,
    pub status_id: Option<i32>,
    /// JSON array of `{ "target_requirement_id", "link_type" }`.
    pub parent_links: Option<String>,
    pub reference_code: String,
    pub reviewer_id: Option<i32>,
    pub applicability_id: Option<i32>,
    pub justification: Option<String>,
    /// JSON array of `{ "field_id", "value" }`.
    pub custom_field_values: Option<String>,
}

/// The value of an optional id, zero when absent.
pub open spec fn or_zero(o: Option<i32>) -> i32 {
    match o {
        Some(v) => v,
        None => 0,
    }
}

impl RequirementCreateForm {
    /// The requirement the form describes, written by `author_id` in
    /// `project_id` (absent ids become zero), with the chosen verification
    /// methods and the submit intent.
    pub fn into_payload(self, author_id: i32, project_id: i32) -> (r: (NewRequirement, Vec<i32>, Option<String>))
        ensures
            r.0.id == self.id,
            r.0.title == self.title,
            r.0.description == self.description,
            r.0.author_id == author_id,
            r.0.category_id == or_zero(self.category_id),
            r.0.status_id == or_zero(self.status_id),
            r.0.reference_code == self.reference_code,
            r.0.reviewer_id == or_zero(self.reviewer_id),
            r.0.applicability_id == or_zero(self.applicability_id),
            r.0.justification == self.justification,
            r.0.project_id == project_id,
            r.1 == self.verification_method_ids,
            r.2 == self.intent,
    {
        let RequirementCreateForm {
            intent,
            id,
            title,
            description,
            verification_method_ids,
            category_id,
            status_id,
            parent_links: _,
            reference_code,
            reviewer_id,
            applicability_id,
            justification,
            custom_field_values: _,
        } = self;
        let requirement = NewRequirement {
            id,
            title,
            description,
            author_id,
            category_id: match category_id {
                Some(v) => v,
                None => 0,
            },
            status_id: match status_id {
                Some(v) => v,
                None => 0,
            },
            reference_code,
            reviewer_id: match reviewer_id {
                Some(v) => v,
                None => 0,
            },
            applicability_id: match applicability_id {
                Some(v) => v,
                None => 0,
            },
            justification,
            project_id,
        };
        (requirement, verification_method_ids, intent)
    }
}

/// The form that edits a requirement.
#[derive(Debug)]
pub struct RequirementEditForm {
    pub id: Option<i32>,
    pub title: String,
    pub description: String,
    pub status_id: i32,
    pub author_id: i32,
    pub reviewer_id: i32,
    pub reference_code: String,
    pub category_id: i32,
    pub applicability_id: i32,
    pub justification: Option<String>,
    pub project_id: i32,
    /// JSON array of `{ "target_requirement_id", "link_type" }`.
    pub parent_links: Option<String>,
    pub verification_method_ids: Vec<i32>,
    /// JSON array of `{ "field_id", "value" }`.
    pub custom_field_values: Option<String>,
}

/// A copy of an optional string.
pub fn copy_opt_string(o: &Option<String>) -> (r: Option<String>)
    ensures
        r == *o,
{
    match o {
        Some(s) => Some(s.clone()),
        None => None,
    }
}

impl RequirementEditForm {
    /// The requirement as the form saves it: every field copied.
    pub fn to_new_requirement(&self) -> (r: NewRequirement)
        ensures
            r.id == self.id,
            r.title == self.title,
            r.description == self.description,
            r.author_id == self.author_id,
            r.category_id == self.category_id,
            r.status_id == self.status_id,
            r.reference_code == self.reference_code,
            r.reviewer_id == self.reviewer_id,
            r.applicability_id == self.applicability_id,
            r.justification == self.justification,
            r.project_id == self.project_id,
    {
        NewRequirement {
            id: self.id,
            title: self.title.clone(),
            description: self.description.clone(),
            author_id: self.author_id,
            category_id: self.category_id,
            status_id: self.status_id,
            reference_code: self.reference_code.clone(),
            reviewer_id: self.reviewer_id,
            applicability_id: self.applicability_id,
            justification: copy_opt_string(&self.justification),
            project_id: self.project_id,
        }
    }
}

/// The id of the first status titled `Draft` (without regard to ASCII case).
pub open spec fn first_draft_index(statuses: Seq<Status>, from: int) -> Option<int>
    decreases statuses.len() - from,
{
    if from < 0 || from >= statuses.len() {
        None
    } else if is_word(statuses[from].title@, "Draft"@) {
        Some(from)
    } else {
        first_draft_index(statuses, from + 1)
    }
}

/// The status a new requirement starts in: the project's status titled
/// `Draft`, or `fallback` when there is none.
pub open spec fn draft_status(statuses: Seq<Status>, fallback: i32) -> i32 {
    match first_draft_index(statuses, 0) {
        Some(i) => statuses[i].id,
        None => fallback,
    }
}

/// Exec form of `draft_status`.
pub fn draft_status_id(statuses: &Vec<Status>, fallback: i32) -> (r: i32)
    ensures
        r == draft_status(statuses@, fallback),
{
    let mut k: usize = 0;
    while k < statuses.len()
        invariant
            k <= statuses@.len(),
            first_draft_index(statuses@, 0) == first_draft_index(statuses@, k as int),
        decreases statuses.len() - k,
    {
        if eq_ignore_ascii_case(statuses[k].title.as_str(), "Draft") {
            return statuses[k].id;
        }
        k = k + 1;
    }
    fallback
}

/// Fills the ids a creation form left unset (zero or below): the project's
/// first category and applicability when it has one, the draft status, and
/// the creating user as the assigned checker. Everything else is kept.
pub fn apply_create_defaults(
    req: NewRequirement,
    user_id: i32,
    first_category: Option<i32>,
    first_applicability: Option<i32>,
    draft_status_id: i32,
) -> (r: NewRequirement)
    ensures
        r.category_id == (if req.category_id <= 0 && first_category is Some {
            first_category->0
        } else {
            req.category_id
        }),
        r.applicability_id == (if req.applicability_id <= 0 && first_applicability is Some {
            first_applicability->0
        } else {
            req.applicability_id
        }),
        r.status_id == (if req.status_id <= 0 {
            draft_status_id
        } else {
            req.status_id
        }),
        r.reviewer_id == (if req.reviewer_id <= 0 {
            user_id
        } else {
            req.reviewer_id
        }),
        r.id == req.id,
        r.title == req.title,
        r.description == req.description,
        r.author_id == req.author_id,
        r.reference_code == req.reference_code,
        r.justification == req.justification,
        r.project_id == req.project_id,
{
    let mut req = req;
    if req.category_id <= 0 {
        if let Some(c) = first_category {
            req.category_id = c;
        }
    }
    if req.applicability_id <= 0 {
        if let Some(a) = first_applicability {
            req.applicability_id = a;
        }
    }
    if req.status_id <= 0 {
        req.status_id = draft_status_id;
    }
    if req.reviewer_id <= 0 {
        req.reviewer_id = user_id;
    }
    req
}

/// What happens to the reference code of a new requirement.
#[derive(Clone, Copy, Debug, PartialEq, Eq, Structural)]
pub enum ReferenceDecision {
    /// It is well formed and kept.
    Keep,
    /// It is blank; one is generated.
    Generate,
    /// It is filled in but malformed; the form is shown again.
    Reject,
}

/// `^REQ-<tag>-\d+$` with the tag escaped, the pattern a reference of a
/// category must match.
pub open spec fn reference_pattern(tag: Seq<char>) -> Seq<char> {
    "^REQ-"@ + regex_escaped(tag) + "-\\d+$"@
}

/// The pattern used when the category's own pattern does not compile.
pub open spec fn fallback_reference_pattern() -> Seq<char> {
    "^REQ-\\w+-\\d+$"@
}

/// The verdict on a reference code given whether it matches the category's
/// pattern: kept when it is not empty, starts with `REQ-<tag>-` and matches;
/// otherwise generated when it is blank and rejected when it is not.
pub open spec fn reference_verdict(reference: Seq<char>, tag: Seq<char>, pattern_matches: bool) -> ReferenceDecision {
    if reference.len() > 0 && starts_with(reference, "REQ-"@ + tag + "-"@) && pattern_matches {
        ReferenceDecision::Keep
    } else if trimmed(reference).len() == 0 {
        ReferenceDecision::Generate
    } else {
        ReferenceDecision::Reject
    }
}

/// Exec form of `reference_verdict`.
pub fn reference_decision(reference: &str, tag: &str, pattern_matches: bool) -> (r: ReferenceDecision)
    ensures
        r == reference_verdict(reference@, tag@, pattern_matches),
{
    let mut prefix = concat("REQ-", tag);
    push_str(&mut prefix, "-");
    if !reference.is_empty() && has_prefix(reference, prefix.as_str()) && pattern_matches {
        ReferenceDecision::Keep
    } else if is_blank(reference) {
        ReferenceDecision::Generate
    } else {
        ReferenceDecision::Reject
    }
}

/// Whether a reference matches the category's pattern, falling back to the
/// general pattern when the category's does not compile.
pub open spec fn reference_matches(reference: Seq<char>, tag: Seq<char>) -> bool {
    match regex_search(reference_pattern(tag), reference) {
        Some(b) => b,
        None => match regex_search(fallback_reference_pattern(), reference) {
            Some(b) => b,
            None => false,
        },
    }
}

/// Checks the reference code of a new requirement against its category's
/// tag, compiling the category pattern with `regex`.
pub fn check_reference(reference: &str, tag: &str) -> (r: ReferenceDecision)
    ensures
        r == reference_verdict(reference@, tag@, reference_matches(reference@, tag@)),
{
    let escaped = regex_escape(tag);
    let mut pattern = String::from_str("^REQ-");
    push_str(&mut pattern, escaped.as_str());
    push_str(&mut pattern, "-\\d+$");
    let matched: bool = match regex_is_match(pattern.as_str(), reference) {
        Some(b) => b,
        None => match regex_is_match("^REQ-\\w+-\\d+$", reference) {
            Some(b) => b,
            None => false,
        },
    };
    reference_decision(reference, tag, matched)
}

/// Whether the creation form asked to add another requirement next.
pub fn wants_another(intent: Option<&str>) -> (r: bool)
    ensures
        r == (opt_str(intent) == Some("add_another"@)),
{
    match intent {
        Some(i) => same_text(i, "add_another"),
        None => false,
    }
}

/// The parts of an existing requirement that a new one may copy.
#[derive(Debug)]
pub struct RequirementTemplate {
    pub title: String,
    pub description: String,
    pub category_id: i32,
    pub reference_code: String,
    pub reviewer_id: i32,
    pub applicability_id: i32,
    pub justification: Option<String>,
}

/// The requirement the new-requirement form starts from: copied from the
/// template when there is one (empty otherwise), written by the user, in
/// the draft status, with the first category and applicability and the user
/// as the assigned checker wherever the template leaves them unset.
pub fn new_requirement_template(
    user_id: i32,
    project_id: i32,
    template: Option<&RequirementTemplate>,
    draft_status_id: i32,
    first_category: Option<i32>,
    first_applicability: Option<i32>,
) -> (r: NewRequirement)
    ensures
        r.id is None,
        r.author_id == user_id,
        r.project_id == project_id,
        r.status_id == draft_status_id,
        r.title@ == (match template {
            Some(t) => t.title@,
            None => Seq::<char>::empty(),
        }),
        r.description@ == (match template {
            Some(t) => t.description@,
            None => Seq::<char>::empty(),
        }),
        r.reference_code@ == (match template {
            Some(t) => t.reference_code@,
            None => Seq::<char>::empty(),
        }),
        r.justification == (match template {
            Some(t) => t.justification,
            None => None,
        }),
        r.category_id == (match template {
            Some(t) if t.category_id > 0 => t.category_id,
            _ => or_zero(first_category),
        }),
        r.applicability_id == (match template {
            Some(t) if t.applicability_id > 0 => t.applicability_id,
            _ => or_zero(first_applicability),
        }),
        r.reviewer_id == (match template {
            Some(t) if t.reviewer_id > 0 => t.reviewer_id,
            _ => user_id,
        }),
{
    let (title, description, reference_code, justification, category_id, reviewer_id, applicability_id) =
        match template {
        Some(t) => (
            t.title.clone(),
            t.description.clone(),
            t.reference_code.clone(),
            copy_opt_string(&t.justification),
            t.category_id,
            t.reviewer_id,
            t.applicability_id,
        ),
        None => (String::new(), String::new(), String::new(), None, 0, 0, 0),
    };
    let category_id: i32 = if category_id > 0 {
        category_id
    } else {
        match first_category {
            Some(c) => c,
            None => 0,
        }
    };
    let applicability_id: i32 = if applicability_id > 0 {
        applicability_id
    } else {
        match first_applicability {
            Some(a) => a,
            None => 0,
        }
    };
    let reviewer_id: i32 = if reviewer_id > 0 {
        reviewer_id
    } else {
        user_id
    };
    NewRequirement {
        id: None,
        title,
        description,
        author_id: user_id,
        category_id,
        status_id: draft_status_id,
        reference_code,
        reviewer_id,
        applicability_id,
        justification,
        project_id,
    }
}

/// Whether the user may manage the project as administrator or owner.
pub fn is_admin_or_owner(is_admin: bool, owner_id: Option<i32>, user_id: i32) -> (r: bool)
    ensures
        r == (is_admin || owner_id == Some(user_id)),
{
    is_admin || match owner_id {
        Some(o) => o == user_id,
        None => false,
    }
}

/// Where the parent asked for on the new-requirement page stands among the
/// candidate requirements: its first position, or none when it is not one.
pub fn preselected_parent(parent: Option<i32>, candidate_ids: &Vec<i32>) -> (r: Option<usize>)
    ensures
        parent is None ==> r is None,
        parent matches Some(p) ==> (match r {
            Some(i) => i < candidate_ids@.len() && candidate_ids@[i as int] == p && forall|j: int|
                0 <= j < i ==> candidate_ids@[j] != p,
            None => !candidate_ids@.contains(p),
        }),
{
    match parent {
        Some(p) => {
            let mut k: usize = 0;
            while k < candidate_ids.len()
                invariant
                    parent == Some(p),
                    k <= candidate_ids@.len(),
                    forall|j: int| 0 <= j < k ==> candidate_ids@[j] != p,
                decreases candidate_ids.len() - k,
            {
                if candidate_ids[k] == p {
                    return Some(k);
                }
                k = k + 1;
            }
            None
        },
        None => None,
    }
}

/// Which candidates may be linked from a requirement: all but itself.
pub open spec fn other_mask(ids: Seq<i32>, requirement_id: i32) -> Seq<bool> {
    ids.map_values(|id: i32| id != requirement_id)
}

/// The requirements offered as link targets on the edit page: positions of
/// all but the edited one, ordered by id.
pub fn link_candidates(ids: &Vec<i32>, requirement_id: i32) -> (r: Vec<usize>)
    ensures
        stably_sorted(
            r@,
            masked(positions(ids@.len()), other_mask(ids@, requirement_id)),
            masked(positions(ids@.len()), other_mask(ids@, requirement_id)).map_values(
                |i: usize| seq![ids@[i as int] as i64],
            ),
            false,
        ),
{
    let mut keep: Vec<bool> = Vec::new();
    let mut i: usize = 0;
    while i < ids.len()
        invariant
            i <= ids@.len(),
            keep@ == other_mask(ids@, requirement_id).take(i as int),
        decreases ids.len() - i,
    {
        keep.push(ids[i] != requirement_id);
        i = i + 1;
        assert(keep@ =~= other_mask(ids@, requirement_id).take(i as int));
    }
    assert(keep@ =~= other_mask(ids@, requirement_id));
    let idx = selected_positions(&keep);
    proof {
        lemma_selected_in_range(keep@);
    }
    let ghost want = idx@.map_values(|i: usize| seq![ids@[i as int] as i64]);
    let mut keys: Vec<Vec<i64>> = Vec::new();
    let mut k: usize = 0;
    while k < idx.len()
        invariant
            k <= idx@.len(),
            forall|j: int| 0 <= j < idx@.len() ==> idx@[j] < ids@.len(),
            want == idx@.map_values(|i: usize| seq![ids@[i as int] as i64]),
            keys@.len() == k,
            key_views(keys@) == want.take(k as int),
        decreases idx.len() - k,
    {
        let id: i64 = ids[idx[k]] as i64;
        let key = vec![id];
        assert(key@ =~= seq![id]);
        let ghost before = keys@;
        keys.push(key);
        k = k + 1;
        proof {
            assert forall|j: int| 0 <= j < k implies #[trigger] key_views(keys@)[j] == want[j] by {
                if j < k - 1 {
                    assert(keys@[j] == before[j]);
                    assert(key_views(before)[j] == before[j]@);
                    assert(want.take(k - 1)[j] == want[j]);
                }
            }
            assert(key_views(keys@) =~= want.take(k as int));
        }
    }
    assert(want.take(k as int) =~= want);
    stable_sort_by_keys(idx, keys, false)
}

/// What deleting a requirement comes to.
#[derive(Clone, Debug)]
pub enum DeleteRequirementDecision {
    /// The requirement belongs to another project: go to that project's list.
    Redirect(String),
    /// Its status does not allow users to delete it, and the user is no
    /// administrator.
    Forbidden,
    /// It is deleted.
    Delete,
}

/// Deciding a delete: ownership first, then the status gate (a status that
/// is unknown counts as not editable), which administrators pass.
pub fn delete_requirement_decision(
    project_id: i32,
    requirement_project_id: i32,
    status_editable: Option<bool>,
    is_admin: bool,
) -> (r: DeleteRequirementDecision)
    ensures
        project_id != requirement_project_id ==> (r matches DeleteRequirementDecision::Redirect(p)
            && p@ == requirements_list_path_text(requirement_project_id)),
        project_id == requirement_project_id ==> (r is Forbidden <==> (status_editable != Some(true)
            && !is_admin)),
        project_id == requirement_project_id ==> (r is Delete <==> (status_editable == Some(true)
            || is_admin)),
{
    if let Some(p) = enforce_project_ownership(project_id, requirement_project_id) {
        return DeleteRequirementDecision::Redirect(p);
    }
    let editable = match status_editable {
        Some(e) => e,
        None => false,
    };
    if !editable && !is_admin {
        DeleteRequirementDecision::Forbidden
    } else {
        DeleteRequirementDecision::Delete
    }
}

/// The name shown for a comment's author: the user's name, or `User#<id>`
/// when the user cannot be found.
pub fn comment_author_name(name: Option<&str>, author_id: i32) -> (r: String)
    ensures
        r@ == (match name {
            Some(n) => n@,
            None => "User#"@ + int_decimal(author_id as int),
        }),
{
    match name {
        Some(n) => String::from_str(n),
        None => {
            let mut r = String::from_str("User#");
            push_int(&mut r, author_id as i64);
            r
        },
    }
}

/// A custom field's value on a requirement: its field id and value, if set.
#[derive(Debug)]
pub struct CustomFieldValue {
    pub field_id: i32,
    pub value: Option<String>,
}

/// The first value set for `field_id`, if any.
pub open spec fn first_value_for(values: Seq<CustomFieldValue>, field_id: i32) -> Option<Option<String>>
    decreases values.len(),
{
    if values.len() == 0 {
        None
    } else if values[0].field_id == field_id {
        Some(values[0].value)
    } else {
        first_value_for(values.drop_first(), field_id)
    }
}

/// The current value of a custom field on the edit page: the value of the
/// first entry for the field, empty when there is none or it is unset.
pub fn current_custom_value(values: Option<&Vec<CustomFieldValue>>, field_id: i32) -> (r: String)
    ensures
        r@ == (match values {
            Some(vs) => match first_value_for(vs@, field_id) {
                Some(Some(v)) => v@,
                _ => Seq::<char>::empty(),
            },
            None => Seq::<char>::empty(),
        }),
{
    match values {
        None => String::new(),
        Some(vs) => {
            let mut k: usize = 0;
            assert(vs@.skip(0) =~= vs@);
            while k < vs.len()
                invariant
                    values == Some(vs),
                    k <= vs@.len(),
                    first_value_for(vs@, field_id) == first_value_for(vs@.skip(k as int), field_id),
                decreases vs.len() - k,
            {
                assert(vs@.skip(k as int).drop_first() =~= vs@.skip(k + 1));
                assert(vs@.skip(k as int)[0] == vs@[k as int]);
                if vs[k].field_id == field_id {
                    return match &vs[k].value {
                        Some(v) => v.clone(),
                        None => String::new(),
                    };
                }
                k = k + 1;
            }
            String::new()
        },
    }
}

/// A parent link asked for by a form: the target requirement and the kind
/// of link.
#[derive(Debug)]
pub struct ParentLinkInput {
    pub target_requirement_id: i32,
    pub link_type: String,
}

/// What is known of a link's target requirement: its project and current
/// version, or nothing when it cannot be found.
#[derive(Clone, Copy, Debug, PartialEq, Eq, Structural)]
pub struct LinkTarget {
    pub project_id: i32,
    pub current_version_id: Option<i32>,
}

/// Whether a requested link is kept: its target id is positive, the target
/// exists in the same project and has a current version.
pub open spec fn link_kept(l: ParentLinkInput, t: Option<LinkTarget>, project_id: i32) -> bool {
    l.target_requirement_id > 0 && (t matches Some(x) && x.project_id == project_id && x.current_version_id is Some)
}

/// The kept links as (target version, link type), in order.
pub open spec fn kept_links(
    links: Seq<ParentLinkInput>,
    targets: Seq<Option<LinkTarget>>,
    project_id: i32,
) -> Seq<(i32, Seq<char>)>
    decreases links.len(),
{
    if links.len() == 0 || targets.len() == 0 {
        Seq::empty()
    } else {
        let rest = kept_links(links.drop_last(), targets.drop_last(), project_id);
        if link_kept(links.last(), targets.last(), project_id) {
            rest.push((targets.last()->0.current_version_id->0, links.last().link_type@))
        } else {
            rest
        }
    }
}

/// The links a form asks for that can be created: `targets` holds, for each
/// link, what was found of its target.
pub fn parent_link_targets(
    links: &Vec<ParentLinkInput>,
    targets: &Vec<Option<LinkTarget>>,
    project_id: i32,
) -> (r: Vec<(i32, String)>)
    requires
        links@.len() == targets@.len(),
    ensures
        r@.map_values(|x: (i32, String)| (x.0, x.1@)) == kept_links(links@, targets@, project_id),
{
    let mut out: Vec<(i32, String)> = Vec::new();
    let mut k: usize = 0;
    while k < links.len()
        invariant
            links@.len() == targets@.len(),
            k <= links@.len(),
            out@.map_values(|x: (i32, String)| (x.0, x.1@)) == kept_links(
                links@.take(k as int),
                targets@.take(k as int),
                project_id,
            ),
        decreases links.len() - k,
    {
        let l = &links[k];
        let t = targets[k];
        assert(links@.take(k + 1).drop_last() =~= links@.take(k as int));
        assert(targets@.take(k + 1).drop_last() =~= targets@.take(k as int));
        if l.target_requirement_id > 0 {
            if let Some(x) = t {
                if x.project_id == project_id {
                    if let Some(v) = x.current_version_id {
                        let ghost before = out@;
                        out.push((v, l.link_type.clone()));
                        assert(out@.map_values(|x: (i32, String)| (x.0, x.1@)) =~= before.map_values(
                            |x: (i32, String)| (x.0, x.1@),
                        ).push((v, l.link_type@)));
                    }
                }
            }
        }
        k = k + 1;
    }
    assert(links@.take(k as int) =~= links@);
    assert(targets@.take(k as int) =~= targets@);
    out
}

/// The two approval filters split the requirements: every requirement
/// passes exactly one of `approved` and `not_approved`.
pub proof fn lemma_approval_filters_partition(state: Seq<char>)
    ensures
        approval_keeps(Some("approved"@), state) != approval_keeps(Some("not_approved"@), state),
{
    reveal_strlit("approved");
    reveal_strlit("not_approved");
    assert(ascii_lowercase("approved"@) != ascii_lowercase("not_approved"@)) by {
        assert(ascii_lowercase("approved"@).len() != ascii_lowercase("not_approved"@).len());
    }
    assert(ascii_lowercase("approved"@) =~= "approved"@) by {
        assert forall|i: int| 0 <= i < "approved"@.len() implies crate::text::ascii_lower_char("approved"@[i]) == "approved"@[i] by {}
    }
    assert(ascii_lowercase("not_approved"@) =~= "not_approved"@) by {
        assert forall|i: int| 0 <= i < "not_approved"@.len() implies crate::text::ascii_lower_char("not_approved"@[i]) == "not_approved"@[i] by {}
    }
}

/// A requirement is in at most one approval stage: draft, reviewed and
/// approved exclude each other.
pub proof fn lemma_approval_stages_exclusive(state: Seq<char>)
    ensures
        !(is_word(state, "draft"@) && is_word(state, "reviewed"@)),
        !(is_word(state, "draft"@) && is_word(state, "approved"@)),
        !(is_word(state, "reviewed"@) && is_word(state, "approved"@)),
{
    reveal_strlit("draft");
    reveal_strlit("reviewed");
    reveal_strlit("approved");
    assert(ascii_lowercase("draft"@).len() == 5);
    assert(ascii_lowercase("reviewed"@).len() == 8);
    assert(ascii_lowercase("approved"@).len() == 8);
    assert(ascii_lowercase("reviewed"@)[0] == 'r');
    assert(ascii_lowercase("approved"@)[0] == 'a');
}

/// Every requirement the tree puts under a parent names that parent among
/// its parents, and every root has none.
pub proof fn lemma_tree_positions_faithful(
    items: Seq<ListedRequirement>,
    parent_id: i32,
    roots: Seq<usize>,
    children: Seq<usize>,
)
    requires
        items.len() <= usize::MAX,
        stably_sorted(
            roots,
            masked(positions(items.len()), root_mask(items)),
            id_keys(items, masked(positions(items.len()), root_mask(items))),
            false,
        ),
        stably_sorted(
            children,
            masked(positions(items.len()), child_mask(items, parent_id)),
            id_keys(items, masked(positions(items.len()), child_mask(items, parent_id))),
            false,
        ),
    ensures
        forall|j: int| 0 <= j < roots.len() ==> #[trigger] roots[j] < items.len() && items[roots[j] as int].parent_ids@.len() == 0,
        forall|j: int|
            0 <= j < children.len() ==> #[trigger] children[j] < items.len() && items[children[j] as int].parent_ids@.contains(parent_id),
{
    let rm = root_mask(items);
    let ridx = masked(positions(items.len()), rm);
    let ro = choose|order: Seq<int>|
        #[trigger] crate::ordering::is_stable_order(order, id_keys(items, ridx), false) && roots == order.map_values(|i: int| ridx[i]);
    assert forall|j: int| 0 <= j < roots.len() implies #[trigger] roots[j] < items.len() && items[roots[j] as int].parent_ids@.len() == 0 by {
        let x = ridx[ro[j]];
        assert(ridx.contains(x));
        crate::selection::lemma_masked_members(positions(items.len()), rm, x);
        let i = choose|i: int| 0 <= i < positions(items.len()).len() && rm[i] && positions(items.len())[i] == x;
        assert(x as int == i);
    }
    let cm = child_mask(items, parent_id);
    let cidx = masked(positions(items.len()), cm);
    let co = choose|order: Seq<int>|
        #[trigger] crate::ordering::is_stable_order(order, id_keys(items, cidx), false) && children == order.map_values(|i: int| cidx[i]);
    assert forall|j: int| 0 <= j < children.len() implies #[trigger] children[j] < items.len() && items[children[j] as int].parent_ids@.contains(parent_id) by {
        let x = cidx[co[j]];
        assert(cidx.contains(x));
        crate::selection::lemma_masked_members(positions(items.len()), cm, x);
        let i = choose|i: int| 0 <= i < positions(items.len()).len() && cm[i] && positions(items.len())[i] == x;
        assert(x as int == i);
    }
}

/// The positions that hang under `parent_id` lie within the list and name
/// requirements that list it as a parent.
proof fn lemma_children_in_range(items: Seq<ListedRequirement>, parent_id: i32, children: Seq<usize>)
    requires
        items.len() <= usize::MAX,
        stably_sorted(
            children,
            masked(positions(items.len()), child_mask(items, parent_id)),
            id_keys(items, masked(positions(items.len()), child_mask(items, parent_id))),
            false,
        ),
    ensures
        forall|j: int|
            0 <= j < children.len() ==> #[trigger] children[j] < items.len() && items[children[j] as int].parent_ids@.contains(parent_id),
{
    let cm = child_mask(items, parent_id);
    let cidx = masked(positions(items.len()), cm);
    let co = choose|order: Seq<int>|
        #[trigger] crate::ordering::is_stable_order(order, id_keys(items, cidx), false) && children == order.map_values(|i: int| cidx[i]);
    assert forall|j: int| 0 <= j < children.len() implies #[trigger] children[j] < items.len() && items[children[j] as int].parent_ids@.contains(parent_id) by {
        let x = cidx[co[j]];
        assert(cidx.contains(x));
        crate::selection::lemma_masked_members(positions(items.len()), cm, x);
        let i = choose|i: int| 0 <= i < positions(items.len()).len() && cm[i] && positions(items.len())[i] == x;
        assert(x as int == i);
    }
}

/// A node of the requirement tree: the position of a requirement in the
/// list and the nodes of the requirements under it.
#[derive(Debug)]
pub struct TreeNode {
    pub position: usize,
    pub children: Vec<TreeNode>,
}

/// The positions of a list of tree nodes.
pub open spec fn node_positions(nodes: Seq<TreeNode>) -> Seq<usize> {
    nodes.map_values(|n: TreeNode| n.position)
}

/// `n` is the subtree of the requirement at its position, unfolded `depth`
/// levels deep: its children are the requirements that list it as a parent,
/// ordered by id (equal ids keep list order), each the subtree of that
/// requirement one level less deep; at depth zero it has no children.
pub open spec fn is_tree_node(items: Seq<ListedRequirement>, n: TreeNode, depth: nat) -> bool
    decreases depth,
{
    &&& n.position < items.len()
    &&& if depth == 0 {
        n.children@.len() == 0
    } else {
        &&& stably_sorted(
            node_positions(n.children@),
            masked(positions(items.len()), child_mask(items, items[n.position as int].id)),
            id_keys(items, masked(positions(items.len()), child_mask(items, items[n.position as int].id))),
            false,
        )
        &&& forall|j: int| 0 <= j < n.children@.len() ==> is_tree_node(items, #[trigger] n.children@[j], (depth - 1) as nat)
    }
}

/// The subtree of the requirement at `position`, unfolded `depth` levels.
pub fn build_node(items: &Vec<ListedRequirement>, position: usize, depth: usize) -> (n: TreeNode)
    requires
        position < items@.len(),
    ensures
        n.position == position,
        is_tree_node(items@, n, depth as nat),
    decreases depth,
{
    if depth == 0 {
        return TreeNode { position, children: Vec::new() };
    }
    let len: usize = items.len();
    let kids = requirement_children(items, items[position].id);
    proof {
        assert(items@.len() == len);
        lemma_children_in_range(items@, items@[position as int].id, kids@);
    }
    let mut children: Vec<TreeNode> = Vec::new();
    let mut k: usize = 0;
    while k < kids.len()
        invariant
            k <= kids@.len(),
            depth > 0,
            children@.len() == k,
            forall|j: int| 0 <= j < kids@.len() ==> #[trigger] kids@[j] < items@.len(),
            forall|j: int| 0 <= j < k ==> (#[trigger] children@[j]).position == kids@[j] && is_tree_node(items@, children@[j], (depth - 1) as nat),
        decreases kids.len() - k,
    {
        let child = build_node(items, kids[k], depth - 1);
        children.push(child);
        k = k + 1;
    }
    assert(node_positions(children@) =~= kids@);
    let n = TreeNode { position, children };
    assert forall|j: int| 0 <= j < n.children@.len() implies is_tree_node(items@, #[trigger] n.children@[j], (depth - 1) as nat) by {}
    n
}

/// The requirement tree of a list: one node for each requirement without
/// parents, ordered by id (equal ids keep list order), each unfolded as
/// many levels as the list has requirements. When no chain of parents
/// returns to where it started, no path through the tree is that long, so
/// every requirement appears under each of its parents.
pub fn requirement_tree(items: &Vec<ListedRequirement>) -> (r: Vec<TreeNode>)
    ensures
        stably_sorted(
            node_positions(r@),
            masked(positions(items@.len()), root_mask(items@)),
            id_keys(items@, masked(positions(items@.len()), root_mask(items@))),
            false,
        ),
        forall|j: int| 0 <= j < r@.len() ==> is_tree_node(items@, #[trigger] r@[j], items@.len() as nat),
{
    let len: usize = items.len();
    let roots = requirement_roots(items);
    proof {
        assert(items@.len() == len);
        assert forall|j: int| 0 <= j < roots@.len() implies #[trigger] roots@[j] < items@.len() by {
            lemma_tree_roots_in_range(items@, roots@, j);
        }
    }
    let mut out: Vec<TreeNode> = Vec::new();
    let mut k: usize = 0;
    while k < roots.len()
        invariant
            k <= roots@.len(),
            out@.len() == k,
            forall|j: int| 0 <= j < roots@.len() ==> #[trigger] roots@[j] < items@.len(),
            forall|j: int| 0 <= j < k ==> (#[trigger] out@[j]).position == roots@[j] && is_tree_node(items@, out@[j], items@.len() as nat),
        decreases roots.len() - k,
    {
        let node = build_node(items, roots[k], items.len());
        out.push(node);
        k = k + 1;
    }
    assert(node_positions(out@) =~= roots@);
    out
}

proof fn lemma_tree_roots_in_range(items: Seq<ListedRequirement>, roots: Seq<usize>, j: int)
    requires
        items.len() <= usize::MAX,
        stably_sorted(
            roots,
            masked(positions(items.len()), root_mask(items)),
            id_keys(items, masked(positions(items.len()), root_mask(items))),
            false,
        ),
        0 <= j < roots.len(),
    ensures
        roots[j] < items.len(),
{
    let rm = root_mask(items);
    let ridx = masked(positions(items.len()), rm);
    let ro = choose|order: Seq<int>|
        #[trigger] crate::ordering::is_stable_order(order, id_keys(items, ridx), false) && roots == order.map_values(|i: int| ridx[i]);
    let x = ridx[ro[j]];
    assert(ridx.contains(x));
    crate::selection::lemma_masked_members(positions(items.len()), rm, x);
    let i = choose|i: int| 0 <= i < positions(items.len()).len() && rm[i] && positions(items.len())[i] == x;
    assert(x as int == i);
}

/// The status a failed storage operation answers a request with.
#[derive(Clone, Copy, Debug, PartialEq, Eq, Structural)]
pub enum ErrorStatus {
    BadRequest,
    NotFound,
    InternalServerError,
}

/// Bad input is the client's fault, a missing record is not found, and
/// anything else is the server's.
pub fn map_repo_error(err: &RepoError) -> (s: ErrorStatus)
    ensures
        s == (match *err {
            RepoError::BadInput(_) => ErrorStatus::BadRequest,
            RepoError::NotFound => ErrorStatus::NotFound,
            _ => ErrorStatus::InternalServerError,
        }),
{
    match err {
        RepoError::BadInput(_) => ErrorStatus::BadRequest,
        RepoError::NotFound => ErrorStatus::NotFound,
        _ => ErrorStatus::InternalServerError,
    }
}

/// The text of a parameter that carries JSON (custom field values, custom
/// filters): trimmed, and none when it is missing or blank.
pub fn json_param_text(s: Option<&str>) -> (r: Option<String>)
    ensures
        match s {
            None => r is None,
            Some(t) => if trimmed(t@).len() == 0 {
                r is None
            } else {
                r matches Some(x) && x@ == trimmed(t@)
            },
        },
{
    match s {
        None => None,
        Some(t) => {
            let x = trim(t);
            if x.as_str().is_empty() {
                None
            } else {
                Some(x)
            }
        },
    }
}

/// A custom field of a project, as the requirement filters offer it.
#[derive(Debug)]
pub struct CustomFieldDefinition {
    pub id: i32,
    pub label: String,
    pub field_type: String,
    pub enum_values: Option<Vec<String>>,
}

/// A custom field with the value it is currently filtered by.
#[derive(Debug)]
pub struct CustomFieldFilter {
    pub id: i32,
    pub label: String,
    pub field_type: String,
    pub enum_values: Option<Vec<String>>,
    pub current_filter_value: Option<String>,
}

/// The value a field is filtered by: that of the last filter on it (the
/// filters are collected into a map, where a later pair replaces an earlier
/// one).
pub open spec fn last_filter_value(filters: Seq<(i32, String)>, field_id: i32) -> Option<String>
    decreases filters.len(),
{
    if filters.len() == 0 {
        None
    } else if filters.last().0 == field_id {
        Some(filters.last().1)
    } else {
        last_filter_value(filters.drop_last(), field_id)
    }
}

/// Exec form of `last_filter_value`, with no filters at all when the
/// parameter gave none.
pub fn filter_value_for(filters: Option<&Vec<(i32, String)>>, field_id: i32) -> (r: Option<String>)
    ensures
        r == (match filters {
            Some(fs) => last_filter_value(fs@, field_id),
            None => None,
        }),
{
    match filters {
        None => None,
        Some(fs) => {
            let mut k: usize = fs.len();
            assert(fs@.take(k as int) =~= fs@);
            while k > 0
                invariant
                    filters == Some(fs),
                    k <= fs@.len(),
                    last_filter_value(fs@, field_id) == last_filter_value(fs@.take(k as int), field_id),
                decreases k,
            {
                assert(fs@.take(k as int).drop_last() =~= fs@.take(k - 1));
                if fs[k - 1].0 == field_id {
                    return Some(fs[k - 1].1.clone());
                }
                k = k - 1;
            }
            None
        },
    }
}

/// A copy of a list of strings.
pub fn copy_strings(v: &Vec<String>) -> (r: Vec<String>)
    ensures
        r@ == v@,
{
    let mut r: Vec<String> = Vec::new();
    let mut i: usize = 0;
    while i < v.len()
        invariant
            i <= v@.len(),
            r@ == v@.take(i as int),
        decreases v.len() - i,
    {
        r.push(v[i].clone());
        i = i + 1;
        assert(r@ =~= v@.take(i as int));
    }
    assert(v@.take(i as int) =~= v@);
    r
}

/// The view of an optional list of strings.
pub open spec fn strings_view(o: Option<Vec<String>>) -> Option<Seq<String>> {
    match o {
        Some(v) => Some(v@),
        None => None,
    }
}

/// Whether a filter row shows a definition with the value it is filtered by.
pub open spec fn filter_row_ok(f: CustomFieldFilter, d: CustomFieldDefinition, filters: Option<Seq<(i32, String)>>) -> bool {
    &&& f.id == d.id
    &&& f.label == d.label
    &&& f.field_type == d.field_type
    &&& strings_view(f.enum_values) == strings_view(d.enum_values)
    &&& f.current_filter_value == (match filters {
        Some(fs) => last_filter_value(fs, d.id),
        None => None,
    })
}

/// The custom fields of the requirement list, each with the value it is
/// currently filtered by.
pub fn custom_field_definitions_with_filter_values(
    defs: &Vec<CustomFieldDefinition>,
    filters: Option<&Vec<(i32, String)>>,
) -> (r: Vec<CustomFieldFilter>)
    ensures
        r@.len() == defs@.len(),
        forall|i: int|
            0 <= i < defs@.len() ==> filter_row_ok(
                #[trigger] r@[i],
                defs@[i],
                match filters {
                    Some(fs) => Some(fs@),
                    None => None,
                },
            ),
{
    let ghost fv = match filters {
        Some(fs) => Some(fs@),
        None => None,
    };
    let mut r: Vec<CustomFieldFilter> = Vec::new();
    let mut i: usize = 0;
    while i < defs.len()
        invariant
            i <= defs@.len(),
            fv == (match filters {
                Some(fs) => Some(fs@),
                None => None::<Seq<(i32, String)>>,
            }),
            r@.len() == i,
            forall|k: int| 0 <= k < i ==> filter_row_ok(#[trigger] r@[k], defs@[k], fv),
        decreases defs.len() - i,
    {
        let d = &defs[i];
        let enum_values = match &d.enum_values {
            Some(v) => Some(copy_strings(v)),
            None => None,
        };
        let row = CustomFieldFilter {
            id: d.id,
            label: d.label.clone(),
            field_type: d.field_type.clone(),
            enum_values,
            current_filter_value: filter_value_for(filters, d.id),
        };
        r.push(row);
        i = i + 1;
    }
    r
}

/// Where the new-requirement form sends the browser after a submission.
#[derive(Debug)]
pub enum RequirementFormRedirect {
    /// The form again, `/p/<project_id>/requirements/new?<error>&<created>`.
    NewRequirement { error: Option<String>, created: Option<String> },
    /// The page of the requirement with this id.
    ShowRequirement(i32),
}

/// The form again with `Invalid data provided`, where a malformed reference
/// or input the storage layer refuses sends the user.
pub fn invalid_data_redirect() -> (r: RequirementFormRedirect)
    ensures
        r matches RequirementFormRedirect::NewRequirement { error: Some(e), created: None } && e@
            == "Invalid data provided"@,
{
    RequirementFormRedirect::NewRequirement { error: Some(String::from_str("Invalid data provided")), created: None }
}

/// After creating a requirement: the form again (with the success flag) when
/// the user asked to add another, else the new requirement's page; on
/// failure the form with `Invalid data provided` for refused input and
/// `Failed to create requirement` otherwise.
pub fn post_requirement_outcome(created: Result<i32, RepoError>, intent: Option<&str>) -> (r: Result<
    RequirementFormRedirect,
    RequirementFormRedirect,
>)
    ensures
        created is Ok && opt_str(intent) == Some("add_another"@) ==> (r matches Ok(
            RequirementFormRedirect::NewRequirement { error: None, created: Some(c) },
        ) && c@ == "1"@),
        created matches Ok(id) ==> (opt_str(intent) != Some("add_another"@) ==> r == Ok::<
            RequirementFormRedirect,
            RequirementFormRedirect,
        >(RequirementFormRedirect::ShowRequirement(id))),
        created matches Err(RepoError::BadInput(_)) ==> (r matches Err(
            RequirementFormRedirect::NewRequirement { error: Some(e), created: None },
        ) && e@ == "Invalid data provided"@),
        created is Err && !(created matches Err(RepoError::BadInput(_))) ==> (r matches Err(
            RequirementFormRedirect::NewRequirement { error: Some(e), created: None },
        ) && e@ == "Failed to create requirement"@),
{
    match created {
        Ok(id) => if wants_another(intent) {
            Ok(RequirementFormRedirect::NewRequirement { error: None, created: Some(String::from_str("1")) })
        } else {
            Ok(RequirementFormRedirect::ShowRequirement(id))
        },
        Err(RepoError::BadInput(_)) => Err(invalid_data_redirect()),
        Err(_) => Err(
            RequirementFormRedirect::NewRequirement {
                error: Some(String::from_str("Failed to create requirement")),
                created: None,
            },
        ),
    }
}

/// The reference given to a new requirement when none could be generated:
/// `REQ-UNKNOWN-<timestamp>`.
pub fn fallback_reference(timestamp: i64) -> (r: String)
    ensures
        r@ == "REQ-UNKNOWN-"@ + int_decimal(timestamp as int),
{
    let mut r = String::from_str("REQ-UNKNOWN-");
    push_int(&mut r, timestamp);
    r
}

/// `<reference> - Requirement`, the title of a requirement's page.
pub fn requirement_page_title(reference_code: &str) -> (r: String)
    ensures
        r@ == reference_code@ + " - Requirement"@,
{
    concat(reference_code, " - Requirement")
}

/// A requirement's current state, as its pages show it. Dates are seconds
/// since the Unix epoch.
#[derive(Debug)]
pub struct RequirementRecord {
    pub id: i32,
    pub current_version_id: Option<i32>,
    pub title: String,
    pub description: String,
    pub status_id: i32,
    pub author_id: i32,
    pub reviewer_id: i32,
    pub reference_code: String,
    pub category_id: i32,
    pub applicability_id: i32,
    pub justification: Option<String>,
    pub project_id: i32,
    pub approval_state: String,
    pub approved_by: Option<i32>,
    pub approved_at: Option<i64>,
    pub creation_date: i64,
    pub update_date: i64,
    pub deadline_date: Option<i64>,
}

/// One stored version of a requirement. Dates are seconds since the Unix
/// epoch.
#[derive(Debug)]
pub struct RequirementVersionRecord {
    pub id: i32,
    pub requirement_id: i32,
    pub title: String,
    pub description: String,
    pub status_id: i32,
    pub author_id: i32,
    pub reviewer_id: i32,
    pub category_id: i32,
    pub applicability_id: i32,
    pub justification: Option<String>,
    pub approval_state: String,
    pub approved_by: Option<i32>,
    pub approved_at: Option<i64>,
    pub created_at: i64,
    pub deadline_date: Option<i64>,
}

/// A requirement as one of its versions shows it: the version's content,
/// approval and dates (created and updated when the version was made), with
/// the requirement's identity, current version, reference and project.
pub fn requirement_as_of_version(current: RequirementRecord, version: RequirementVersionRecord) -> (r:
    RequirementRecord)
    ensures
        r.id == current.id,
        r.current_version_id == current.current_version_id,
        r.reference_code == current.reference_code,
        r.project_id == current.project_id,
        r.title == version.title,
        r.description == version.description,
        r.status_id == version.status_id,
        r.author_id == version.author_id,
        r.reviewer_id == version.reviewer_id,
        r.category_id == version.category_id,
        r.applicability_id == version.applicability_id,
        r.justification == version.justification,
        r.approval_state == version.approval_state,
        r.approved_by == version.approved_by,
        r.approved_at == version.approved_at,
        r.creation_date == version.created_at,
        r.update_date == version.created_at,
        r.deadline_date == version.deadline_date,
{
    RequirementRecord {
        id: current.id,
        current_version_id: current.current_version_id,
        title: version.title,
        description: version.description,
        status_id: version.status_id,
        author_id: version.author_id,
        reviewer_id: version.reviewer_id,
        reference_code: current.reference_code,
        category_id: version.category_id,
        applicability_id: version.applicability_id,
        justification: version.justification,
        project_id: current.project_id,
        approval_state: version.approval_state,
        approved_by: version.approved_by,
        approved_at: version.approved_at,
        creation_date: version.created_at,
        update_date: version.created_at,
        deadline_date: version.deadline_date,
    }
}

/// Whether a listed version is the requirement's current one.
pub fn is_current_version(current_version_id: Option<i32>, version_id: i32) -> (r: bool)
    ensures
        r == (current_version_id == Some(version_id)),
{
    match current_version_id {
        Some(c) => c == version_id,
        None => false,
    }
}

/// `<reference> - Requirement (v<version_id>)`, the title of a version's page.
pub fn version_page_title(reference_code: &str, version_id: i32) -> (r: String)
    ensures
        r@ == reference_code@ + " - Requirement (v"@ + int_decimal(version_id as int) + ")"@,
{
    let mut r = concat(reference_code, " - Requirement (v");
    push_int(&mut r, version_id as i64);
    push_str(&mut r, ")");
    r
}

/// Whether a requirement's page shows one of its past versions, and which.
#[derive(Debug)]
pub struct VersionViewing {
    pub viewing_past_version: bool,
    pub viewing_version_id: Option<i32>,
}

/// The version flags of a requirement's page: the page of a version shows
/// it as a past version with its id; the requirement's own page shows no
/// past version.
pub fn version_viewing(version_id: Option<i32>) -> (v: VersionViewing)
    ensures
        v.viewing_past_version == (version_id is Some),
        v.viewing_version_id == version_id,
{
    VersionViewing { viewing_past_version: version_id.is_some(), viewing_version_id: version_id }
}

/// The layouts in which the requirement pages show dates.
#[derive(Clone, Copy, Debug, PartialEq, Eq, Structural)]
pub enum DateStyle {
    /// `2024-01-02 03:04:05`: when a version was made.
    Seconds,
    /// `2024-01-02 03:04`: when a comment was written.
    Minutes,
    /// `2024-01-02 03:04 UTC`: when a requirement or version was approved.
    MinutesUtc,
}

/// The chrono layout of a style.
pub open spec fn date_style_layout(style: DateStyle) -> Seq<char> {
    match style {
        DateStyle::Seconds => "%Y-%m-%d %H:%M:%S"@,
        DateStyle::Minutes => "%Y-%m-%d %H:%M"@,
        DateStyle::MinutesUtc => "%Y-%m-%d %H:%M UTC"@,
    }
}

/// A date (seconds since the Unix epoch) as the requirement pages show it
/// in the style; `None` for seconds that name no date.
pub fn format_date(secs: i64, style: DateStyle) -> (r: Option<String>)
    ensures
        match r {
            Some(t) => utc_datetime_text(secs as int, date_style_layout(style)) == Some(t@),
            None => utc_datetime_text(secs as int, date_style_layout(style)) is None,
        },
{
    proof {
        reveal_strlit("%Y-%m-%d %H:%M:%S");
        reveal_strlit("%Y-%m-%d %H:%M");
        reveal_strlit("%Y-%m-%d %H:%M UTC");
    }
    match style {
        DateStyle::Seconds => format_utc_timestamp(secs, "%Y-%m-%d %H:%M:%S"),
        DateStyle::Minutes => format_utc_timestamp(secs, "%Y-%m-%d %H:%M"),
        DateStyle::MinutesUtc => format_utc_timestamp(secs, "%Y-%m-%d %H:%M UTC"),
    }
}

/// The approval time of a requirement or version as its page shows it
/// (`approved_at_formatted`): none when it was not approved.
pub fn approved_at_formatted(approved_at: Option<i64>) -> (r: Option<String>)
    ensures
        approved_at is None ==> r is None,
        approved_at matches Some(t) ==> (match r {
            Some(s) => utc_datetime_text(t as int, date_style_layout(DateStyle::MinutesUtc)) == Some(s@),
            None => utc_datetime_text(t as int, date_style_layout(DateStyle::MinutesUtc)) is None,
        }),
{
    match approved_at {
        Some(t) => format_date(t, DateStyle::MinutesUtc),
        None => None,
    }
}

/// Who may approve a project's requirements: every administrator, and any
/// user with an owner (1) or manager (2) membership in the project; a user
/// who is not an administrator and holds no such membership may not.
pub proof fn lemma_who_may_approve(is_admin: bool, user_id: i32, members: Seq<Membership>, i: int)
    ensures
        is_admin ==> may_approve(is_admin, user_id, members),
        0 <= i < members.len() && members[i].user_id == user_id && members[i].role == 1 ==> may_approve(
            is_admin,
            user_id,
            members,
        ),
        0 <= i < members.len() && members[i].user_id == user_id && members[i].role == 2 ==> may_approve(
            is_admin,
            user_id,
            members,
        ),
        !is_admin && (forall|j: int|
            0 <= j < members.len() && #[trigger] members[j].user_id == user_id ==> members[j].role != 1
                && members[j].role != 2) ==> !may_approve(is_admin, user_id, members),
{
    if 0 <= i < members.len() && members[i].user_id == user_id && (members[i].role == 1 || members[i].role == 2) {
        assert(members[i].user_id == user_id);
    }
}

proof fn lemma_contains_right<T>(a: Seq<T>, b: Seq<T>, x: T)
    requires
        b.contains(x),
    ensures
        (a + b).contains(x),
{
    let k = choose|k: int| 0 <= k < b.len() && b[k] == x;
    assert((a + b)[a.len() + k] == x);
}

proof fn lemma_contains_left<T>(a: Seq<T>, b: Seq<T>, x: T)
    requires
        a.contains(x),
    ensures
        (a + b).contains(x),
{
    let k = choose|k: int| 0 <= k < a.len() && a[k] == x;
    assert((a + b)[k] == x);
}

/// The pager of the requirement list keeps every filter that is set, and
/// nothing else: each set id filter appears as `name=<id>`, a non-empty
/// view or approval filter as `name=<value>`, non-empty custom filters
/// percent-encoded, one part for each.
pub proof fn lemma_query_keeps_filters(
    view: Option<Seq<char>>,
    status_filter: Option<i32>,
    verification_filter: Option<i32>,
    category_filter: Option<i32>,
    applicability_filter: Option<i32>,
    approval_filter: Option<Seq<char>>,
    custom_filters: Option<Seq<char>>,
)
    ensures
        ({
            let parts = requirements_query_parts(
                view,
                status_filter,
                verification_filter,
                category_filter,
                applicability_filter,
                approval_filter,
                custom_filters,
            );
            &&& view matches Some(v) ==> (v.len() > 0 ==> parts.contains("view="@ + v))
            &&& status_filter matches Some(v) ==> (parts.contains("status_filter="@ + int_decimal(v as int)))
            &&& verification_filter matches Some(v) ==> (parts.contains(
                "verification_filter="@ + int_decimal(v as int),
            ))
            &&& category_filter matches Some(v) ==> (parts.contains("category_filter="@ + int_decimal(v as int)))
            &&& applicability_filter matches Some(v) ==> (parts.contains(
                "applicability_filter="@ + int_decimal(v as int),
            ))
            &&& approval_filter matches Some(v) ==> (v.len() > 0 ==> parts.contains("approval_filter="@ + v))
            &&& custom_filters matches Some(v) ==> (v.len() > 0 ==> parts.contains(
                "custom_filters="@ + url_encoded(v),
            ))
            &&& parts.len() == (if view is Some && view->0.len() > 0 { 1int } else { 0int })
                + (if status_filter is Some { 1int } else { 0int })
                + (if verification_filter is Some { 1int } else { 0int })
                + (if category_filter is Some { 1int } else { 0int })
                + (if applicability_filter is Some { 1int } else { 0int })
                + (if approval_filter is Some && approval_filter->0.len() > 0 { 1int } else { 0int })
                + (if custom_filters is Some && custom_filters->0.len() > 0 { 1int } else { 0int })
        }),
{
    reveal_strlit("view");
    reveal_strlit("view=");
    reveal_strlit("status_filter");
    reveal_strlit("status_filter=");
    reveal_strlit("verification_filter");
    reveal_strlit("verification_filter=");
    reveal_strlit("category_filter");
    reveal_strlit("category_filter=");
    reveal_strlit("applicability_filter");
    reveal_strlit("applicability_filter=");
    reveal_strlit("approval_filter");
    reveal_strlit("approval_filter=");
    reveal_strlit("custom_filters");
    reveal_strlit("custom_filters=");
    reveal_strlit("=");
    let p0 = text_param("view"@, view);
    let p1 = int_param("status_filter"@, status_filter);
    let p2 = int_param("verification_filter"@, verification_filter);
    let p3 = int_param("category_filter"@, category_filter);
    let p4 = int_param("applicability_filter"@, applicability_filter);
    let p5 = text_param("approval_filter"@, approval_filter);
    let p6 = encoded_param("custom_filters"@, custom_filters);
    let all = p0 + p1 + p2 + p3 + p4 + p5 + p6;
    assert forall|x: Seq<char>| p0.contains(x) implies all.contains(x) by {
        lemma_contains_left(p0, p1, x);
        lemma_contains_left(p0 + p1, p2, x);
        lemma_contains_left(p0 + p1 + p2, p3, x);
        lemma_contains_left(p0 + p1 + p2 + p3, p4, x);
        lemma_contains_left(p0 + p1 + p2 + p3 + p4, p5, x);
        lemma_contains_left(p0 + p1 + p2 + p3 + p4 + p5, p6, x);
    }
    assert forall|x: Seq<char>| p1.contains(x) implies all.contains(x) by {
        lemma_contains_right(p0, p1, x);
        lemma_contains_left(p0 + p1, p2, x);
        lemma_contains_left(p0 + p1 + p2, p3, x);
        lemma_contains_left(p0 + p1 + p2 + p3, p4, x);
        lemma_contains_left(p0 + p1 + p2 + p3 + p4, p5, x);
        lemma_contains_left(p0 + p1 + p2 + p3 + p4 + p5, p6, x);
    }
    assert forall|x: Seq<char>| p2.contains(x) implies all.contains(x) by {
        lemma_contains_right(p0 + p1, p2, x);
        lemma_contains_left(p0 + p1 + p2, p3, x);
        lemma_contains_left(p0 + p1 + p2 + p3, p4, x);
        lemma_contains_left(p0 + p1 + p2 + p3 + p4, p5, x);
        lemma_contains_left(p0 + p1 + p2 + p3 + p4 + p5, p6, x);
    }
    assert forall|x: Seq<char>| p3.contains(x) implies all.contains(x) by {
        lemma_contains_right(p0 + p1 + p2, p3, x);
        lemma_contains_left(p0 + p1 + p2 + p3, p4, x);
        lemma_contains_left(p0 + p1 + p2 + p3 + p4, p5, x);
        lemma_contains_left(p0 + p1 + p2 + p3 + p4 + p5, p6, x);
    }
    assert forall|x: Seq<char>| p4.contains(x) implies all.contains(x) by {
        lemma_contains_right(p0 + p1 + p2 + p3, p4, x);
        lemma_contains_left(p0 + p1 + p2 + p3 + p4, p5, x);
        lemma_contains_left(p0 + p1 + p2 + p3 + p4 + p5, p6, x);
    }
    assert forall|x: Seq<char>| p5.contains(x) implies all.contains(x) by {
        lemma_contains_right(p0 + p1 + p2 + p3 + p4, p5, x);
        lemma_contains_left(p0 + p1 + p2 + p3 + p4 + p5, p6, x);
    }
    assert forall|x: Seq<char>| p6.contains(x) implies all.contains(x) by {
        lemma_contains_right(p0 + p1 + p2 + p3 + p4 + p5, p6, x);
    }
    if let Some(v) = view {
        if v.len() > 0 {
            assert(p0[0] == "view"@ + "="@ + v);
            assert("view"@ + "="@ + v =~= "view="@ + v);
            assert(p0.contains("view="@ + v));
        }
    }
    if let Some(v) = status_filter {
        assert("status_filter"@ + "="@ + int_decimal(v as int) =~= "status_filter="@ + int_decimal(v as int));
        assert(p1[0] == "status_filter="@ + int_decimal(v as int));
    }
    if let Some(v) = verification_filter {
        assert("verification_filter"@ + "="@ + int_decimal(v as int) =~= "verification_filter="@ + int_decimal(v as int));
        assert(p2[0] == "verification_filter="@ + int_decimal(v as int));
    }
    if let Some(v) = category_filter {
        assert("category_filter"@ + "="@ + int_decimal(v as int) =~= "category_filter="@ + int_decimal(v as int));
        assert(p3[0] == "category_filter="@ + int_decimal(v as int));
    }
    if let Some(v) = applicability_filter {
        assert("applicability_filter"@ + "="@ + int_decimal(v as int) =~= "applicability_filter="@ + int_decimal(v as int));
        assert(p4[0] == "applicability_filter="@ + int_decimal(v as int));
    }
    if let Some(v) = approval_filter {
        if v.len() > 0 {
            assert("approval_filter"@ + "="@ + v =~= "approval_filter="@ + v);
            assert(p5[0] == "approval_filter="@ + v);
        }
    }
    if let Some(v) = custom_filters {
        if v.len() > 0 {
            assert("custom_filters"@ + "="@ + url_encoded(v) =~= "custom_filters="@ + url_encoded(v));
            assert(p6[0] == "custom_filters="@ + url_encoded(v));
        }
    }
}

} // verus!
