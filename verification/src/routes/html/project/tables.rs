use vstd::prelude::*;

use crate::ordering::{in_order, is_stable_order, key_views, stable_sort_by_keys, stably_sorted, text_key};
use crate::route_info::{route, route_view, route_views, Method, RouteInfo, RouteView};
use crate::routes::html::helpers::text_key_of;
use crate::selection::{masked, retain_by_mask};
use crate::text::same_text;

verus! {

/// The routes this module serves, in mounting order: method, path pattern
/// and handler name.
pub open spec fn route_table() -> Seq<RouteView> {
    seq![
        route_view(Method::Get, "/<project_id>/tests_table?<sort_by>&<sort_order>&<status_filter>&<verification_filter>&<category_filter>"@, "show_tests_table"@),
    ]
}

/// The routes of this module, in the order they are mounted.
pub fn routes() -> (r: Vec<RouteInfo>)
    ensures
        route_views(r@) == route_table(),
{
    let mut r: Vec<RouteInfo> = Vec::new();
    r.push(route(Method::Get, "/<project_id>/tests_table?<sort_by>&<sort_order>&<status_filter>&<verification_filter>&<category_filter>", "show_tests_table"));
    assert(route_views(r@) =~= route_table());
    r
}

/// A test as the table view lists it.
#[derive(Debug)]
pub struct TableTest {
    pub test_id: i32,
    pub test_name: String,
    pub test_reference: String,
    pub test_description: String,
    pub test_status_id: i32,
    pub test_source: String,
    pub test_parent_id: Option<i32>,
}

/// The sort key of a test for a column name; unknown columns sort by id.
/// An absent parent sorts before any parent.
pub open spec fn table_key(sort_by: Seq<char>, t: TableTest) -> Seq<i64> {
    if sort_by == "test_name"@ {
        text_key(t.test_name@)
    } else if sort_by == "test_reference"@ {
        text_key(t.test_reference@)
    } else if sort_by == "test_description"@ {
        text_key(t.test_description@)
    } else if sort_by == "test_status"@ {
        seq![t.test_status_id as i64]
    } else if sort_by == "test_source"@ {
        text_key(t.test_source@)
    } else if sort_by == "test_parent"@ {
        match t.test_parent_id {
            Some(p) => seq![1i64, p as i64],
            None => seq![0i64],
        }
    } else {
        seq![t.test_id as i64]
    }
}

/// The sort keys of a list of tests.
pub open spec fn table_keys(sort_by: Seq<char>, tests: Seq<TableTest>) -> Seq<Seq<i64>> {
    tests.map_values(|t: TableTest| table_key(sort_by, t))
}

fn table_key_exec(sort_by: &str, t: &TableTest) -> (k: Vec<i64>)
    ensures
        k@ == table_key(sort_by@, *t),
{
    if same_text(sort_by, "test_name") {
        text_key_of(t.test_name.as_str())
    } else if same_text(sort_by, "test_reference") {
        text_key_of(t.test_reference.as_str())
    } else if same_text(sort_by, "test_description") {
        text_key_of(t.test_description.as_str())
    } else if same_text(sort_by, "test_status") {
        let k = vec![t.test_status_id as i64];
        assert(k@ =~= seq![t.test_status_id as i64]);
        k
    } else if same_text(sort_by, "test_source") {
        text_key_of(t.test_source.as_str())
    } else if same_text(sort_by, "test_parent") {
        match t.test_parent_id {
            Some(p) => {
                let k = vec![1i64, p as i64];
                assert(k@ =~= seq![1i64, p as i64]);
                k
            },
            None => {
                let k = vec![0i64];
                assert(k@ =~= seq![0i64]);
                k
            },
        }
    } else {
        let k = vec![t.test_id as i64];
        assert(k@ =~= seq![t.test_id as i64]);
        k
    }
}

/// Whether each test is in the filtered status.
pub open spec fn table_status_mask(tests: Seq<TableTest>, status_filter: Option<i32>) -> Seq<bool> {
    tests.map_values(
        |t: TableTest|
            match status_filter {
                Some(s) => t.test_status_id == s,
                None => true,
            },
    )
}

/// The table view of a project's tests.
#[derive(Debug)]
pub struct TestsTable {
    pub tests: Vec<TableTest>,
    pub sort_by: String,
    pub sort_order: String,
}

/// The column asked for, `test_id` by default.
pub open spec fn table_sort_by(sort_by: Option<String>) -> Seq<char> {
    match sort_by {
        Some(s) => s@,
        None => "test_id"@,
    }
}

/// The order asked for, `asc` by default.
pub open spec fn table_sort_order(sort_order: Option<String>) -> Seq<char> {
    match sort_order {
        Some(s) => s@,
        None => "asc"@,
    }
}

/// The tests of the table: those in the filtered status, sorted by the
/// column asked for, descending only when the order is exactly `desc`;
/// tests with equal keys keep their order either way.
pub fn show_tests_table(
    tests: Vec<TableTest>,
    sort_by: Option<String>,
    sort_order: Option<String>,
    status_filter: Option<i32>,
) -> (t: TestsTable)
    ensures
        t.sort_by@ == table_sort_by(sort_by),
        t.sort_order@ == table_sort_order(sort_order),
        stably_sorted(
            t.tests@,
            masked(tests@, table_status_mask(tests@, status_filter)),
            table_keys(table_sort_by(sort_by), masked(tests@, table_status_mask(tests@, status_filter))),
            table_sort_order(sort_order) == "desc"@,
        ),
{
    let ghost input_view = tests@;
    let mut keep: Vec<bool> = Vec::new();
    let mut i: usize = 0;
    while i < tests.len()
        invariant
            i <= tests@.len(),
            keep@ == table_status_mask(tests@, status_filter).take(i as int),
        decreases tests.len() - i,
    {
        let ok = match status_filter {
            Some(s) => tests[i].test_status_id == s,
            None => true,
        };
        keep.push(ok);
        i = i + 1;
        assert(keep@ =~= table_status_mask(tests@, status_filter).take(i as int));
    }
    assert(keep@ =~= table_status_mask(tests@, status_filter));
    let filtered = retain_by_mask(tests, &keep);
    let sort_by = match sort_by {
        Some(s) => s,
        None => String::from_str("test_id"),
    };
    let sort_order = match sort_order {
        Some(s) => s,
        None => String::from_str("asc"),
    };
    let ghost want = table_keys(sort_by@, filtered@);
    let mut keys: Vec<Vec<i64>> = Vec::new();
    let mut k: usize = 0;
    while k < filtered.len()
        invariant
            k <= filtered@.len(),
            want == table_keys(sort_by@, filtered@),
            keys@.len() == k,
            key_views(keys@) == want.take(k as int),
        decreases filtered.len() - k,
    {
        let key = table_key_exec(sort_by.as_str(), &filtered[k]);
        let ghost before = keys@;
        keys.push(key);
        k = k + 1;
        proof {
            assert forall|j: int| 0 <= j < k implies #[trigger] key_views(keys@)[j] == want[j] by {
                if j < k - 1 {
                    assert(keys@[j] == before[j]);
                    assert(key_views(before)[j] == before[j]@);
                    assert(want.take(k - 1)[j] == want[j]);
                }
            }
            assert(key_views(keys@) =~= want.take(k as int));
        }
    }
    assert(want.take(k as int) =~= want);
    let descending = same_text(sort_order.as_str(), "desc");
    let sorted = stable_sort_by_keys(filtered, keys, descending);
    TestsTable { tests: sorted, sort_by, sort_order }
}

proof fn lemma_single_key_order(a: int, b: int, x: i64, y: i64, descending: bool)
    requires
        a == x,
        b == y,
        in_order(seq![x], seq![y], descending),
    ensures
        descending ==> a >= b,
        !descending ==> a <= b,
{
    if x == y {
    } else {
        assert(seq![x][0] == x && seq![y][0] == y);
    }
}

/// Sorting the tests table by `test_status` orders the tests by status id:
/// ascending, each test's status id is at most the next one's; descending,
/// at least.
pub proof fn lemma_status_sort_orders_by_status(r: Seq<TableTest>, items: Seq<TableTest>, descending: bool)
    requires
        stably_sorted(r, items, table_keys("test_status"@, items), descending),
    ensures
        forall|i: int, j: int|
            0 <= i < j < r.len() ==> (if descending {
                #[trigger] r[i].test_status_id >= #[trigger] r[j].test_status_id
            } else {
                r[i].test_status_id <= r[j].test_status_id
            }),
{
    reveal_strlit("test_status");
    reveal_strlit("test_name");
    reveal_strlit("test_reference");
    reveal_strlit("test_description");
    assert("test_status"@.len() == 11 && "test_name"@.len() == 9);
    assert("test_status"@ != "test_name"@);
    assert("test_status"@.len() == 11 && "test_reference"@.len() == 14);
    assert("test_status"@ != "test_reference"@);
    assert("test_status"@.len() == 11 && "test_description"@.len() == 16);
    assert("test_status"@ != "test_description"@);
    let keys = table_keys("test_status"@, items);
    let order = choose|order: Seq<int>|
        #[trigger] is_stable_order(order, keys, descending) && r == order.map_values(|i: int| items[i]);
    assert forall|i: int, j: int| 0 <= i < j < r.len() implies (if descending {
        #[trigger] r[i].test_status_id >= #[trigger] r[j].test_status_id
    } else {
        r[i].test_status_id <= r[j].test_status_id
    }) by {
        let a = items[order[i]];
        let b = items[order[j]];
        assert(0 <= order[i] < keys.len() && 0 <= order[j] < keys.len());
        assert(r[i] == a && r[j] == b);
        assert(keys[order[i]] == table_key("test_status"@, a));
        assert(keys[order[j]] == table_key("test_status"@, b));
        assert(keys[order[i]] == seq![a.test_status_id as i64]);
        assert(keys[order[j]] == seq![b.test_status_id as i64]);
        lemma_single_key_order(a.test_status_id as int, b.test_status_id as int, a.test_status_id as i64, b.test_status_id as i64, descending);
    }
}

/// Sorting the tests table by `test_id` orders the tests by id: ascending,
/// each test's id is at most the next one's; descending, at least.
pub proof fn lemma_id_sort_orders_by_id(r: Seq<TableTest>, items: Seq<TableTest>, descending: bool)
    requires
        stably_sorted(r, items, table_keys("test_id"@, items), descending),
    ensures
        forall|i: int, j: int|
            0 <= i < j < r.len() ==> (if descending {
                #[trigger] r[i].test_id >= #[trigger] r[j].test_id
            } else {
                r[i].test_id <= r[j].test_id
            }),
{
    reveal_strlit("test_id");
    reveal_strlit("test_status");
    reveal_strlit("test_name");
    reveal_strlit("test_reference");
    reveal_strlit("test_description");
    reveal_strlit("test_source");
    reveal_strlit("test_parent");
    assert("test_id"@.len() == 7 && "test_name"@.len() == 9);
    assert("test_id"@ != "test_name"@);
    assert("test_id"@.len() == 7 && "test_reference"@.len() == 14);
    assert("test_id"@ != "test_reference"@);
    assert("test_id"@.len() == 7 && "test_description"@.len() == 16);
    assert("test_id"@ != "test_description"@);
    assert("test_id"@.len() == 7 && "test_status"@.len() == 11);
    assert("test_id"@ != "test_status"@);
    assert("test_id"@.len() == 7 && "test_source"@.len() == 11);
    assert("test_id"@ != "test_source"@);
    assert("test_id"@.len() == 7 && "test_parent"@.len() == 11);
    assert("test_id"@ != "test_parent"@);
    let keys = table_keys("test_id"@, items);
    let order = choose|order: Seq<int>|
        #[trigger] is_stable_order(order, keys, descending) && r == order.map_values(|i: int| items[i]);
    assert forall|i: int, j: int| 0 <= i < j < r.len() implies (if descending {
        #[trigger] r[i].test_id >= #[trigger] r[j].test_id
    } else {
        r[i].test_id <= r[j].test_id
    }) by {
        let a = items[order[i]];
        let b = items[order[j]];
        assert(0 <= order[i] < keys.len() && 0 <= order[j] < keys.len());
        assert(r[i] == a && r[j] == b);
        assert(keys[order[i]] == table_key("test_id"@, a));
        assert(keys[order[j]] == table_key("test_id"@, b));
        assert(keys[order[i]] == seq![a.test_id as i64]);
        assert(keys[order[j]] == seq![b.test_id as i64]);
        lemma_single_key_order(a.test_id as int, b.test_id as int, a.test_id as i64, b.test_id as i64, descending);
    }
}

proof fn lemma_column_keys_in_order(r: Seq<TableTest>, items: Seq<TableTest>, col: Seq<char>, descending: bool)
    requires
        stably_sorted(r, items, table_keys(col, items), descending),
    ensures
        forall|i: int, j: int|
            0 <= i < j < r.len() ==> in_order(table_key(col, #[trigger] r[i]), table_key(col, #[trigger] r[j]), descending),
{
    let keys = table_keys(col, items);
    let order = choose|order: Seq<int>|
        #[trigger] is_stable_order(order, keys, descending) && r == order.map_values(|i: int| items[i]);
    assert forall|i: int, j: int| 0 <= i < j < r.len() implies in_order(
        table_key(col, #[trigger] r[i]),
        table_key(col, #[trigger] r[j]),
        descending,
    ) by {
        assert(0 <= order[i] < keys.len() && 0 <= order[j] < keys.len());
        assert(r[i] == items[order[i]] && r[j] == items[order[j]]);
        assert(keys[order[i]] == table_key(col, items[order[i]]));
        assert(keys[order[j]] == table_key(col, items[order[j]]));
    }
}

/// Sorting the tests table by a text column (`test_name`, `test_reference`,
/// `test_description` or `test_source`) orders the tests by that text, code
/// point by code point: ascending, each test's text comes no later than the
/// next one's; descending, no earlier.
pub proof fn lemma_text_sort_orders_by_text(r: Seq<TableTest>, items: Seq<TableTest>, descending: bool)
    ensures
        stably_sorted(r, items, table_keys("test_name"@, items), descending) ==> forall|i: int, j: int|
            0 <= i < j < r.len() ==> in_order(
                text_key((#[trigger] r[i]).test_name@),
                text_key((#[trigger] r[j]).test_name@),
                descending,
            ),
        stably_sorted(r, items, table_keys("test_reference"@, items), descending) ==> forall|i: int, j: int|
            0 <= i < j < r.len() ==> in_order(
                text_key((#[trigger] r[i]).test_reference@),
                text_key((#[trigger] r[j]).test_reference@),
                descending,
            ),
        stably_sorted(r, items, table_keys("test_description"@, items), descending) ==> forall|i: int, j: int|
            0 <= i < j < r.len() ==> in_order(
                text_key((#[trigger] r[i]).test_description@),
                text_key((#[trigger] r[j]).test_description@),
                descending,
            ),
        stably_sorted(r, items, table_keys("test_source"@, items), descending) ==> forall|i: int, j: int|
            0 <= i < j < r.len() ==> in_order(
                text_key((#[trigger] r[i]).test_source@),
                text_key((#[trigger] r[j]).test_source@),
                descending,
            ),
{
    reveal_strlit("test_name");
    reveal_strlit("test_reference");
    reveal_strlit("test_description");
    reveal_strlit("test_status");
    reveal_strlit("test_source");
    assert("test_reference"@.len() == 14 && "test_name"@.len() == 9);
    assert("test_description"@.len() == 16 && "test_status"@.len() == 11 && "test_source"@.len() == 11);
    assert("test_reference"@ != "test_name"@);
    assert("test_description"@ != "test_name"@ && "test_description"@ != "test_reference"@);
    assert("test_source"@ != "test_name"@ && "test_source"@ != "test_reference"@ && "test_source"@ != "test_description"@);
    assert("test_source"@[5] == 's' && "test_status"@[5] == 's' && "test_source"@[6] == 'o' && "test_status"@[6] == 't');
    assert("test_source"@ != "test_status"@);
    if stably_sorted(r, items, table_keys("test_name"@, items), descending) {
        lemma_column_keys_in_order(r, items, "test_name"@, descending);
    }
    if stably_sorted(r, items, table_keys("test_reference"@, items), descending) {
        lemma_column_keys_in_order(r, items, "test_reference"@, descending);
    }
    if stably_sorted(r, items, table_keys("test_description"@, items), descending) {
        lemma_column_keys_in_order(r, items, "test_description"@, descending);
    }
    if stably_sorted(r, items, table_keys("test_source"@, items), descending) {
        lemma_column_keys_in_order(r, items, "test_source"@, descending);
    }
}

/// Sorting the tests table by `test_parent` puts tests without a parent
/// first (last when descending) and orders the others by parent id.
pub proof fn lemma_parent_sort_orders_by_parent(r: Seq<TableTest>, items: Seq<TableTest>, descending: bool)
    requires
        stably_sorted(r, items, table_keys("test_parent"@, items), descending),
    ensures
        forall|i: int, j: int|
            0 <= i < j < r.len() ==> (if descending {
                (#[trigger] r[i]).test_parent_id is None ==> (#[trigger] r[j]).test_parent_id is None
            } else {
                (#[trigger] r[j]).test_parent_id is None ==> (#[trigger] r[i]).test_parent_id is None
            }),
        forall|i: int, j: int|
            0 <= i < j < r.len() && (#[trigger] r[i]).test_parent_id is Some && (#[trigger] r[j]).test_parent_id is Some
                ==> (if descending {
                r[i].test_parent_id->0 >= r[j].test_parent_id->0
            } else {
                r[i].test_parent_id->0 <= r[j].test_parent_id->0
            }),
{
    reveal_strlit("test_name");
    reveal_strlit("test_reference");
    reveal_strlit("test_description");
    reveal_strlit("test_status");
    reveal_strlit("test_source");
    reveal_strlit("test_parent");
    assert("test_parent"@.len() == 11 && "test_name"@.len() == 9 && "test_reference"@.len() == 14);
    assert("test_description"@.len() == 16 && "test_status"@.len() == 11 && "test_source"@.len() == 11);
    assert("test_parent"@[5] == 'p' && "test_status"@[5] == 's' && "test_source"@[5] == 's');
    assert("test_parent"@ != "test_name"@ && "test_parent"@ != "test_reference"@ && "test_parent"@ != "test_description"@);
    assert("test_parent"@ != "test_status"@ && "test_parent"@ != "test_source"@);
    lemma_column_keys_in_order(r, items, "test_parent"@, descending);
    assert forall|i: int, j: int| 0 <= i < j < r.len() implies (if descending {
        (#[trigger] r[i]).test_parent_id is None ==> (#[trigger] r[j]).test_parent_id is None
    } else {
        (#[trigger] r[j]).test_parent_id is None ==> (#[trigger] r[i]).test_parent_id is None
    }) && (r[i].test_parent_id is Some && r[j].test_parent_id is Some ==> (if descending {
        r[i].test_parent_id->0 >= r[j].test_parent_id->0
    } else {
        r[i].test_parent_id->0 <= r[j].test_parent_id->0
    })) by {
        let ki = table_key("test_parent"@, r[i]);
        let kj = table_key("test_parent"@, r[j]);
        assert(in_order(ki, kj, descending));
        reveal_with_fuel(crate::ordering::seq_le, 3);
        match (r[i].test_parent_id, r[j].test_parent_id) {
            (Some(p), Some(q)) => {
                assert(ki =~= seq![1i64, p as i64]);
                assert(kj =~= seq![1i64, q as i64]);
                assert(ki.drop_first() =~= seq![p as i64]);
                assert(kj.drop_first() =~= seq![q as i64]);
                assert(ki.drop_first().drop_first() =~= Seq::<i64>::empty());
                assert(kj.drop_first().drop_first() =~= Seq::<i64>::empty());
            },
            (Some(p), None) => {
                assert(ki =~= seq![1i64, p as i64]);
                assert(kj =~= seq![0i64]);
            },
            (None, Some(q)) => {
                assert(ki =~= seq![0i64]);
                assert(kj =~= seq![1i64, q as i64]);
            },
            (None, None) => {},
        }
    }
}

/// Every test in the tests table is in the status filtered for, when a
/// status is filtered for.
pub proof fn lemma_table_keeps_filtered_status(
    r: Seq<TableTest>,
    tests: Seq<TableTest>,
    status_filter: Option<i32>,
    col: Seq<char>,
    descending: bool,
)
    requires
        stably_sorted(
            r,
            masked(tests, table_status_mask(tests, status_filter)),
            table_keys(col, masked(tests, table_status_mask(tests, status_filter))),
            descending,
        ),
    ensures
        status_filter matches Some(s) ==> (forall|j: int| 0 <= j < r.len() ==> (#[trigger] r[j]).test_status_id == s),
{
    let kept = masked(tests, table_status_mask(tests, status_filter));
    crate::ordering::lemma_stably_sorted_rearranges(r, kept, table_keys(col, kept), descending);
    if let Some(s) = status_filter {
        assert forall|j: int| 0 <= j < r.len() implies (#[trigger] r[j]).test_status_id == s by {
            crate::selection::lemma_masked_members(tests, table_status_mask(tests, status_filter), r[j]);
        }
    }
}

} // verus!
