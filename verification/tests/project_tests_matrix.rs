use marreq::routes::html::project::matrix::{MatrixRequirement, MatrixTest};
use marreq::routes::html::project::tests::{
    build_test_matrix, filter_by_linkage, filter_matrix_requirements, matrix_sort_mode,
    order_matrix_tests, routes, sort_matrix_requirements, MatrixRequirementRecord, MatrixSort,
    TestMatrixQuery,
};

fn rec(id: i32, title: &str, reference: &str, status: i32, category: i32) -> MatrixRequirementRecord {
    MatrixRequirementRecord {
        req: MatrixRequirement {
            req_id: id,
            req_title: title.to_string(),
            req_reference: reference.to_string(),
        },
        status,
        category,
        applicability: 1,
    }
}

fn test(id: i32, status: i32) -> MatrixTest {
    MatrixTest {
        test_id: id,
        test_name: format!("T{}", id),
        test_reference: format!("TC-{}", id),
        test_status: status,
    }
}

fn records() -> Vec<MatrixRequirementRecord> {
    vec![
        rec(3, "Login", "REQ-A-3", 1, 7),
        rec(1, "Export", "REQ-B-1", 2, 7),
        rec(12, "Audit log", "REQ-A-12", 1, 8),
        rec(2, "login audit", "REQ-C-2", 1, 7),
    ]
}

fn ids(v: &[MatrixRequirementRecord]) -> Vec<i32> {
    v.iter().map(|r| r.req.req_id).collect()
}

#[test]
fn matrix_filters() {
    assert_eq!(ids(&filter_matrix_requirements(records(), Some(1), None, None, None)), vec![3, 12, 2]);
    assert_eq!(ids(&filter_matrix_requirements(records(), None, Some(7), None, Some("LOGIN"))), vec![3, 2]);
    assert_eq!(ids(&filter_matrix_requirements(records(), None, None, None, Some("12"))), vec![12]);
    assert_eq!(ids(&filter_matrix_requirements(records(), None, None, Some(2), None)), Vec::<i32>::new());
}

#[test]
fn test_columns_ordered_and_filtered() {
    let tests = vec![test(30, 1), test(10, 2), test(20, 1)];
    let all: Vec<i32> = order_matrix_tests(tests.clone(), None).iter().map(|t| t.test_id).collect();
    assert_eq!(all, vec![10, 20, 30]);
    let passed: Vec<i32> = order_matrix_tests(tests, Some(1)).iter().map(|t| t.test_id).collect();
    assert_eq!(passed, vec![20, 30]);
}

#[test]
fn linkage_filter_partitions() {
    let tests = vec![test(10, 1), test(11, 2)];
    let links = vec![(3, 10), (1, 11)];
    let linked = ids(&filter_by_linkage(records(), &tests, None, &links, Some("linked")));
    let unlinked = ids(&filter_by_linkage(records(), &tests, None, &links, Some("unlinked")));
    assert_eq!(linked, vec![3, 1]);
    assert_eq!(unlinked, vec![12, 2]);
    let linked_passed = ids(&filter_by_linkage(records(), &tests, Some(1), &links, Some("linked")));
    assert_eq!(linked_passed, vec![3]);
    assert_eq!(filter_by_linkage(records(), &tests, None, &links, Some("other")).len(), 4);
    assert_eq!(filter_by_linkage(records(), &tests, None, &links, None).len(), 4);
}

#[test]
fn sort_modes() {
    assert_eq!(matrix_sort_mode("test_42"), MatrixSort::TestColumn(42));
    assert_eq!(matrix_sort_mode("test_x"), MatrixSort::Unsorted);
    assert_eq!(matrix_sort_mode("req_title"), MatrixSort::Title);
    assert_eq!(matrix_sort_mode("req_reference"), MatrixSort::Reference);
    assert_eq!(matrix_sort_mode("req_id"), MatrixSort::Id);
    assert_eq!(matrix_sort_mode("anything"), MatrixSort::Id);
}

#[test]
fn matrix_sorting() {
    let links = vec![(12, 5), (1, 5)];
    assert_eq!(ids(&sort_matrix_requirements(records(), MatrixSort::Id, &links, false)), vec![1, 2, 3, 12]);
    assert_eq!(ids(&sort_matrix_requirements(records(), MatrixSort::Id, &links, true)), vec![12, 3, 2, 1]);
    assert_eq!(ids(&sort_matrix_requirements(records(), MatrixSort::Title, &links, false)), vec![12, 1, 3, 2]);
    assert_eq!(ids(&sort_matrix_requirements(records(), MatrixSort::Reference, &links, false)), vec![12, 3, 1, 2]);
    assert_eq!(ids(&sort_matrix_requirements(records(), MatrixSort::TestColumn(5), &links, false)), vec![3, 2, 1, 12]);
    assert_eq!(ids(&sort_matrix_requirements(records(), MatrixSort::TestColumn(5), &links, true)), vec![12, 1, 2, 3]);
    assert_eq!(ids(&sort_matrix_requirements(records(), MatrixSort::Unsorted, &links, true)), vec![3, 1, 12, 2]);
}

fn query() -> TestMatrixQuery {
    TestMatrixQuery {
        sort_by: None,
        sort_order: None,
        test_status_filter: None,
        req_status_filter: None,
        category_filter: None,
        applicability_filter: None,
        linkage_filter: None,
        page: None,
        per_page: None,
        search: None,
    }
}

#[test]
fn test_matrix_first_page() {
    let tests = vec![test(11, 1), test(10, 2)];
    let links = vec![(3, 10), (3, 11), (2, 10)];
    let page = build_test_matrix(records(), tests, &links, &query()).unwrap();
    assert_eq!(page.page, 1);
    assert_eq!(page.per_page, 50);
    assert_eq!(page.total_requirements, 4);
    assert_eq!(page.total_pages, 1);
    assert_eq!(page.sort_by, "req_id");
    assert!(!page.descending);
    let rows: Vec<i32> = page.rows.iter().map(|r| r.req_id).collect();
    assert_eq!(rows, vec![1, 2, 3, 12]);
    let cols: Vec<i32> = page.tests.iter().map(|t| t.test_id).collect();
    assert_eq!(cols, vec![10, 11]);
    assert_eq!(page.total_links, 3);
    let row3: Vec<bool> = page.rows[2].matrix.iter().map(|c| c.linked).collect();
    assert_eq!(row3, vec![true, true]);
    assert_eq!(page.pagination.start_item, 1);
    assert_eq!(page.pagination.end_item, 4);
}

#[test]
fn test_matrix_paging_and_out_of_range() {
    let mut many = Vec::new();
    for i in 0..25 {
        many.push(rec(i + 1, "R", "REQ", 1, 1));
    }
    let mut q = query();
    q.page = Some(3);
    q.per_page = Some(10);
    q.sort_order = Some("desc".to_string());
    let page = build_test_matrix(many, vec![test(1, 1)], &Vec::new(), &q).unwrap();
    assert_eq!(page.total_pages, 3);
    let rows: Vec<i32> = page.rows.iter().map(|r| r.req_id).collect();
    assert_eq!(rows, vec![5, 4, 3, 2, 1]);
    assert_eq!(page.pagination.start_item, 21);
    assert_eq!(page.pagination.end_item, 25);
    let mut far = query();
    far.page = Some(9);
    assert!(build_test_matrix(records(), Vec::new(), &Vec::new(), &far).is_none());
    let mut empty_first = query();
    empty_first.search = Some("no such text".to_string());
    let empty = build_test_matrix(records(), Vec::new(), &Vec::new(), &empty_first).unwrap();
    assert_eq!(empty.total_requirements, 0);
    assert_eq!(empty.total_pages, 0);
    assert!(empty.rows.is_empty());
}

#[test]
fn tests_routes_table() {
    let r = routes();
    assert_eq!(r.len(), 12);
    assert!(r.iter().any(|x| x.uri.contains("matrix.csv")));
}
