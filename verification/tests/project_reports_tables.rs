use marreq::routes::html::project::reports::{compute_metrics, tally_names, NameCount};
use marreq::routes::html::project::tables::{show_tests_table, TableTest};

fn sorted(t: Vec<NameCount>) -> Vec<(String, i32)> {
    let mut v: Vec<(String, i32)> = t.into_iter().map(|n| (n.name, n.count)).collect();
    v.sort();
    v
}

fn strings(v: &[&str]) -> Vec<String> {
    v.iter().map(|s| s.to_string()).collect()
}

#[test]
fn tally_counts_each_name_once() {
    let names = strings(&["Open", "Done", "Open", "Open", "Blocked"]);
    assert_eq!(
        sorted(tally_names(&names)),
        vec![("Blocked".to_string(), 1), ("Done".to_string(), 1), ("Open".to_string(), 3)]
    );
    assert!(tally_names(&Vec::new()).is_empty());
}

#[test]
fn report_counts() {
    let m = compute_metrics(
        &strings(&["Draft", "Approved", "Draft"]),
        &strings(&["Passed", "Failed"]),
        &strings(&["Safety", "Safety", "UI"]),
        &vec![0, 3, 1],
        4,
        9,
    );
    assert_eq!(m.users_len, 9);
    assert_eq!(m.total_requirements, 3);
    assert_eq!(m.total_tests, 2);
    assert_eq!(m.total_categories, 4);
    assert_eq!(m.covered_requirements, 2);
    assert_eq!(m.total_links, 4);
    assert_eq!(m.recent_requirements, 3);
    assert_eq!(m.recent_tests, 2);
    assert_eq!(
        sorted(m.requirements_by_status),
        vec![("Approved".to_string(), 1), ("Draft".to_string(), 2)]
    );
    assert_eq!(
        sorted(m.requirements_by_category),
        vec![("Safety".to_string(), 2), ("UI".to_string(), 1)]
    );
    assert_eq!(sorted(m.tests_by_status).len(), 2);
}

fn table_test(id: i32, name: &str, status: i32, parent: Option<i32>) -> TableTest {
    TableTest {
        test_id: id,
        test_name: name.to_string(),
        test_reference: format!("TC-{}", id),
        test_description: String::new(),
        test_status_id: status,
        test_source: "manual".to_string(),
        test_parent_id: parent,
    }
}

fn table() -> Vec<TableTest> {
    vec![
        table_test(3, "beta", 1, Some(9)),
        table_test(1, "alpha", 2, None),
        table_test(2, "beta", 1, Some(4)),
        table_test(4, "Gamma", 1, None),
    ]
}

fn ids(t: &[TableTest]) -> Vec<i32> {
    t.iter().map(|x| x.test_id).collect()
}

#[test]
fn tests_table_sorting() {
    let by_id = show_tests_table(table(), None, None, None);
    assert_eq!(by_id.sort_by, "test_id");
    assert_eq!(by_id.sort_order, "asc");
    assert_eq!(ids(&by_id.tests), vec![1, 2, 3, 4]);
    let by_name = show_tests_table(table(), Some("test_name".to_string()), None, None);
    assert_eq!(ids(&by_name.tests), vec![4, 1, 3, 2]);
    let by_name_desc =
        show_tests_table(table(), Some("test_name".to_string()), Some("desc".to_string()), None);
    assert_eq!(ids(&by_name_desc.tests), vec![3, 2, 1, 4]);
    let by_parent = show_tests_table(table(), Some("test_parent".to_string()), None, None);
    assert_eq!(ids(&by_parent.tests), vec![1, 4, 2, 3]);
    let filtered = show_tests_table(table(), Some("unknown".to_string()), None, Some(1));
    assert_eq!(ids(&filtered.tests), vec![2, 3, 4]);
    assert_eq!(filtered.sort_by, "unknown");
}
