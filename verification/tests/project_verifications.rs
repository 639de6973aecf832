use marreq::models::TestStatusKind;
use marreq::routes::html::project::verifications::{
    build_verifications_query, delete_test_decision, edit_test_panel_path, edit_test_path,
    new_test_path, nonzero_id, page_items, project_test_statuses, rank_key_vec,
    redirect_for_test_project, search_tests, split_by_mask, status_title_or_number,
    test_deletable, test_detail_path, test_metrics, verification_version_redirect, verifications_page,
    verifications_list_path, verifications_list_redirect, DeleteTestDecision, TestListItem,
    VerificationStatus, VERIFICATIONS_PER_PAGE, baseline_test_page_title, delete_failure_status,
    edit_test_page_title, edit_verification_payload, link_failure_message, new_test_links,
    new_test_page_title, new_verification_payload, status_choices, status_update_payload,
    EditVerificationForm, NewMatrixLink, NewVerificationForm, Verification,
};
use marreq::models::RepoError;
use marreq::routes::html::project::requirements::ErrorStatus;

#[test]
fn verification_paths() {
    assert_eq!(verifications_list_path("alpha"), "/p/alpha/verifications");
    assert_eq!(verifications_list_redirect("alpha"), "/p/alpha/verifications");
    assert_eq!(test_detail_path("alpha", 3), "/p/alpha/verifications/show/3");
    assert_eq!(edit_test_path("alpha", 3), "/p/alpha/verifications/edit/3");
    assert_eq!(edit_test_panel_path("alpha", 3), "/p/alpha/verifications/edit-panel/3");
    assert_eq!(new_test_path("alpha", None), "/p/alpha/verifications/new");
    assert_eq!(new_test_path("alpha", Some("")), "/p/alpha/verifications/new");
    assert_eq!(
        new_test_path("alpha", Some("Name required!")),
        "/p/alpha/verifications/new?error=Name%20required%21"
    );
    assert_eq!(redirect_for_test_project(1, 1, "alpha", 3), None);
    assert_eq!(
        redirect_for_test_project(1, 2, "beta", 3),
        Some("/p/beta/verifications/show/3".to_string())
    );
    assert_eq!(VERIFICATIONS_PER_PAGE, 25);
}

#[test]
fn verifications_query() {
    assert_eq!(
        build_verifications_query(Some(1), None, Some(4), Some("a&b")),
        "status_filter=1&category_filter=4&search=a%26b"
    );
    assert_eq!(build_verifications_query(None, None, None, Some("")), "");
}

fn status(id: i32, title: &str) -> VerificationStatus {
    VerificationStatus { id, title: title.to_string(), tag_color: None }
}

#[test]
fn known_statuses_first_by_rank() {
    let statuses = vec![
        status(9, "Custom B"),
        status(2, "Failed"),
        status(7, "Custom A"),
        status(1, "Passed"),
        status(4, "In Progress"),
    ];
    let ranks = vec![None, Some(1), None, Some(0), Some(2)];
    let keys = rank_key_vec(&ranks);
    assert_eq!(keys, vec![vec![1], vec![0], vec![2]]);
    let ordered: Vec<i32> = project_test_statuses(statuses, &ranks).iter().map(|s| s.id).collect();
    assert_eq!(ordered, vec![1, 2, 4, 7, 9]);
}

#[test]
fn split_by_mask_keeps_order() {
    let (a, b) = split_by_mask(vec![1, 2, 3, 4], &vec![true, false, true, false], &vec![false, true, false, true]);
    assert_eq!(a, vec![1, 3]);
    assert_eq!(b, vec![2, 4]);
}

#[test]
fn metrics_count_kinds() {
    let kinds = vec![
        Some(TestStatusKind::Passed),
        Some(TestStatusKind::Passed),
        Some(TestStatusKind::Failed),
        Some(TestStatusKind::Pending),
        Some(TestStatusKind::InProgress),
        None,
    ];
    let m = test_metrics(&kinds);
    assert_eq!(m.total, 6);
    assert_eq!(m.passed, 2);
    assert_eq!(m.failed, 1);
    assert_eq!(m.pending, 1);
    assert_eq!(m.in_progress, 1);
    assert_eq!(m.other, 1);
    assert_eq!(m.pass_rate_percent, 33);
    assert_eq!(m.passed + m.failed + m.pending + m.in_progress + m.other, m.total);
    let none = test_metrics(&Vec::new());
    assert_eq!(none.total, 0);
    assert_eq!(none.pass_rate_percent, 0);
    let all = test_metrics(&vec![Some(TestStatusKind::Passed); 3]);
    assert_eq!(all.pass_rate_percent, 100);
}

fn item(id: i32, name: &str, description: &str, reference: &str) -> TestListItem {
    TestListItem {
        id,
        name: name.to_string(),
        description: description.to_string(),
        reference: reference.to_string(),
        status_id: 1,
    }
}

#[test]
fn search_is_case_insensitive() {
    let items = || {
        vec![
            item(1, "Login Flow", "", "TC-1"),
            item(2, "Export", "checks the LOGIN page", "TC-2"),
            item(3, "Ärger", "", "TC-3"),
            item(4, "Other", "", "tc-login"),
        ]
    };
    let hits: Vec<i32> = search_tests(items(), Some("login")).iter().map(|t| t.id).collect();
    assert_eq!(hits, vec![1, 2, 4]);
    let umlaut: Vec<i32> = search_tests(items(), Some("ÄRG")).iter().map(|t| t.id).collect();
    assert_eq!(umlaut, vec![3]);
    assert_eq!(search_tests(items(), None).len(), 4);
    assert_eq!(search_tests(items(), Some("")).len(), 4);
}

#[test]
fn page_items_window() {
    assert_eq!(page_items(vec![1, 2, 3, 4, 5], 2, 2), vec![3, 4]);
    assert_eq!(page_items(vec![1, 2, 3], 2, 5), vec![3]);
    assert!(page_items(vec![1, 2, 3], 7, 5).is_empty());
}

#[test]
fn delete_rules() {
    assert!(test_deletable(Some(TestStatusKind::Passed), false));
    assert!(test_deletable(Some(TestStatusKind::Failed), false));
    assert!(!test_deletable(Some(TestStatusKind::Pending), false));
    assert!(!test_deletable(None, false));
    assert!(test_deletable(None, true));
    assert_eq!(delete_test_decision(1, 2, Some(TestStatusKind::Passed), true), DeleteTestDecision::RedirectToOwnerList);
    assert_eq!(delete_test_decision(1, 1, Some(TestStatusKind::Pending), false), DeleteTestDecision::Forbidden);
    assert_eq!(delete_test_decision(1, 1, Some(TestStatusKind::Pending), true), DeleteTestDecision::Delete);
}

#[test]
fn small_helpers() {
    assert_eq!(nonzero_id(Some(0)), None);
    assert_eq!(nonzero_id(Some(3)), Some(3));
    assert_eq!(nonzero_id(None), None);
    assert_eq!(status_title_or_number(Some("Open".to_string()), 2), "Open");
    assert_eq!(status_title_or_number(None, 2), "Status #2");
    assert_eq!(
        verification_version_redirect("a", 1, None, true, 7),
        Some("/p/a/baselines".to_string())
    );
    assert_eq!(
        verification_version_redirect("a", 1, Some(2), true, 7),
        Some("/p/a/baselines".to_string())
    );
    assert_eq!(
        verification_version_redirect("a", 1, Some(1), false, 7),
        Some("/p/a/verifications/show/7".to_string())
    );
    assert_eq!(verification_version_redirect("a", 1, Some(1), true, 7), None);
}

#[test]
fn new_test_payload_uses_route_project() {
    let form = NewVerificationForm {
        name: "Boot".to_string(),
        description: "d".to_string(),
        source: "manual".to_string(),
        status_id: 3,
        reference_code: "TC-1".to_string(),
        parent_id: Some(0),
        verification_method_id: Some(4),
        verification_req: vec![7, 8],
    };
    let p = new_verification_payload(&form, 12);
    assert_eq!(p.id, None);
    assert_eq!(p.project_id, 12);
    assert_eq!(p.parent_id, None);
    assert_eq!(p.verification_method_id, Some(4));
    assert_eq!(p.name, "Boot");
    let links = new_test_links(&form.verification_req, 99, 12);
    assert_eq!(
        links,
        vec![
            NewMatrixLink { req_id: 7, verification_id: 99, project_id: 12 },
            NewMatrixLink { req_id: 8, verification_id: 99, project_id: 12 },
        ]
    );
    assert_eq!(
        link_failure_message(&RepoError::CrossProjectViolation("req 7".to_string())),
        "Cannot link requirement across projects: req 7"
    );
    assert_eq!(link_failure_message(&RepoError::NotFound), "Failed to link requirements");
}

#[test]
fn edit_and_status_payloads() {
    let form = EditVerificationForm {
        id: 5,
        name: "N".to_string(),
        description: "D".to_string(),
        source: "S".to_string(),
        status_id: 2,
        reference_code: "TC-5".to_string(),
        parent_id: Some(3),
        project_id: 9,
        verification_method_id: Some(0),
        linked_requirements: vec![1],
    };
    let p = edit_verification_payload(&form);
    assert_eq!(p.id, Some(5));
    assert_eq!(p.parent_id, Some(3));
    assert_eq!(p.verification_method_id, None);
    assert_eq!(p.project_id, 9);
    let stored = Verification {
        id: 5,
        name: "N".to_string(),
        description: "D".to_string(),
        source: "S".to_string(),
        status_id: 2,
        reference_code: "TC-5".to_string(),
        parent_id: None,
        project_id: 9,
        verification_method_id: Some(1),
    };
    let u = status_update_payload(stored, 4);
    assert_eq!(u.status_id, 4);
    assert_eq!(u.id, Some(5));
    assert_eq!(u.verification_method_id, Some(1));
    assert_eq!(delete_failure_status(&RepoError::NotFound), ErrorStatus::NotFound);
    assert_eq!(
        delete_failure_status(&RepoError::BadInput("x".to_string())),
        ErrorStatus::InternalServerError
    );
}

#[test]
fn new_test_page_parts() {
    let statuses = vec![status(1, "Passed"), status(3, "Pending"), status(4, "pending")];
    let choices = status_choices(&statuses, "Pending");
    let selected: Vec<bool> = choices.iter().map(|c| c.selected).collect();
    assert_eq!(selected, vec![false, true, false]);
    assert_eq!(choices[1].id, 3);
    assert_eq!(new_test_page_title(Some("Alpha")), "New Test - Alpha");
    assert_eq!(new_test_page_title(None), "New Test");
    assert_eq!(edit_test_page_title("TC-5"), "Edit TC-5 - Test");
    assert_eq!(baseline_test_page_title("TC-5"), "TC-5 (baseline) - Test");
}

#[test]
fn verification_list_pages() {
    let items: Vec<i32> = (0..60).collect();
    let (w, shown) = verifications_page(items.clone(), Some(3));
    assert_eq!(w.total_count, 60);
    assert_eq!(w.total_pages, 3);
    assert_eq!(w.current_page, 3);
    assert_eq!(w.offset, 50);
    assert_eq!(shown, (50..60).collect::<Vec<i32>>());
    let (w, shown) = verifications_page(items.clone(), Some(9));
    assert_eq!(w.current_page, 3);
    assert_eq!(shown.len(), 10);
    let (w, shown) = verifications_page(items, None);
    assert_eq!(w.current_page, 1);
    assert_eq!(shown, (0..25).collect::<Vec<i32>>());
    let (w, shown) = verifications_page(Vec::<i32>::new(), Some(0));
    assert_eq!(w.total_pages, 1);
    assert_eq!(w.current_page, 1);
    assert!(shown.is_empty());
}
