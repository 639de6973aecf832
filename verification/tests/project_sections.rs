use marreq::routes::html::project::applicability::{
    applicability_delete_decision, applicability_edit_redirect, applicability_list_path,
    edit_applicability_title,
};
use marreq::routes::html::project::categories::{
    category_delete_decision, category_edit_redirect, category_list_path, edit_category_title,
};
use marreq::routes::html::project::ownership::{
    delete_decision, edit_page_title, edit_redirect, optional_color, record_access, section_path,
    slug_edit_redirect, slug_section_path, DeleteOutcome, RecordAccess,
};
use marreq::routes::html::project::requirement_statuses::{
    edit_requirement_status_path, edit_requirement_status_title, requirement_status_edit_redirect,
    requirement_statuses_path,
};
use marreq::routes::html::project::verifications::VerificationStatus;
use marreq::routes::html::project::test_cases::{
    canonical_test_statuses,
    status_update_check, test_page_title, tests_list_path, tests_page_title, StatusUpdateRefusal,
};
use marreq::routes::html::project::verification::{
    edit_verification_title, verification_delete_decision, verification_edit_redirect,
    verification_list_path,
};
use marreq::routes::html::project::verification_statuses::{
    edit_verification_status_title, verification_status_delete_decision,
    verification_status_edit_redirect, verification_status_list_path,
};

#[test]
fn record_access_order() {
    assert_eq!(record_access(1, None, true), RecordAccess::Missing);
    assert_eq!(record_access(1, Some(2), true), RecordAccess::OtherProject(2));
    assert_eq!(record_access(1, Some(1), true), RecordAccess::SystemRecord);
    assert_eq!(record_access(1, Some(1), false), RecordAccess::Allowed);
}

#[test]
fn section_paths_and_titles() {
    assert_eq!(section_path(3, "categories"), "/p/3/categories");
    assert_eq!(slug_section_path("alpha", "requirement_statuses"), "/alpha/requirement_statuses");
    assert_eq!(edit_page_title("Safety", "Category"), "Edit Safety - Category");
    assert_eq!(optional_color(Some(String::new())), None);
    assert_eq!(optional_color(Some("#fff".to_string())).as_deref(), Some("#fff"));
    assert_eq!(optional_color(None), None);
}

#[test]
fn edit_redirects() {
    assert_eq!(edit_redirect(1, None, false, "categories").as_deref(), Some("/p/1/categories"));
    assert_eq!(edit_redirect(1, Some(5), false, "categories").as_deref(), Some("/p/5/categories"));
    assert_eq!(edit_redirect(1, Some(1), true, "categories").as_deref(), Some("/p/1/categories"));
    assert_eq!(edit_redirect(1, Some(1), false, "categories"), None);
    assert_eq!(
        slug_edit_redirect(1, "alpha", Some(2), "beta", false, "requirement_statuses").as_deref(),
        Some("/beta/requirement_statuses")
    );
    assert_eq!(
        slug_edit_redirect(1, "alpha", Some(1), "alpha", true, "requirement_statuses").as_deref(),
        Some("/alpha/requirement_statuses")
    );
    assert_eq!(slug_edit_redirect(1, "alpha", Some(1), "alpha", false, "x"), None);
}

#[test]
fn delete_decisions() {
    assert!(matches!(delete_decision(1, None, "categories"), DeleteOutcome::NotFound));
    match delete_decision(1, Some(4), "categories") {
        DeleteOutcome::Redirect(p) => assert_eq!(p, "/p/4/categories"),
        other => panic!("unexpected {:?}", other),
    }
    assert!(matches!(delete_decision(1, Some(1), "categories"), DeleteOutcome::Proceed));
}

#[test]
fn section_modules() {
    assert_eq!(applicability_list_path(2), "/p/2/applicability");
    assert_eq!(applicability_edit_redirect(2, Some(3)).as_deref(), Some("/p/3/applicability"));
    assert!(matches!(applicability_delete_decision(2, None), DeleteOutcome::NotFound));
    assert_eq!(edit_applicability_title("EU"), "Edit EU - Applicability");
    assert_eq!(category_list_path(2), "/p/2/categories");
    assert_eq!(category_edit_redirect(2, Some(2)), None);
    assert!(matches!(category_delete_decision(2, Some(2)), DeleteOutcome::Proceed));
    assert_eq!(edit_category_title("Safety"), "Edit Safety - Category");
    assert_eq!(verification_list_path(2), "/p/2/verification");
    assert_eq!(verification_edit_redirect(2, None).as_deref(), Some("/p/2/verification"));
    assert!(matches!(verification_delete_decision(2, Some(9)), DeleteOutcome::Redirect(_)));
    assert_eq!(edit_verification_title("Test"), "Edit Test - Verification method");
    assert_eq!(verification_status_list_path(2), "/p/2/verification_statuses");
    assert_eq!(verification_status_edit_redirect(2, Some(2)), None);
    assert!(matches!(verification_status_delete_decision(2, None), DeleteOutcome::NotFound));
    assert_eq!(edit_verification_status_title("Open"), "Edit Open - Verification status");
    assert_eq!(requirement_statuses_path("alpha"), "/alpha/requirement_statuses");
    assert_eq!(edit_requirement_status_path("alpha", 4), "/alpha/requirement_statuses/edit/4");
    assert_eq!(
        requirement_status_edit_redirect(1, "alpha", Some(1), "alpha", true).as_deref(),
        Some("/alpha/requirement_statuses")
    );
    assert_eq!(edit_requirement_status_title("Draft"), "Edit Draft - Requirement status");
}

#[test]
fn test_case_helpers() {
    assert_eq!(tests_page_title(Some("Alpha")), "Alpha - Tests");
    assert_eq!(tests_page_title(None), "Tests");
    assert_eq!(test_page_title(Some("TC-1")), "TC-1 - Test");
    assert_eq!(test_page_title(None), "Test");
    assert_eq!(tests_list_path(5), "/p/5/tests");
    match status_update_check(1, None) {
        Some(StatusUpdateRefusal::NotFound(m)) => assert_eq!(m, "Test not found"),
        other => panic!("unexpected {:?}", other),
    }
    match status_update_check(1, Some(2)) {
        Some(StatusUpdateRefusal::Forbidden(m)) => {
            assert_eq!(m, "Test does not belong to this project")
        }
        other => panic!("unexpected {:?}", other),
    }
    assert!(status_update_check(1, Some(1)).is_none());
}

#[test]
fn canonical_statuses_keep_known_kinds_by_rank() {
    let s = |id: i32| VerificationStatus { id, title: format!("S{}", id), tag_color: None };
    let statuses = vec![s(8), s(2), s(1), s(5)];
    let ranks = vec![None, Some(1), Some(0), Some(3)];
    let ids: Vec<i32> = canonical_test_statuses(statuses, &ranks).iter().map(|x| x.id).collect();
    assert_eq!(ids, vec![1, 2, 5]);
}
