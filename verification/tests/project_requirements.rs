use marreq::models::{Membership, RepoError, Status, TestStatusKind};
use marreq::routes::html::project::requirements::{
    apply_create_defaults, approval_flags, build_pagination_ctx, build_requirements_query,
    can_approve, can_comment_on_version, check_reference, comment_author_name, created_flash,
    current_custom_value, custom_field_definitions_with_filter_values, delete_requirement_decision,
    display_reference, draft_status_id, enforce_project_ownership, filter_by_approval,
    filter_value_for, is_admin_or_owner, json_param_text, last_editor_name, link_candidates,
    map_repo_error, new_requirement_template, parent_ids_of, parent_link_targets, positive_ids,
    preselected_parent, reference_decision, requirement_children, requirement_label,
    requirement_path, requirement_roots, requirements_list_path, requirements_page,
    tally_linked_tests, version_label, version_page_redirect, wants_another, CustomFieldDefinition,
    CustomFieldValue, DeleteRequirementDecision, ErrorStatus, LinkTarget, ListedRequirement,
    NewRequirement, ParentLinkInput, ReferenceDecision, RequirementCreateForm,
    RequirementEditForm, RequirementTemplate, REQUIREMENTS_PER_PAGE, fallback_reference,
    invalid_data_redirect, post_requirement_outcome, requirement_page_title,
    RequirementFormRedirect, is_current_version, requirement_as_of_version, version_page_title, version_viewing, format_date, approved_at_formatted, DateStyle, requirement_tree, build_node, TreeNode,
    RequirementRecord, RequirementVersionRecord,
};

#[test]
fn requirements_page_clamps_to_last_page() {
    let p = requirements_page(Some(10), 60);
    assert_eq!(p.total_count, 60);
    assert_eq!(p.total_pages, 3);
    assert_eq!(p.current_page, 3);
    assert_eq!(p.offset, 50);
    assert_eq!(REQUIREMENTS_PER_PAGE, 25);
}

#[test]
fn requirements_page_defaults_and_empty_list() {
    let p = requirements_page(None, 0);
    assert_eq!(p.total_pages, 1);
    assert_eq!(p.current_page, 1);
    assert_eq!(p.offset, 0);
    let zero = requirements_page(Some(0), -5);
    assert_eq!(zero.total_count, 0);
    assert_eq!(zero.current_page, 1);
    let exact = requirements_page(Some(2), 50);
    assert_eq!(exact.total_pages, 2);
    assert_eq!(exact.offset, 25);
}

#[test]
fn pagination_ctx_window_and_links() {
    let c = build_pagination_ctx(7, 20, 500, 25, "view=tree");
    assert_eq!(c.start, 151);
    assert_eq!(c.end, 175);
    assert!(c.has_prev);
    assert!(c.has_next);
    assert_eq!(c.prev_page, 6);
    assert_eq!(c.next_page, 8);
    let nums: Vec<u32> = c.page_numbers.iter().map(|p| p.num).collect();
    assert_eq!(nums, vec![3, 4, 5, 6, 7, 8, 9, 10, 11]);
    assert_eq!(c.page_numbers.iter().filter(|p| p.is_current).count(), 1);
    assert!(c.page_numbers[4].is_current);
    assert_eq!(c.query, "view=tree");
}

#[test]
fn pagination_ctx_first_and_last_pages() {
    let first = build_pagination_ctx(1, 2, 30, 25, "");
    assert_eq!(first.start, 1);
    assert_eq!(first.end, 25);
    assert!(!first.has_prev);
    assert_eq!(first.prev_page, 1);
    let nums: Vec<u32> = first.page_numbers.iter().map(|p| p.num).collect();
    assert_eq!(nums, vec![1, 2]);
    let last = build_pagination_ctx(2, 2, 30, 25, "");
    assert_eq!(last.start, 26);
    assert_eq!(last.end, 30);
    assert!(!last.has_next);
    assert_eq!(last.next_page, 2);
    let empty = build_pagination_ctx(1, 1, 0, 25, "");
    assert_eq!(empty.start, 0);
    assert_eq!(empty.end, 0);
}

#[test]
fn requirements_query_lists_present_filters() {
    let q = build_requirements_query(
        Some("tree"),
        Some(2),
        None,
        Some(-1),
        None,
        Some("approved"),
        Some("[{\"field_id\":1,\"value\":\"a b\"}]"),
    );
    assert_eq!(
        q,
        "view=tree&status_filter=2&category_filter=-1&approval_filter=approved&custom_filters=%5B%7B%22field_id%22%3A1%2C%22value%22%3A%22a%20b%22%7D%5D"
    );
    assert_eq!(build_requirements_query(Some(""), None, None, None, None, Some(""), Some("")), "");
}

#[test]
fn requirement_paths() {
    assert_eq!(requirements_list_path(4), "/p/4/requirements");
    assert_eq!(requirement_path("/p", 4, 17), "/p/4/requirements/show/17");
    assert_eq!(enforce_project_ownership(1, 1), None);
    assert_eq!(enforce_project_ownership(1, 2), Some("/p/2/requirements".to_string()));
    assert_eq!(version_page_redirect(1, 5, 6, 1), Some("/1/requirements/show/5".to_string()));
    assert_eq!(version_page_redirect(1, 5, 5, 3), Some("/p/3/requirements".to_string()));
    assert_eq!(version_page_redirect(1, 5, 5, 1), None);
}

fn listed(id: i32, state: &str, parents: Vec<i32>) -> ListedRequirement {
    ListedRequirement { id, approval_state: state.to_string(), parent_ids: parents }
}

#[test]
fn approval_filter_partitions() {
    let items = || {
        vec![
            listed(1, "Approved", vec![]),
            listed(2, "draft", vec![]),
            listed(3, "APPROVED", vec![]),
            listed(4, "reviewed", vec![]),
        ]
    };
    let approved: Vec<i32> =
        filter_by_approval(items(), Some("approved")).iter().map(|r| r.id).collect();
    let others: Vec<i32> =
        filter_by_approval(items(), Some("Not_Approved")).iter().map(|r| r.id).collect();
    assert_eq!(approved, vec![1, 3]);
    assert_eq!(others, vec![2, 4]);
    assert_eq!(filter_by_approval(items(), Some("whatever")).len(), 4);
    assert_eq!(filter_by_approval(items(), None).len(), 4);
}

#[test]
fn requirement_tree_orders_by_id() {
    let items = vec![
        listed(9, "draft", vec![]),
        listed(3, "draft", vec![9]),
        listed(1, "draft", vec![]),
        listed(7, "draft", vec![9, 1]),
        listed(5, "draft", vec![1]),
    ];
    assert_eq!(requirement_roots(&items), vec![2, 0]);
    assert_eq!(requirement_children(&items, 9), vec![1, 3]);
    assert_eq!(requirement_children(&items, 1), vec![4, 3]);
    assert!(requirement_children(&items, 42).is_empty());
    assert_eq!(parent_ids_of(Some(3)), vec![3]);
    assert!(parent_ids_of(Some(0)).is_empty());
    assert!(parent_ids_of(None).is_empty());
}

#[test]
fn labels_and_references() {
    assert_eq!(requirement_label(7, "REQ-A-1", "Login"), "REQ-A-1 — Login");
    assert_eq!(requirement_label(7, "  ", "Login"), "RM-7 — Login");
    assert_eq!(display_reference(7, ""), "RM-007");
    assert_eq!(display_reference(1234, " "), "RM-1234");
    assert_eq!(display_reference(7, "REQ-X-2"), "REQ-X-2");
}

#[test]
fn approval_permissions() {
    let members = vec![Membership { user_id: 5, role: 3 }, Membership { user_id: 6, role: 2 }];
    assert!(can_approve(true, 1, &members));
    assert!(can_approve(false, 6, &members));
    assert!(!can_approve(false, 5, &members));
    assert!(!can_approve(false, 7, &members));
    assert!(is_admin_or_owner(false, Some(3), 3));
    assert!(!is_admin_or_owner(false, None, 3));
    assert!(is_admin_or_owner(true, None, 3));
}

#[test]
fn linked_test_tally() {
    let kinds = vec![
        Some(TestStatusKind::Passed),
        Some(TestStatusKind::Failed),
        Some(TestStatusKind::Pending),
        None,
        Some(TestStatusKind::Passed),
        Some(TestStatusKind::InProgress),
    ];
    let t = tally_linked_tests(&kinds);
    assert_eq!(t.total, 6);
    assert_eq!(t.passed, 2);
    assert_eq!(t.failed, 1);
    assert_eq!(t.pending, 3);
    assert_eq!(t.total, t.passed + t.failed + t.pending);
}

#[test]
fn approval_stage_flags() {
    let f = approval_flags("Reviewed");
    assert!(!f.is_draft && f.is_reviewed && !f.is_approved);
    let g = approval_flags("something");
    assert!(!g.is_draft && !g.is_reviewed && !g.is_approved);
    assert!(can_comment_on_version(false, "approved"));
    assert!(!can_comment_on_version(true, "Approved"));
    assert!(can_comment_on_version(true, "draft"));
}

#[test]
fn version_and_editor_labels() {
    assert_eq!(version_label(0), "v1.0");
    assert_eq!(version_label(12), "v1.12");
    assert_eq!(last_editor_name(Some("Ann"), "Bob", "Cid"), "Ann");
    assert_eq!(last_editor_name(Some(""), "Bob", "Cid"), "Bob");
    assert_eq!(last_editor_name(None, " ", "Cid"), "Cid");
    assert_eq!(last_editor_name(None, "", "  "), "Unknown author");
    assert_eq!(comment_author_name(Some("Ann"), 3), "Ann");
    assert_eq!(comment_author_name(None, 3), "User#3");
}

#[test]
fn created_flash_and_intent() {
    assert_eq!(created_flash(Some("1")).as_deref(), Some("Requirement created successfully."));
    assert!(created_flash(Some("TRUE")).is_some());
    assert!(created_flash(Some("yes")).is_none());
    assert!(created_flash(None).is_none());
    assert!(wants_another(Some("add_another")));
    assert!(!wants_another(Some("save")));
    assert!(!wants_another(None));
}

#[test]
fn positive_ids_drop_unselected() {
    assert_eq!(positive_ids(vec![3, 0, -1, 5]), vec![3, 5]);
}

fn new_req() -> NewRequirement {
    NewRequirement {
        id: None,
        title: "T".to_string(),
        description: "D".to_string(),
        author_id: 2,
        category_id: 0,
        status_id: 0,
        reference_code: String::new(),
        reviewer_id: -1,
        applicability_id: 4,
        justification: None,
        project_id: 8,
    }
}

#[test]
fn create_defaults_fill_unset_ids() {
    let r = apply_create_defaults(new_req(), 11, Some(21), Some(31), 41);
    assert_eq!(r.category_id, 21);
    assert_eq!(r.applicability_id, 4);
    assert_eq!(r.status_id, 41);
    assert_eq!(r.reviewer_id, 11);
    assert_eq!(r.title, "T");
    let none = apply_create_defaults(new_req(), 11, None, None, 41);
    assert_eq!(none.category_id, 0);
    let statuses = vec![
        Status { id: 1, title: "Approved".to_string() },
        Status { id: 2, title: "DRAFT".to_string() },
        Status { id: 3, title: "Draft".to_string() },
    ];
    assert_eq!(draft_status_id(&statuses, 99), 2);
    assert_eq!(draft_status_id(&Vec::new(), 99), 99);
}

#[test]
fn create_form_payload_zeroes_missing_ids() {
    let form = RequirementCreateForm {
        intent: Some("add_another".to_string()),
        id: None,
        title: "Title".to_string(),
        description: "Desc".to_string(),
        verification_method_ids: vec![0, 2],
        category_id: Some(3),
        status_id: None,
        parent_links: None,
        reference_code: "REQ-A-1".to_string(),
        reviewer_id: None,
        applicability_id: Some(5),
        justification: Some("why".to_string()),
        custom_field_values: None,
    };
    let (req, methods, intent) = form.into_payload(9, 4);
    assert_eq!(req.author_id, 9);
    assert_eq!(req.project_id, 4);
    assert_eq!(req.category_id, 3);
    assert_eq!(req.status_id, 0);
    assert_eq!(req.reviewer_id, 0);
    assert_eq!(req.applicability_id, 5);
    assert_eq!(methods, vec![0, 2]);
    assert_eq!(intent.as_deref(), Some("add_another"));
}

#[test]
fn edit_form_copies_fields() {
    let form = RequirementEditForm {
        id: Some(12),
        title: "T".to_string(),
        description: "D".to_string(),
        author_id: 3,
        category_id: 4,
        status_id: 5,
        reference_code: "REQ-B-2".to_string(),
        reviewer_id: 6,
        applicability_id: 7,
        justification: None,
        project_id: 8,
        parent_links: None,
        verification_method_ids: vec![1],
        custom_field_values: None,
    };
    let r = form.to_new_requirement();
    assert_eq!(r.id, Some(12));
    assert_eq!(r.reference_code, "REQ-B-2");
    assert_eq!(r.reviewer_id, 6);
    assert_eq!(r.project_id, 8);
}

#[test]
fn reference_decisions() {
    assert_eq!(reference_decision("REQ-SW-12", "SW", true), ReferenceDecision::Keep);
    assert_eq!(reference_decision("REQ-SW-12", "HW", true), ReferenceDecision::Reject);
    assert_eq!(reference_decision("   ", "SW", false), ReferenceDecision::Generate);
    assert_eq!(reference_decision("REQ-SW-x", "SW", false), ReferenceDecision::Reject);
}

#[test]
fn check_reference_uses_the_category_pattern() {
    assert_eq!(check_reference("REQ-SW-12", "SW"), ReferenceDecision::Keep);
    assert_eq!(check_reference("REQ-SW-12a", "SW"), ReferenceDecision::Reject);
    assert_eq!(check_reference("REQ-C++-3", "C++"), ReferenceDecision::Keep);
    assert_eq!(check_reference("REQ-CCC-3", "C.C"), ReferenceDecision::Reject);
    assert_eq!(check_reference("", "SW"), ReferenceDecision::Generate);
}

#[test]
fn new_requirement_from_template() {
    let t = RequirementTemplate {
        title: "Copy".to_string(),
        description: "Body".to_string(),
        category_id: 0,
        reference_code: "REQ-A-1".to_string(),
        reviewer_id: 8,
        applicability_id: 6,
        justification: Some("j".to_string()),
    };
    let r = new_requirement_template(2, 3, Some(&t), 4, Some(10), Some(20));
    assert_eq!(r.title, "Copy");
    assert_eq!(r.category_id, 10);
    assert_eq!(r.applicability_id, 6);
    assert_eq!(r.reviewer_id, 8);
    assert_eq!(r.status_id, 4);
    assert_eq!(r.author_id, 2);
    let blank = new_requirement_template(2, 3, None, 4, None, Some(20));
    assert_eq!(blank.title, "");
    assert_eq!(blank.category_id, 0);
    assert_eq!(blank.applicability_id, 20);
    assert_eq!(blank.reviewer_id, 2);
}

#[test]
fn parent_preselection_and_candidates() {
    let ids = vec![5, 3, 9, 3];
    assert_eq!(preselected_parent(Some(3), &ids), Some(1));
    assert_eq!(preselected_parent(Some(4), &ids), None);
    assert_eq!(preselected_parent(None, &ids), None);
    assert_eq!(link_candidates(&ids, 9), vec![1, 3, 0]);
}

#[test]
fn delete_requirement_decisions() {
    match delete_requirement_decision(1, 2, Some(true), true) {
        DeleteRequirementDecision::Redirect(p) => assert_eq!(p, "/p/2/requirements"),
        other => panic!("unexpected {:?}", other),
    }
    assert!(matches!(
        delete_requirement_decision(1, 1, Some(false), false),
        DeleteRequirementDecision::Forbidden
    ));
    assert!(matches!(
        delete_requirement_decision(1, 1, None, false),
        DeleteRequirementDecision::Forbidden
    ));
    assert!(matches!(
        delete_requirement_decision(1, 1, None, true),
        DeleteRequirementDecision::Delete
    ));
    assert!(matches!(
        delete_requirement_decision(1, 1, Some(true), false),
        DeleteRequirementDecision::Delete
    ));
}

#[test]
fn custom_values_and_filters() {
    let values = vec![
        CustomFieldValue { field_id: 1, value: None },
        CustomFieldValue { field_id: 2, value: Some("x".to_string()) },
        CustomFieldValue { field_id: 2, value: Some("y".to_string()) },
    ];
    assert_eq!(current_custom_value(Some(&values), 2), "x");
    assert_eq!(current_custom_value(Some(&values), 1), "");
    assert_eq!(current_custom_value(None, 2), "");
    let filters = vec![(1, "a".to_string()), (2, "b".to_string()), (1, "c".to_string())];
    assert_eq!(filter_value_for(Some(&filters), 1).as_deref(), Some("c"));
    assert_eq!(filter_value_for(Some(&filters), 3), None);
    assert_eq!(filter_value_for(None, 1), None);
    let defs = vec![
        CustomFieldDefinition {
            id: 1,
            label: "Risk".to_string(),
            field_type: "enum".to_string(),
            enum_values: Some(vec!["Low".to_string(), "High".to_string()]),
        },
        CustomFieldDefinition {
            id: 4,
            label: "Owner".to_string(),
            field_type: "text".to_string(),
            enum_values: None,
        },
    ];
    let rows = custom_field_definitions_with_filter_values(&defs, Some(&filters));
    assert_eq!(rows.len(), 2);
    assert_eq!(rows[0].label, "Risk");
    assert_eq!(rows[0].enum_values, Some(vec!["Low".to_string(), "High".to_string()]));
    assert_eq!(rows[0].current_filter_value.as_deref(), Some("c"));
    assert_eq!(rows[1].current_filter_value, None);
}

#[test]
fn json_params_and_error_statuses() {
    assert_eq!(json_param_text(Some("  [1]  ")).as_deref(), Some("[1]"));
    assert_eq!(json_param_text(Some("   ")), None);
    assert_eq!(json_param_text(None), None);
    assert_eq!(map_repo_error(&RepoError::BadInput("x".to_string())), ErrorStatus::BadRequest);
    assert_eq!(map_repo_error(&RepoError::NotFound), ErrorStatus::NotFound);
    assert_eq!(
        map_repo_error(&RepoError::Duplicate("x".to_string())),
        ErrorStatus::InternalServerError
    );
}

#[test]
fn parent_links_keep_valid_targets() {
    let links = vec![
        ParentLinkInput { target_requirement_id: 4, link_type: "derives".to_string() },
        ParentLinkInput { target_requirement_id: 0, link_type: "x".to_string() },
        ParentLinkInput { target_requirement_id: 5, link_type: "refines".to_string() },
        ParentLinkInput { target_requirement_id: 6, link_type: "y".to_string() },
        ParentLinkInput { target_requirement_id: 7, link_type: "z".to_string() },
    ];
    let targets = vec![
        Some(LinkTarget { project_id: 1, current_version_id: Some(40) }),
        Some(LinkTarget { project_id: 1, current_version_id: Some(41) }),
        Some(LinkTarget { project_id: 1, current_version_id: Some(50) }),
        Some(LinkTarget { project_id: 2, current_version_id: Some(60) }),
        None,
    ];
    let kept = parent_link_targets(&links, &targets, 1);
    assert_eq!(kept, vec![(40, "derives".to_string()), (50, "refines".to_string())]);
}

#[test]
fn requirement_form_redirects() {
    match post_requirement_outcome(Ok(14), Some("add_another")) {
        Ok(RequirementFormRedirect::NewRequirement { error: None, created: Some(c) }) => assert_eq!(c, "1"),
        other => panic!("unexpected {:?}", other),
    }
    assert!(matches!(
        post_requirement_outcome(Ok(14), Some("save")),
        Ok(RequirementFormRedirect::ShowRequirement(14))
    ));
    assert!(matches!(post_requirement_outcome(Ok(14), None), Ok(RequirementFormRedirect::ShowRequirement(14))));
    match post_requirement_outcome(Err(RepoError::BadInput("title".to_string())), None) {
        Err(RequirementFormRedirect::NewRequirement { error: Some(e), created: None }) => {
            assert_eq!(e, "Invalid data provided")
        }
        other => panic!("unexpected {:?}", other),
    }
    match post_requirement_outcome(Err(RepoError::Other("db".to_string())), Some("add_another")) {
        Err(RequirementFormRedirect::NewRequirement { error: Some(e), .. }) => {
            assert_eq!(e, "Failed to create requirement")
        }
        other => panic!("unexpected {:?}", other),
    }
    assert!(matches!(
        invalid_data_redirect(),
        RequirementFormRedirect::NewRequirement { error: Some(_), created: None }
    ));
    assert_eq!(fallback_reference(1700000000), "REQ-UNKNOWN-1700000000");
    assert_eq!(requirement_page_title("REQ-A-1"), "REQ-A-1 - Requirement");
}

#[test]
fn requirement_as_of_a_version() {
    let current = RequirementRecord {
        id: 3,
        current_version_id: Some(30),
        title: "Now".to_string(),
        description: "now".to_string(),
        status_id: 2,
        author_id: 1,
        reviewer_id: 1,
        reference_code: "REQ-A-3".to_string(),
        category_id: 5,
        applicability_id: 6,
        justification: None,
        project_id: 9,
        approval_state: "approved".to_string(),
        approved_by: Some(1),
        approved_at: Some(1_700_000_500),
        creation_date: 1_600_000_000,
        update_date: 1_700_000_000,
        deadline_date: None,
    };
    let version = RequirementVersionRecord {
        id: 21,
        requirement_id: 3,
        title: "Then".to_string(),
        description: "then".to_string(),
        status_id: 1,
        author_id: 4,
        reviewer_id: 5,
        category_id: 7,
        applicability_id: 8,
        justification: Some("why".to_string()),
        approval_state: "draft".to_string(),
        approved_by: None,
        approved_at: None,
        created_at: 1_650_000_000,
        deadline_date: Some(1_800_000_000),
    };
    let r = requirement_as_of_version(current, version);
    assert_eq!(r.id, 3);
    assert_eq!(r.current_version_id, Some(30));
    assert_eq!(r.reference_code, "REQ-A-3");
    assert_eq!(r.project_id, 9);
    assert_eq!(r.title, "Then");
    assert_eq!(r.status_id, 1);
    assert_eq!(r.category_id, 7);
    assert_eq!(r.approval_state, "draft");
    assert_eq!(r.approved_by, None);
    assert_eq!(r.approved_at, None);
    assert_eq!(r.creation_date, 1_650_000_000);
    assert_eq!(r.update_date, 1_650_000_000);
    assert_eq!(r.deadline_date, Some(1_800_000_000));
    assert!(is_current_version(Some(30), 30));
    assert!(!is_current_version(Some(30), 21));
    assert!(!is_current_version(None, 21));
    assert_eq!(version_page_title("REQ-A-3", 21), "REQ-A-3 - Requirement (v21)");
}

#[test]
fn version_viewing_flags() {
    let past = version_viewing(Some(21));
    assert!(past.viewing_past_version);
    assert_eq!(past.viewing_version_id, Some(21));
    let current = version_viewing(None);
    assert!(!current.viewing_past_version);
    assert_eq!(current.viewing_version_id, None);
}

fn shape(items: &[ListedRequirement], n: &TreeNode) -> String {
    let kids: Vec<String> = n.children.iter().map(|c| shape(items, c)).collect();
    format!("{}({})", items[n.position].id, kids.join(","))
}

#[test]
fn requirement_tree_nests_children_under_each_parent() {
    let items = vec![
        listed(9, "draft", vec![]),
        listed(3, "draft", vec![9]),
        listed(1, "draft", vec![]),
        listed(7, "draft", vec![9, 1]),
        listed(5, "draft", vec![1]),
        listed(2, "draft", vec![7]),
    ];
    let tree = requirement_tree(&items);
    let shapes: Vec<String> = tree.iter().map(|n| shape(&items, n)).collect();
    assert_eq!(shapes, vec!["1(5(),7(2()))", "9(3(),7(2()))"]);
    let cut = build_node(&items, 0, 1);
    assert_eq!(shape(&items, &cut), "9(3(),7())");
    assert!(requirement_tree(&Vec::new()).is_empty());
}

#[test]
fn dates_in_the_page_layouts() {
    assert_eq!(format_date(0, DateStyle::Seconds).as_deref(), Some("1970-01-01 00:00:00"));
    assert_eq!(format_date(1_700_000_000, DateStyle::Seconds).as_deref(), Some("2023-11-14 22:13:20"));
    assert_eq!(format_date(1_700_000_000, DateStyle::Minutes).as_deref(), Some("2023-11-14 22:13"));
    assert_eq!(
        format_date(1_700_000_000, DateStyle::MinutesUtc).as_deref(),
        Some("2023-11-14 22:13 UTC")
    );
    assert_eq!(format_date(i64::MAX, DateStyle::Seconds), None);
    assert_eq!(approved_at_formatted(None), None);
    assert_eq!(approved_at_formatted(Some(86_400)).as_deref(), Some("1970-01-02 00:00 UTC"));
}
