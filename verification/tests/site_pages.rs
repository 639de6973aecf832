use marreq::models::{Category, Membership, Project, RepoError, Status, User};
use marreq::routes::html::categories::{
    categories_path, delete_category_decision, get_edit_category, new_category, show_categories,
    DeleteCategoryDecision,
};
use marreq::routes::html::dashboard::{index, show_status, StatusDescription};
use marreq::routes::html::helpers::{
    decorate_projects_for_listing, describe_project_role, get_accessible_projects,
    get_category_by_id_cached, get_requirement_by_id_cached_safe, get_status_name_by_id_cached,
    project_status_badge, repo_error_to_string, resolve_selected_project_id, ProjectRole,
};
use marreq::routes::html::members::{is_project_owner, remove_member_allowed, show_project_members};
use marreq::routes::html::project::project::{show_project_id, ProjectPage};
use marreq::routes::html::project::project_routes::{
    edit_project_title, post_edit_project_redirect, show_project_id as show_project_by_slug,
    GroupSummary, ProjectOverview,
};
use marreq::routes::html::projects::{
    default_new_project_form, new_project, post_project, show_projects, ProjectCreateRedirect,
};
use marreq::routes::html::project::requirements::ListedRequirement;
use marreq::routes::html::requirements::{
    check_general_reference, general_reference_verdict, legacy_may_delete,
    legacy_reference_check, legacy_reference_decision, legacy_tree, requirement_scope,
    LegacyReferenceDecision, RequirementScope,
};

fn project(id: i32, name: &str, status: Option<&str>, owner: Option<i32>) -> Project {
    Project {
        id,
        name: name.to_string(),
        description: None,
        status: status.map(|s| s.to_string()),
        owner_id: owner,
    }
}

fn user(id: i32, name: &str) -> User {
    User {
        id,
        name: name.to_string(),
        username: name.to_lowercase(),
        email: String::new(),
        is_admin: false,
    }
}

#[test]
fn role_labels_and_badges() {
    assert_eq!(describe_project_role(1), "Owner");
    assert_eq!(describe_project_role(2), "Manager");
    assert_eq!(describe_project_role(3), "Contributor");
    assert_eq!(describe_project_role(4), "Viewer");
    assert_eq!(describe_project_role(9), "Member");
    assert_eq!(project_status_badge(" Active "), "bg-success");
    assert_eq!(project_status_badge("ARCHIVED"), "bg-secondary");
    assert_eq!(project_status_badge("on hold"), "bg-warning");
    assert_eq!(project_status_badge("Maintenance"), "bg-warning");
    assert_eq!(project_status_badge("whatever"), "bg-secondary");
}

#[test]
fn project_selection() {
    let projects = vec![project(4, "b", None, None), project(7, "a", None, None)];
    assert_eq!(resolve_selected_project_id(Some(7), &projects), Some(7));
    assert_eq!(resolve_selected_project_id(Some(9), &projects), Some(4));
    assert_eq!(resolve_selected_project_id(None, &projects), Some(4));
    assert_eq!(resolve_selected_project_id(Some(9), &Vec::new()), None);
}

#[test]
fn accessible_projects_by_name() {
    let fetched = vec![
        project(1, "beta", None, None),
        project(2, "Alpha", None, None),
        project(3, "alpha", None, None),
    ];
    let ids: Vec<i32> =
        get_accessible_projects(true, Ok(fetched), Err(RepoError::NotFound)).iter().map(|p| p.id).collect();
    assert_eq!(ids, vec![2, 3, 1]);
}

#[test]
fn accessible_projects_of_a_member() {
    let lookups = vec![
        Ok(project(8, "Zulu", None, None)),
        Err(RepoError::NotFound),
        Ok(project(5, "echo", None, None)),
    ];
    let all = vec![project(1, "Alpha", None, None), project(8, "Zulu", None, None)];
    let ids: Vec<i32> = get_accessible_projects(false, Ok(all.clone()), Ok(lookups))
        .iter()
        .map(|p| p.id)
        .collect();
    assert_eq!(ids, vec![5, 8]);
    assert!(get_accessible_projects(false, Ok(all.clone()), Err(RepoError::NotFound)).is_empty());
    assert!(get_accessible_projects(false, Ok(all), Ok(Vec::new())).is_empty());
    assert!(get_accessible_projects(true, Err(RepoError::NotFound), Ok(Vec::new())).is_empty());
}

#[test]
fn lookups_with_fallbacks() {
    let c = get_category_by_id_cached(5, Err(RepoError::NotFound));
    assert_eq!(c.id, 5);
    assert_eq!(c.title, "Unknown Category (5)");
    assert_eq!(c.description, "Category not found");
    assert_eq!(c.tag, "unknown");
    assert_eq!(c.project_id, 1);
    let found = Category {
        id: 2,
        title: "Safety".to_string(),
        description: "d".to_string(),
        tag: "SAF".to_string(),
        project_id: 3,
    };
    assert_eq!(get_category_by_id_cached(2, Ok(found)).title, "Safety");
    assert_eq!(get_status_name_by_id_cached(Ok(Status { id: 1, title: "Open".to_string() })), "Open");
    assert_eq!(get_status_name_by_id_cached(Err(RepoError::NotFound)), "[Status Not Found]");
    assert_eq!(repo_error_to_string(RepoError::NotFound), "Not found");
    assert_eq!(repo_error_to_string(RepoError::Other("boom".to_string())), "boom");
    assert_eq!(
        get_requirement_by_id_cached_safe::<i32>(8, Err(RepoError::NotFound)),
        Err("Requirement with ID 8 not found".to_string())
    );
    assert_eq!(
        get_requirement_by_id_cached_safe::<i32>(8, Err(RepoError::BadInput("bad".to_string()))),
        Err("bad".to_string())
    );
    assert_eq!(get_requirement_by_id_cached_safe(8, Ok(3)), Ok(3));
}

#[test]
fn project_listing_rows() {
    let projects = vec![
        project(1, "zeta", Some(" Active "), Some(2)),
        project(2, "Alpha", None, Some(9)),
        project(3, "beta", Some("paused"), None),
    ];
    let users = vec![user(2, "Bob")];
    let ms = vec![ProjectRole { project_id: 1, role: 2 }, ProjectRole { project_id: 3, role: 4 }];
    let rows = decorate_projects_for_listing(false, &ms, &users, &projects);
    let ids: Vec<i32> = rows.iter().map(|r| r.project_id).collect();
    assert_eq!(ids, vec![3, 1]);
    assert_eq!(rows[1].project_status, "Active");
    assert_eq!(rows[1].project_status_normalized, "active");
    assert_eq!(rows[1].project_status_badge, "bg-success");
    assert_eq!(rows[1].project_owner_name.as_deref(), Some("Bob"));
    assert_eq!(rows[1].role_label.as_deref(), Some("Manager"));
    assert_eq!(rows[0].role_id, Some(4));
    assert_eq!(rows[0].project_status_badge, "bg-warning");
    let admin_rows = decorate_projects_for_listing(true, &Vec::new(), &users, &projects);
    assert_eq!(admin_rows.len(), 3);
    assert_eq!(admin_rows[0].project_id, 2);
    assert_eq!(admin_rows[0].project_status, "Unknown");
    assert_eq!(admin_rows[0].project_status_normalized, "unknown");
    assert_eq!(admin_rows[0].project_owner_name, None);
    assert_eq!(admin_rows[0].role_label.as_deref(), Some("Administrator"));
}

#[test]
fn dashboard_selection_and_cookie() {
    let projects = vec![project(5, "b", None, None), project(6, "a", None, None)];
    let p = index(true, &Vec::new(), &Vec::new(), &projects, None);
    assert_eq!(p.selected_project_id, Some(5));
    assert_eq!(p.cookie_to_set, Some(5));
    assert_eq!(p.projects_count, 2);
    assert!(p.hide_nav);
    assert_eq!(p.page_title, "Dashboard");
    let q = index(true, &Vec::new(), &Vec::new(), &projects, Some("6"));
    assert_eq!(q.selected_project_id, Some(6));
    assert_eq!(q.cookie_to_set, None);
    let r = index(true, &Vec::new(), &Vec::new(), &projects, Some("x"));
    assert_eq!(r.selected_project_id, Some(5));
    assert_eq!(r.cookie_to_set, Some(5));
    let empty = index(false, &Vec::new(), &Vec::new(), &Vec::new(), None);
    assert_eq!(empty.selected_project_id, None);
    assert_eq!(empty.cookie_to_set, None);
}

#[test]
fn project_pages() {
    let projects = vec![project(5, "b", None, None), project(6, "a", None, None)];
    let p = show_projects(true, &Vec::new(), &Vec::new(), &projects, Some(6));
    assert_eq!(p.selected_project_id, Some(6));
    assert_eq!(p.page_title, "Projects");
    assert_eq!(p.projects[0].project_id, 6);
    let f = default_new_project_form();
    assert_eq!(f.status_id, "active");
    assert!(f.owner_id.is_none());
    let n = new_project(
        user(1, "Ann"),
        Ok(vec![user(1, "Ann"), user(2, "Bob")]),
        Some("bad".to_string()),
    );
    assert_eq!(n.page_title, "New Project");
    assert_eq!(n.error.as_deref(), Some("bad"));
    assert_eq!(n.user.id, 1);
    assert_eq!(n.users.len(), 2);
    assert_eq!(n.form.name, "");
    assert_eq!(n.form.status_id, "active");
    let none = new_project(user(1, "Ann"), Err(RepoError::NotFound), None);
    assert!(none.users.is_empty());
    assert!(none.error.is_none());
    assert!(matches!(post_project(Ok(())), ProjectCreateRedirect::Projects));
    match post_project(Err(RepoError::BadInput("Name required".to_string()))) {
        ProjectCreateRedirect::NewProject(m) => assert_eq!(m, "Name required"),
        other => panic!("unexpected {:?}", other),
    }
    match post_project(Err(RepoError::Duplicate("x".to_string()))) {
        ProjectCreateRedirect::NewProject(m) => {
            assert_eq!(m, "Failed to create project. Please try again.")
        }
        other => panic!("unexpected {:?}", other),
    }
}

#[test]
fn category_pages() {
    assert_eq!(categories_path(3), "/p/3/categories");
    let nav = vec![project(3, "Alpha", None, None)];
    let page = show_categories(user(1, "Ann"), nav.clone(), 3, Err(RepoError::NotFound));
    assert_eq!(page.template, "categories");
    assert_eq!(page.user.id, 1);
    assert_eq!(page.projects.len(), 1);
    assert_eq!(page.selected_project_id, 3);
    assert_eq!(page.categories.as_ref().map(|c| c.len()), Some(0));
    assert!(page.category.is_none());
    let fresh = new_category(user(1, "Ann"), nav.clone(), 3);
    assert_eq!(fresh.template, "new_category");
    assert!(fresh.categories.is_none());
    assert!(fresh.category.is_none());
    assert_eq!(fresh.projects[0].id, 3);
    let c = |project_id: i32| Category {
        id: 1,
        title: "T".to_string(),
        description: String::new(),
        tag: "T".to_string(),
        project_id,
    };
    let listed = show_categories(user(1, "Ann"), nav.clone(), 3, Ok(vec![c(3)]));
    assert_eq!(listed.categories.as_ref().map(|v| v.len()), Some(1));
    assert_eq!(
        get_edit_category(user(1, "Ann"), nav.clone(), 3, Err(RepoError::NotFound)).err().as_deref(),
        Some("/p/3/categories")
    );
    assert_eq!(
        get_edit_category(user(1, "Ann"), nav.clone(), 3, Ok(c(4))).err().as_deref(),
        Some("/p/4/categories")
    );
    let ok = get_edit_category(user(1, "Ann"), nav, 3, Ok(c(3))).unwrap();
    assert_eq!(ok.template, "edit_category");
    assert_eq!(ok.category.as_ref().map(|c| c.project_id), Some(3));
    assert!(ok.categories.is_none());
    assert!(matches!(delete_category_decision(3, None), DeleteCategoryDecision::NotFound));
    assert!(matches!(delete_category_decision(3, Some(3)), DeleteCategoryDecision::Delete));
    match delete_category_decision(3, Some(8)) {
        DeleteCategoryDecision::Redirect(p) => assert_eq!(p, "/p/8/categories"),
        other => panic!("unexpected {:?}", other),
    }
}

#[test]
fn project_overview_pages() {
    match show_project_id(4, Some("Alpha"), Some(3), None) {
        ProjectPage::Found { selected_project_id, page_title, requirements_count, tests_count, .. } => {
            assert_eq!(selected_project_id, 4);
            assert_eq!(page_title, "Alpha - Project");
            assert_eq!(requirements_count, 3);
            assert_eq!(tests_count, 0);
        }
        other => panic!("unexpected {:?}", other),
    }
    match show_project_id(4, None, None, None) {
        ProjectPage::NotFound { details, .. } => assert_eq!(details, "Project ID 4 does not exist"),
        other => panic!("unexpected {:?}", other),
    }
    let group = GroupSummary { name: "Core".to_string(), slug: "core".to_string(), can_view: true };
    match show_project_by_slug(4, "alpha", Some("Alpha"), Some(group), None, Some(2)) {
        ProjectOverview::Found { group_name, can_view_group, tests_count, .. } => {
            assert_eq!(group_name.as_deref(), Some("Core"));
            assert!(can_view_group);
            assert_eq!(tests_count, 2);
        }
        other => panic!("unexpected {:?}", other),
    }
    match show_project_by_slug(4, "alpha", None, None, None, None) {
        ProjectOverview::NotFound { details, .. } => {
            assert_eq!(details, "Project slug alpha could not be resolved")
        }
        other => panic!("unexpected {:?}", other),
    }
    assert_eq!(post_edit_project_redirect("ns", "alpha", true, false), "/ns/alpha/edit");
    assert_eq!(post_edit_project_redirect("ns", "alpha", true, true), "/projects");
    assert_eq!(post_edit_project_redirect("ns", "alpha", false, false), "/projects");
    assert_eq!(edit_project_title("Alpha"), "Edit Alpha - Project");
}

#[test]
fn project_member_page() {
    let users = vec![user(1, "Ann"), user(2, "Bob"), user(3, "Cid")];
    let ms = vec![Membership { user_id: 1, role: 1 }, Membership { user_id: 2, role: 3 }];
    let page = show_project_members(&users, &ms, 1);
    assert!(page.can_manage_members);
    assert_eq!(page.owner_count, 1);
    assert_eq!(page.member_count, 2);
    assert_eq!(page.members[0].role_label, "Owner");
    assert!(!page.members[0].can_remove);
    assert!(page.members[1].can_remove);
    assert_eq!(page.available_users.len(), 1);
    assert_eq!(page.available_users[0].label, "Cid (@cid)");
    assert!(page.has_available_users);
    let viewer = show_project_members(&users, &ms, 2);
    assert!(!viewer.can_manage_members);
    assert!(viewer.available_users.is_empty());
    assert!(is_project_owner(&Ok(ms.clone()), 1));
    assert!(!is_project_owner(&Ok(ms.clone()), 2));
    assert!(!is_project_owner(&Err(RepoError::NotFound), 1));
    assert!(!remove_member_allowed(true, &ms, 1));
    assert!(remove_member_allowed(true, &ms, 2));
    assert!(!remove_member_allowed(false, &ms, 2));
}

#[test]
fn legacy_requirement_pages() {
    assert_eq!(requirement_scope(Some(2), Some(1)), RequirementScope::Project(2));
    assert_eq!(requirement_scope(None, Some(1)), RequirementScope::Project(1));
    assert_eq!(requirement_scope(None, None), RequirementScope::All);
    assert!(check_general_reference(""));
    assert!(check_general_reference("REQ-ABC-12"));
    assert!(!check_general_reference("REQ-abc-12"));
    assert!(!check_general_reference("REQ-ABC-"));
    assert_eq!(legacy_reference_check("", "SW"), LegacyReferenceDecision::Generate);
    assert_eq!(legacy_reference_check("REQ-SW-4", "SW"), LegacyReferenceDecision::Keep);
    assert_eq!(legacy_reference_check("REQ-HW-4", "SW"), LegacyReferenceDecision::Reject);
    assert_eq!(legacy_reference_check("REQ-SW-4x", "SW"), LegacyReferenceDecision::Reject);
    assert_eq!(legacy_reference_check("REQ-(-1", "("), LegacyReferenceDecision::Reject);
    assert!(legacy_may_delete(1, false));
    assert!(legacy_may_delete(2, false));
    assert!(!legacy_may_delete(3, false));
    assert!(legacy_may_delete(3, true));
    let items = vec![
        ListedRequirement { id: 5, approval_state: String::new(), parent_ids: vec![] },
        ListedRequirement { id: 2, approval_state: String::new(), parent_ids: vec![5] },
        ListedRequirement { id: 1, approval_state: String::new(), parent_ids: vec![] },
    ];
    let tree = legacy_tree(&items);
    assert_eq!(tree.len(), 2);
    assert_eq!(tree[0].root, 2);
    assert!(tree[0].children.is_empty());
    assert_eq!(tree[1].root, 0);
    assert_eq!(tree[1].children, vec![1]);
}

#[test]
fn status_page_lists_statuses() {
    let statuses = vec![StatusDescription {
        id: 10,
        title: "Approved".to_string(),
        description: "Ready for release".to_string(),
    }];
    let page = show_status("<html>", Some(&statuses), "</html>");
    assert!(page.contains("Id: 10"));
    assert!(page.contains("Title: Approved"));
    assert!(page.contains("Description: Ready for release"));
    assert!(page.starts_with("<html>\n        <div class='AllStatus'>"));
    assert!(page.ends_with("</div> </html>"));
    assert_eq!(show_status("<html>", Some(&Vec::new()), "</html>"), "<html> </html>");
    assert_eq!(show_status("<html>", None, "</html>"), "Error: Failed to load status data");
}

#[test]
fn reference_verdicts_from_given_match_results() {
    assert!(general_reference_verdict("", None));
    assert!(general_reference_verdict("REQ-A-1", Some(true)));
    assert!(!general_reference_verdict("REQ-A-1", Some(false)));
    assert!(!general_reference_verdict("REQ-A-1", None));
    assert_eq!(legacy_reference_decision("", "A", Some(false)), LegacyReferenceDecision::Generate);
    assert_eq!(legacy_reference_decision("REQ-A-1", "A", Some(true)), LegacyReferenceDecision::Keep);
    assert_eq!(legacy_reference_decision("REQ-A-1", "B", Some(true)), LegacyReferenceDecision::Reject);
    assert_eq!(legacy_reference_decision("REQ-A-1", "A", None), LegacyReferenceDecision::Reject);
}
