use marreq::routes::html::project::baselines::{
    baseline_page_redirect, baseline_test_references, baseline_traceability, BaselineRequirement,
    TestReference, baseline_title, baselines_list_url, new_baseline_payload, new_baseline_url, CreateBaselineForm,
};

#[test]
fn create_baseline_form_struct_exists() {
    let form = CreateBaselineForm {
        name: "v1.0".to_string(),
        description: Some("First release".to_string()),
    };
    assert_eq!(form.name, "v1.0");
    assert_eq!(form.description.as_deref(), Some("First release"));
}

#[test]
fn create_baseline_form_description_optional() {
    let form = CreateBaselineForm {
        name: "v1.0".to_string(),
        description: None,
    };
    assert!(form.description.is_none());
}

#[test]
fn new_baseline_drops_blank_description() {
    let blank = CreateBaselineForm { name: "v2".to_string(), description: Some("  \t".to_string()) };
    let payload = new_baseline_payload(&blank);
    assert_eq!(payload.name, "v2");
    assert!(payload.description.is_none());
    let kept = CreateBaselineForm { name: "v3".to_string(), description: Some(" notes ".to_string()) };
    assert_eq!(new_baseline_payload(&kept).description.as_deref(), Some(" notes "));
    let none = CreateBaselineForm { name: "v4".to_string(), description: None };
    assert!(new_baseline_payload(&none).description.is_none());
}

#[test]
fn baseline_urls_and_title() {
    assert_eq!(baselines_list_url("alpha"), "/alpha/baselines");
    assert_eq!(new_baseline_url("alpha"), "/alpha/baselines/new");
    assert_eq!(baseline_title("v1.0"), "Baseline: v1.0");
}

#[test]
fn baseline_traceability_references() {
    let reqs = vec![
        BaselineRequirement { id: 1, reference_code: "REQ-A-1".to_string(), current_version_id: Some(10) },
        BaselineRequirement { id: 2, reference_code: "REQ-A-2".to_string(), current_version_id: None },
    ];
    let tests = vec![TestReference { id: 5, reference_code: "TC-5".to_string() }];
    let links = vec![(1, 5), (2, 6), (3, 5)];
    let t = baseline_traceability(&reqs, &tests, &links);
    assert_eq!(t.len(), 3);
    assert_eq!(t[0].requirement_reference, "REQ-A-1");
    assert_eq!(t[0].test_reference, "TC-5");
    assert_eq!(t[0].version_id, Some(10));
    assert_eq!(t[1].test_reference, "#6");
    assert_eq!(t[1].version_id, None);
    assert_eq!(t[2].requirement_reference, "#3");
    assert_eq!(t[2].verification_id, 5);
    let snap = baseline_test_references(
        vec![TestReference { id: 1, reference_code: "TC-1".to_string() }],
        vec![TestReference { id: 2, reference_code: "TC-2".to_string() }],
    );
    assert_eq!(snap[0].id, 1);
    let current = baseline_test_references(
        Vec::new(),
        vec![TestReference { id: 2, reference_code: "TC-2".to_string() }],
    );
    assert_eq!(current[0].id, 2);
    assert_eq!(baseline_page_redirect("a", 1, None, "b").as_deref(), Some("/a/baselines"));
    assert_eq!(baseline_page_redirect("a", 1, Some(2), "b").as_deref(), Some("/b/baselines"));
    assert_eq!(baseline_page_redirect("a", 1, Some(1), "b"), None);
}
