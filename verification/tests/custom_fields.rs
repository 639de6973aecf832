use marreq::routes::html::project::custom_fields::{
    delete_custom_field_decision, delete_error_message, edit_custom_field_title,
    enum_values_text, form_to_payload, in_use_message, list_url, parse_enum_values, routes,
    CustomFieldForm, DeleteCustomFieldDecision, custom_field_edit_redirect,
    custom_field_save_redirect,
};

#[test]
fn list_url_format() {
    assert_eq!(list_url(1), "/p/1/custom_fields");
    assert_eq!(list_url(42), "/p/42/custom_fields");
}

#[test]
fn form_to_payload_label_and_type() {
    let form = CustomFieldForm {
        label: "Priority".to_string(),
        field_type: "text".to_string(),
        enum_values: None,
        sort_order: None,
    };
    let payload = form_to_payload(form);
    assert_eq!(payload.label, "Priority");
    assert_eq!(payload.field_type, "text");
    assert!(payload.enum_values.is_none());
    assert!(payload.sort_order.is_none());
}

#[test]
fn form_to_payload_enum_comma_separated() {
    let form = CustomFieldForm {
        label: "Status".to_string(),
        field_type: "enum".to_string(),
        enum_values: Some("Low, Medium, High".to_string()),
        sort_order: Some(0),
    };
    let payload = form_to_payload(form);
    assert_eq!(payload.enum_values.as_ref().map(|v| v.len()), Some(3));
    assert_eq!(payload.sort_order, Some(0));
}

#[test]
fn form_to_payload_enum_newline_separated() {
    let form = CustomFieldForm {
        label: "X".to_string(),
        field_type: "enum".to_string(),
        enum_values: Some("A\nB\nC".to_string()),
        sort_order: None,
    };
    let payload = form_to_payload(form);
    assert_eq!(
        payload.enum_values.as_deref(),
        Some(vec!["A".to_string(), "B".to_string(), "C".to_string()].as_slice())
    );
}

#[test]
fn routes_count() {
    let r = routes();
    assert_eq!(r.len(), 6);
}

#[test]
fn parse_enum_values_trims_and_drops_empty() {
    assert_eq!(parse_enum_values(" a ,, b\n\nc ,"), vec!["a", "b", "c"]);
    assert!(parse_enum_values("").is_empty());
    assert!(parse_enum_values(" , \n ").is_empty());
    assert_eq!(parse_enum_values("one two"), vec!["one two"]);
}

#[test]
fn form_to_payload_blank_enum_values_become_none() {
    let form = CustomFieldForm {
        label: "E".to_string(),
        field_type: "enum".to_string(),
        enum_values: Some(" , ".to_string()),
        sort_order: Some(5),
    };
    let payload = form_to_payload(form);
    assert!(payload.enum_values.is_none());
    assert_eq!(payload.sort_order, Some(5));
}

#[test]
fn in_use_messages() {
    assert_eq!(
        in_use_message(3),
        "Cannot delete: field is in use by 3 requirement version(s). Remove or update those values first."
    );
    assert_eq!(delete_error_message(Some("in_use"), Some(2)), Some(in_use_message(2)));
    assert_eq!(delete_error_message(Some("in_use"), None), None);
    assert_eq!(delete_error_message(Some("other"), Some(2)), None);
    assert_eq!(delete_error_message(None, Some(2)), None);
}

#[test]
fn delete_custom_field_decisions() {
    assert!(matches!(delete_custom_field_decision(1, None, 0), DeleteCustomFieldDecision::NotFound));
    match delete_custom_field_decision(1, Some(2), 0) {
        DeleteCustomFieldDecision::Redirect(p) => assert_eq!(p, "/p/2/custom_fields"),
        other => panic!("unexpected {:?}", other),
    }
    match delete_custom_field_decision(1, Some(1), 4) {
        DeleteCustomFieldDecision::InUse(m) => assert_eq!(m, in_use_message(4)),
        other => panic!("unexpected {:?}", other),
    }
    assert!(matches!(delete_custom_field_decision(1, Some(1), 0), DeleteCustomFieldDecision::Delete));
}

#[test]
fn custom_field_form_redirects() {
    assert_eq!(custom_field_edit_redirect(1, None).as_deref(), Some("/p/1/custom_fields"));
    assert_eq!(custom_field_edit_redirect(1, Some(3)).as_deref(), Some("/p/3/custom_fields"));
    assert_eq!(custom_field_edit_redirect(1, Some(1)), None);
    assert_eq!(custom_field_save_redirect(1, None, true), "/p/1/custom_fields");
    assert_eq!(custom_field_save_redirect(1, Some(7), true), "/p/1/custom_fields");
    assert_eq!(custom_field_save_redirect(1, None, false), "/p/1/custom_fields/new");
    assert_eq!(custom_field_save_redirect(1, Some(7), false), "/p/1/custom_fields/edit/7");
}

#[test]
fn enum_values_text_and_title() {
    let values = vec!["A".to_string(), "B".to_string()];
    assert_eq!(enum_values_text(&values), "A\nB");
    assert_eq!(enum_values_text(&Vec::new()), "");
    assert_eq!(edit_custom_field_title("Priority"), "Edit Priority - Custom Field");
}

#[test]
fn stored_enum_values_survive_the_edit_form() {
    let values = vec!["Low".to_string(), "Medium high".to_string(), "Top".to_string()];
    let form = CustomFieldForm {
        label: "Priority".to_string(),
        field_type: "enum".to_string(),
        enum_values: Some(enum_values_text(&values)),
        sort_order: Some(4),
    };
    let payload = form_to_payload(form);
    assert_eq!(payload.enum_values, Some(values));
    assert_eq!(payload.label, "Priority");
    assert_eq!(payload.sort_order, Some(4));
}
