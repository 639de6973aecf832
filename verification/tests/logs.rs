use marreq::routes::html::logs::{
    default_export_filename, ensure_json_extension, entity_logs_title, export_action_message,
    export_path, CLEANUP_DAYS, DEFAULT_EXPORT_LIMIT,
};

#[test]
fn ensure_json_extension_adds_when_missing() {
    assert_eq!(ensure_json_extension("logs"), "logs.json");
    assert_eq!(
        ensure_json_extension("reqman-logs_20240101"),
        "reqman-logs_20240101.json"
    );
}

#[test]
fn ensure_json_extension_preserves_when_present() {
    assert_eq!(ensure_json_extension("a.json"), "a.json");
    assert_eq!(ensure_json_extension("file.json"), "file.json");
}

#[test]
fn ensure_json_extension_is_idempotent() {
    let once = ensure_json_extension("x.JSON");
    assert_eq!(once, "x.JSON.json");
    assert_eq!(ensure_json_extension(&once), once);
}

#[test]
fn default_export_filename_pads_fields() {
    assert_eq!(default_export_filename(2024, 1, 2, 3, 4, 5), "reqman-logs_20240102_030405.json");
    assert_eq!(
        default_export_filename(2025, 12, 31, 23, 59, 58),
        "reqman-logs_20251231_235958.json"
    );
}

#[test]
fn default_export_filename_signs_years_outside_four_digits() {
    assert_eq!(default_export_filename(10000, 1, 2, 3, 4, 5), "reqman-logs_+100000102_030405.json");
    assert_eq!(default_export_filename(-5, 1, 2, 3, 4, 5), "reqman-logs_-00050102_030405.json");
    assert_eq!(default_export_filename(7, 1, 2, 3, 4, 5), "reqman-logs_00070102_030405.json");
}

#[test]
fn export_paths_and_messages() {
    assert_eq!(export_path("a.json"), "exports/a.json");
    assert_eq!(export_action_message("a.json"), "Exported logs to a.json");
    assert_eq!(entity_logs_title("requirement", 42), "Logs for requirement 42");
    assert_eq!(DEFAULT_EXPORT_LIMIT, 1000);
    assert_eq!(CLEANUP_DAYS, 90);
}
