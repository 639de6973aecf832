use marreq::routes::html::admin::{
    admin_redirect, backup_command_failed_message, backup_failed_message,
    backup_generated_message, ensure_sql_extension, pg_dump_args,
};

#[test]
fn ensure_sql_extension_adds_suffix_when_missing() {
    let name = "backup";
    let result = ensure_sql_extension(name);
    assert_eq!(result, "backup.sql");
}

#[test]
fn ensure_sql_extension_keeps_existing_suffix() {
    let name = "archive.sql";
    let result = ensure_sql_extension(name);
    assert_eq!(result, "archive.sql");
}

#[test]
fn ensure_sql_extension_is_idempotent() {
    let once = ensure_sql_extension("nightly");
    let twice = ensure_sql_extension(&once);
    assert_eq!(once, "nightly.sql");
    assert_eq!(twice, once);
}

#[test]
fn ensure_sql_extension_on_empty_and_dotted_names() {
    assert_eq!(ensure_sql_extension(""), ".sql");
    assert_eq!(ensure_sql_extension("dump.sql.gz"), "dump.sql.gz.sql");
}

#[test]
fn admin_redirect_targets_backup_page() {
    assert_eq!(admin_redirect(), "/admin/backup");
}

#[test]
fn pg_dump_args_lists_connection_and_output() {
    let args = pg_dump_args("db", "5432", "rust", "reqman", "backups/x.sql");
    assert_eq!(
        args,
        vec![
            "-h".to_string(),
            "db".to_string(),
            "-p".to_string(),
            "5432".to_string(),
            "-U".to_string(),
            "rust".to_string(),
            "-d".to_string(),
            "reqman".to_string(),
            "-f".to_string(),
            "backups/x.sql".to_string(),
            "--no-password".to_string(),
            "--verbose".to_string(),
            "--no-owner".to_string(),
            "--no-privileges".to_string(),
        ]
    );
}

#[test]
fn backup_messages_embed_their_detail() {
    assert_eq!(
        backup_command_failed_message("no such file"),
        "Database backup command failed: no such file"
    );
    assert_eq!(
        backup_failed_message("  bad password\n"),
        "Database backup failed: bad password"
    );
    assert_eq!(backup_generated_message("b.sql"), "Database backup generated: b.sql");
}
