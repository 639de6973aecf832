//! The administrator's backup page: backup file names, the `pg_dump`
//! invocation and the messages logged about a backup.
use vstd::prelude::*;

use crate::text::{concat, ends_with, has_suffix, push_str, trimmed, trim};

verus! {

/// `name` with `.sql` appended unless it already ends so.
pub open spec fn with_sql_extension(name: Seq<char>) -> Seq<char> {
    if ends_with(name, ".sql"@) {
        name
    } else {
        name + ".sql"@
    }
}

/// The backup file name for a requested name: `.sql` is appended when it
/// is missing.
pub fn ensure_sql_extension(name: &str) -> (r: String)
    ensures
        r@ == with_sql_extension(name@),
{
    if has_suffix(name, ".sql") {
        String::from_str(name)
    } else {
        concat(name, ".sql")
    }
}

/// A name that already carries the extension is left as it is, so applying
/// the rule twice gives what applying it once gives.
pub proof fn lemma_sql_extension_idempotent(name: Seq<char>)
    ensures
        ends_with(with_sql_extension(name), ".sql"@),
        with_sql_extension(with_sql_extension(name)) == with_sql_extension(name),
{
    if !ends_with(name, ".sql"@) {
        let r = name + ".sql"@;
        assert(r.subrange(r.len() - ".sql"@.len(), r.len() as int) =~= ".sql"@);
    }
}

/// Where a failed backup sends the administrator: the backup page.
pub fn admin_redirect() -> (r: String)
    ensures
        r@ == "/admin/backup"@,
{
    String::from_str("/admin/backup")
}

/// The command-line arguments of `pg_dump` that write `database` from
/// `host:port` as `user` into `out_path`, without a password prompt,
/// verbosely, and without owner or privilege statements.
pub fn pg_dump_args(host: &str, port: &str, user: &str, database: &str, out_path: &str) -> (r: Vec<String>)
    ensures
        r@.map_values(|a: String| a@) == seq![
            "-h"@,
            host@,
            "-p"@,
            port@,
            "-U"@,
            user@,
            "-d"@,
            database@,
            "-f"@,
            out_path@,
            "--no-password"@,
            "--verbose"@,
            "--no-owner"@,
            "--no-privileges"@,
        ],
{
    let mut r: Vec<String> = Vec::new();
    r.push(String::from_str("-h"));
    r.push(String::from_str(host));
    r.push(String::from_str("-p"));
    r.push(String::from_str(port));
    r.push(String::from_str("-U"));
    r.push(String::from_str(user));
    r.push(String::from_str("-d"));
    r.push(String::from_str(database));
    r.push(String::from_str("-f"));
    r.push(String::from_str(out_path));
    r.push(String::from_str("--no-password"));
    r.push(String::from_str("--verbose"));
    r.push(String::from_str("--no-owner"));
    r.push(String::from_str("--no-privileges"));
    assert(r@.map_values(|a: String| a@) =~= seq![
        "-h"@,
        host@,
        "-p"@,
        port@,
        "-U"@,
        user@,
        "-d"@,
        database@,
        "-f"@,
        out_path@,
        "--no-password"@,
        "--verbose"@,
        "--no-owner"@,
        "--no-privileges"@,
    ]);
    r
}

/// What the backup logs when `pg_dump` could not be started.
pub fn backup_command_failed_message(error: &str) -> (r: String)
    ensures
        r@ == "Database backup command failed: "@ + error@,
{
    concat("Database backup command failed: ", error)
}

/// What the backup logs when `pg_dump` failed: its trimmed error output.
pub fn backup_failed_message(stderr: &str) -> (r: String)
    ensures
        r@ == "Database backup failed: "@ + trimmed(stderr@),
{
    let t = trim(stderr);
    concat("Database backup failed: ", t.as_str())
}

/// What the backup logs when it succeeded.
pub fn backup_generated_message(filename: &str) -> (r: String)
    ensures
        r@ == "Database backup generated: "@ + filename@,
{
    concat("Database backup generated: ", filename)
}

} // verus!
