//! The log pages: export file names and the messages and titles around them.
use vstd::prelude::*;

use crate::text::{concat, ends_with, has_suffix, int_decimal, push_int, push_str, push_zero_padded, zero_padded};

verus! {

/// Log entries exported at most.
pub const DEFAULT_EXPORT_LIMIT: i64 = 1000;

/// Age in days past which logs are cleaned up.
pub const CLEANUP_DAYS: i64 = 90;

/// `name` with `.json` appended unless it already ends so.
pub open spec fn with_json_extension(name: Seq<char>) -> Seq<char> {
    if ends_with(name, ".json"@) {
        name
    } else {
        name + ".json"@
    }
}

/// The export file name for a requested name: `.json` is appended when it
/// is missing.
pub fn ensure_json_extension(name: &str) -> (r: String)
    ensures
        r@ == with_json_extension(name@),
{
    if has_suffix(name, ".json") {
        String::from_str(name)
    } else {
        concat(name, ".json")
    }
}

/// Applying the rule twice gives what applying it once gives.
pub proof fn lemma_json_extension_idempotent(name: Seq<char>)
    ensures
        ends_with(with_json_extension(name), ".json"@),
        with_json_extension(with_json_extension(name)) == with_json_extension(name),
{
    if !ends_with(name, ".json"@) {
        let r = name + ".json"@;
        assert(r.subrange(r.len() - ".json"@.len(), r.len() as int) =~= ".json"@);
    }
}

/// A year as chrono's `%Y` writes it: four digits for years 0 to 9999;
/// otherwise always signed, the digits padded to at least four.
pub open spec fn year_field(year: int) -> Seq<char> {
    if 0 <= year <= 9999 {
        zero_padded(year, 4)
    } else if year < 0 {
        zero_padded(year, 5)
    } else {
        "+"@ + zero_padded(year, 4)
    }
}

/// `reqman-logs_YYYYmmdd_HHMMSS.json`, the export name used when none is
/// given, for the current time's calendar fields (the `%Y%m%d_%H%M%S`
/// format of chrono).
pub fn default_export_filename(year: i32, month: u32, day: u32, hour: u32, minute: u32, second: u32) -> (r: String)
    ensures
        r@ == "reqman-logs_"@ + year_field(year as int) + zero_padded(month as int, 2) + zero_padded(
            day as int,
            2,
        ) + "_"@ + zero_padded(hour as int, 2) + zero_padded(minute as int, 2) + zero_padded(
            second as int,
            2,
        ) + ".json"@,
{
    let mut r = String::from_str("reqman-logs_");
    if 0 <= year && year <= 9999 {
        push_zero_padded(&mut r, year as i64, 4);
    } else if year < 0 {
        push_zero_padded(&mut r, year as i64, 5);
    } else {
        push_str(&mut r, "+");
        push_zero_padded(&mut r, year as i64, 4);
    }
    push_zero_padded(&mut r, month as i64, 2);
    push_zero_padded(&mut r, day as i64, 2);
    push_str(&mut r, "_");
    push_zero_padded(&mut r, hour as i64, 2);
    push_zero_padded(&mut r, minute as i64, 2);
    push_zero_padded(&mut r, second as i64, 2);
    push_str(&mut r, ".json");
    r
}

/// Where an export is written: `exports/<filename>`.
pub fn export_path(filename: &str) -> (r: String)
    ensures
        r@ == "exports/"@ + filename@,
{
    concat("exports/", filename)
}

/// The message logged after an export.
pub fn export_action_message(filename: &str) -> (r: String)
    ensures
        r@ == "Exported logs to "@ + filename@,
{
    concat("Exported logs to ", filename)
}

/// The title of the log page of one entity.
pub fn entity_logs_title(entity_type: &str, entity_id: i32) -> (r: String)
    ensures
        r@ == "Logs for "@ + entity_type@ + " "@ + int_decimal(entity_id as int),
{
    let mut r = concat("Logs for ", entity_type);
    push_str(&mut r, " ");
    push_int(&mut r, entity_id as i64);
    r
}

} // verus!
