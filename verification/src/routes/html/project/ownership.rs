//! Access to a project-scoped record reached under a project's path: the
//! record may be missing, belong to another project, or be a system record
//! that cannot be edited.
use vstd::prelude::*;

use crate::text::{concat, int_decimal, push_int, push_str};

verus! {

/// What a page that edits or deletes a record of a project finds.
#[derive(Clone, Copy, Debug, PartialEq, Eq, Structural)]
pub enum RecordAccess {
    /// There is no such record.
    Missing,
    /// It belongs to the project with this id.
    OtherProject(i32),
    /// It is a system record, shown but not editable.
    SystemRecord,
    /// It may be edited here.
    Allowed,
}

/// Missing records first, then records of other projects, then system
/// records; everything else is allowed.
pub open spec fn record_access_of(project_id: i32, record_project_id: Option<i32>, is_system: bool) -> RecordAccess {
    match record_project_id {
        None => RecordAccess::Missing,
        Some(p) => if p != project_id {
            RecordAccess::OtherProject(p)
        } else if is_system {
            RecordAccess::SystemRecord
        } else {
            RecordAccess::Allowed
        },
    }
}

/// Exec form of `record_access_of`.
pub fn record_access(project_id: i32, record_project_id: Option<i32>, is_system: bool) -> (r: RecordAccess)
    ensures
        r == record_access_of(project_id, record_project_id, is_system),
{
    match record_project_id {
        None => RecordAccess::Missing,
        Some(p) => if p != project_id {
            RecordAccess::OtherProject(p)
        } else if is_system {
            RecordAccess::SystemRecord
        } else {
            RecordAccess::Allowed
        },
    }
}

/// `/p/<project_id>/<section>`.
pub open spec fn section_path_text(project_id: i32, section: Seq<char>) -> Seq<char> {
    "/p/"@ + int_decimal(project_id as int) + "/"@ + section
}

/// The list page of a section of a project, by id.
pub fn section_path(project_id: i32, section: &str) -> (r: String)
    ensures
        r@ == section_path_text(project_id, section@),
{
    let mut r = String::from_str("/p/");
    push_int(&mut r, project_id as i64);
    push_str(&mut r, "/");
    push_str(&mut r, section);
    r
}

/// `/<slug>/<section>`.
pub open spec fn slug_section_path_text(project_slug: Seq<char>, section: Seq<char>) -> Seq<char> {
    "/"@ + project_slug + "/"@ + section
}

/// The list page of a section of a project, by slug.
pub fn slug_section_path(project_slug: &str, section: &str) -> (r: String)
    ensures
        r@ == slug_section_path_text(project_slug@, section@),
{
    let mut r = concat("/", project_slug);
    push_str(&mut r, "/");
    push_str(&mut r, section);
    r
}

/// `Edit <title> - <kind>`, the title of an edit page.
pub fn edit_page_title(title: &str, kind: &str) -> (r: String)
    ensures
        r@ == "Edit "@ + title@ + " - "@ + kind@,
{
    let mut r = concat("Edit ", title);
    push_str(&mut r, " - ");
    push_str(&mut r, kind);
    r
}

/// A colour of a status form: none when it is left empty.
pub fn optional_color(tag_color: Option<String>) -> (r: Option<String>)
    ensures
        r == (match tag_color {
            Some(c) => if c@.len() == 0 {
                None
            } else {
                Some(c)
            },
            None => None,
        }),
{
    match tag_color {
        Some(c) => if c.as_str().is_empty() {
            None
        } else {
            Some(c)
        },
        None => None,
    }
}

/// Where an edit page of a section sends the user instead of showing the
/// record: the project's own list when the record is missing or a system
/// record, the owning project's list when it belongs to another project;
/// `None` when it may be edited.
pub fn edit_redirect(project_id: i32, record_project_id: Option<i32>, is_system: bool, section: &str) -> (r:
    Option<String>)
    ensures
        r == None::<String> <==> record_access_of(project_id, record_project_id, is_system) == RecordAccess::Allowed,
        r matches Some(p) ==> p@ == section_path_text(
            match record_access_of(project_id, record_project_id, is_system) {
                RecordAccess::OtherProject(o) => o,
                _ => project_id,
            },
            section@,
        ),
{
    match record_access(project_id, record_project_id, is_system) {
        RecordAccess::Allowed => None,
        RecordAccess::OtherProject(o) => Some(section_path(o, section)),
        _ => Some(section_path(project_id, section)),
    }
}

/// The same for sections addressed by slug; `owner_slug` is the slug of the
/// project the record belongs to.
pub fn slug_edit_redirect(
    project_id: i32,
    project_slug: &str,
    record_project_id: Option<i32>,
    owner_slug: &str,
    is_system: bool,
    section: &str,
) -> (r: Option<String>)
    ensures
        r == None::<String> <==> record_access_of(project_id, record_project_id, is_system) == RecordAccess::Allowed,
        r matches Some(p) ==> p@ == slug_section_path_text(
            if record_access_of(project_id, record_project_id, is_system) is OtherProject {
                owner_slug@
            } else {
                project_slug@
            },
            section@,
        ),
{
    match record_access(project_id, record_project_id, is_system) {
        RecordAccess::Allowed => None,
        RecordAccess::OtherProject(_) => Some(slug_section_path(owner_slug, section)),
        _ => Some(slug_section_path(project_slug, section)),
    }
}

/// What deleting a record of a section comes to.
#[derive(Debug)]
pub enum DeleteOutcome {
    NotFound,
    /// The record belongs to another project: to that project's list.
    Redirect(String),
    Proceed,
}

/// A missing record is not found; one of another project sends the user to
/// that project's list; otherwise the delete goes ahead.
pub fn delete_decision(project_id: i32, record_project_id: Option<i32>, section: &str) -> (r: DeleteOutcome)
    ensures
        record_project_id is None ==> r is NotFound,
        record_project_id matches Some(o) ==> (o != project_id ==> (r matches DeleteOutcome::Redirect(p)
            && p@ == section_path_text(o, section@))),
        record_project_id == Some(project_id) ==> r is Proceed,
{
    match record_project_id {
        None => DeleteOutcome::NotFound,
        Some(o) => if o != project_id {
            DeleteOutcome::Redirect(section_path(o, section))
        } else {
            DeleteOutcome::Proceed
        },
    }
}

} // verus!
