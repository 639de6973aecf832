use vstd::prelude::*;

use crate::external::{
    file_name_is_last_component, last_component, name_extension, path_extension, url_encode, url_encoded,
};
use crate::route_info::{route, route_view, route_views, Method, RouteInfo, RouteView};
use crate::text::{
    ascii_lowercase, concat, contains_text, has_text, int_decimal, is_blank, push_int, push_str,
    to_ascii_lowercase, trim, trimmed,
};

verus! {

/// The routes this module serves, in mounting order: method, path pattern
/// and handler name.
pub open spec fn route_table() -> Seq<RouteView> {
    seq![
        route_view(Method::Get, "/<project_id>/import_document?<error>"@, "import_document_page"@),
        route_view(Method::Post, "/<project_id>/import_document/upload"@, "upload_document_import"@),
        route_view(Method::Get, "/<project_id>/import_document/review/<session_id>"@, "review_document_import_page"@),
    ]
}

/// The routes of this module, in the order they are mounted.
pub fn routes() -> (r: Vec<RouteInfo>)
    ensures
        route_views(r@) == route_table(),
{
    let mut r: Vec<RouteInfo> = Vec::new();
    r.push(route(Method::Get, "/<project_id>/import_document?<error>", "import_document_page"));
    r.push(route(Method::Post, "/<project_id>/import_document/upload", "upload_document_import"));
    r.push(route(Method::Get, "/<project_id>/import_document/review/<session_id>", "review_document_import_page"));
    assert(route_views(r@) =~= route_table());
    r
}

/// `/p/<project_id>/requirements`.
pub fn requirements_redirect(project_id: i32) -> (r: String)
    ensures
        r@ == "/p/"@ + int_decimal(project_id as int) + "/requirements"@,
{
    let mut r = String::from_str("/p/");
    push_int(&mut r, project_id as i64);
    push_str(&mut r, "/requirements");
    r
}

/// The document import page of a project with a percent-encoded error.
pub fn import_page_redirect(project_id: i32, error: &str) -> (r: String)
    ensures
        r@ == "/p/"@ + int_decimal(project_id as int) + "/import_document?error="@ + url_encoded(error@),
{
    let mut r = String::from_str("/p/");
    push_int(&mut r, project_id as i64);
    push_str(&mut r, "/import_document?error=");
    let e = url_encode(error);
    push_str(&mut r, e.as_str());
    r
}

/// The review page of an import session.
pub fn review_redirect(project_id: i32, session_id: &str) -> (r: String)
    ensures
        r@ == "/p/"@ + int_decimal(project_id as int) + "/import_document/review/"@ + session_id@,
{
    let mut r = String::from_str("/p/");
    push_int(&mut r, project_id as i64);
    push_str(&mut r, "/import_document/review/");
    push_str(&mut r, session_id);
    r
}

/// The document kind a content type (lower-cased) names: `pdf` or `docx`.
pub open spec fn document_extension(content_type: Option<Seq<char>>) -> Option<Seq<char>> {
    match content_type {
        Some(ct) => if contains_text(ascii_lowercase(ct), "application/pdf"@) {
            Some("pdf"@)
        } else if contains_text(
            ascii_lowercase(ct),
            "application/vnd.openxmlformats-officedocument.wordprocessingml.document"@,
        ) {
            Some("docx"@)
        } else {
            None
        },
        None => None,
    }
}

/// The view of an optional string slice.
pub open spec fn opt_text(o: Option<&str>) -> Option<Seq<char>> {
    match o {
        Some(s) => Some(s@),
        None => None,
    }
}

/// Exec form of `document_extension`.
pub fn infer_upload_extension(content_type: Option<&str>) -> (r: Option<&'static str>)
    ensures
        opt_text(r) == document_extension(opt_text(content_type)),
{
    match content_type {
        Some(ct) => {
            let lowered = to_ascii_lowercase(ct);
            if has_text(lowered.as_str(), "application/pdf") {
                Some("pdf")
            } else if has_text(lowered.as_str(), "application/vnd.openxmlformats-officedocument.wordprocessingml.document") {
                Some("docx")
            } else {
                None
            }
        },
        None => None,
    }
}

/// Whether a (trimmed) file name carries an extension that is not blank (the
/// extension of the part after its last `/`).
pub open spec fn has_named_extension(name: Seq<char>) -> bool {
    match name_extension(last_component(name)) {
        Some(e) => trimmed(e).len() > 0,
        None => false,
    }
}

/// The name an uploaded document is stored under: its trimmed name when it
/// has an extension, the name with the extension its content type implies
/// otherwise, and `uploaded-document` (with that extension) when it has no
/// name at all.
pub open spec fn normalized_name(raw_name: Option<Seq<char>>, content_type: Option<Seq<char>>) -> Seq<char> {
    let ext = document_extension(content_type);
    let name = match raw_name {
        Some(n) => if trimmed(n).len() > 0 {
            Some(trimmed(n))
        } else {
            None
        },
        None => None,
    };
    match name {
        Some(n) => if has_named_extension(n) {
            n
        } else {
            match ext {
                Some(e) => n + "."@ + e,
                None => n,
            }
        },
        None => match ext {
            Some(e) => "uploaded-document."@ + e,
            None => "uploaded-document"@,
        },
    }
}

/// Exec form of `normalized_name`, the extension being read by
/// `Path::extension` (for names whose file name is the part after the last
/// `/`).
pub fn normalized_upload_filename(raw_name: Option<&str>, content_type: Option<&str>) -> (r: String)
    ensures
        (raw_name matches Some(n) ==> file_name_is_last_component(trimmed(n@))) ==> r@ == normalized_name(
            opt_text(raw_name),
            opt_text(content_type),
        ),
{
    let inferred = infer_upload_extension(content_type);
    let name = match raw_name {
        Some(n) => {
            let t = trim(n);
            if t.as_str().is_empty() {
                None
            } else {
                Some(t)
            }
        },
        None => None,
    };
    match name {
        Some(n) => {
            let has_extension = match path_extension(n.as_str()) {
                Some(e) => !is_blank(e.as_str()),
                None => false,
            };
            if has_extension {
                n
            } else {
                match inferred {
                    Some(e) => {
                        let mut r = n;
                        push_str(&mut r, ".");
                        push_str(&mut r, e);
                        r
                    },
                    None => n,
                }
            }
        },
        None => match inferred {
            Some(e) => concat("uploaded-document.", e),
            None => String::from_str("uploaded-document"),
        },
    }
}

/// The title of the review page.
pub fn review_title(project_name: &str) -> (r: String)
    ensures
        r@ == "Review Document Import - "@ + project_name@,
{
    concat("Review Document Import - ", project_name)
}

} // verus!
