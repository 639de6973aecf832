use marreq::routes::html::project::document_import::{
    import_page_redirect, infer_upload_extension, normalized_upload_filename, requirements_redirect,
    review_redirect, review_title,
};

#[test]
fn document_import_redirects() {
    assert_eq!(requirements_redirect(3), "/p/3/requirements");
    assert_eq!(
        import_page_redirect(3, "Upload failed: bad file"),
        "/p/3/import_document?error=Upload%20failed%3A%20bad%20file"
    );
    assert_eq!(review_redirect(3, "abc-123"), "/p/3/import_document/review/abc-123");
    assert_eq!(review_title("Alpha"), "Review Document Import - Alpha");
}

#[test]
fn document_kinds() {
    assert_eq!(infer_upload_extension(Some("Application/PDF")), Some("pdf"));
    assert_eq!(
        infer_upload_extension(Some(
            "application/vnd.openxmlformats-officedocument.wordprocessingml.document"
        )),
        Some("docx")
    );
    assert_eq!(infer_upload_extension(Some("text/plain")), None);
    assert_eq!(infer_upload_extension(None), None);
}

#[test]
fn stored_document_names() {
    assert_eq!(normalized_upload_filename(Some("  spec.docx "), Some("application/pdf")), "spec.docx");
    assert_eq!(normalized_upload_filename(Some("spec"), Some("application/pdf")), "spec.pdf");
    assert_eq!(normalized_upload_filename(Some("spec"), None), "spec");
    assert_eq!(normalized_upload_filename(Some("spec."), Some("application/pdf")), "spec..pdf");
    assert_eq!(normalized_upload_filename(Some("   "), Some("application/pdf")), "uploaded-document.pdf");
    assert_eq!(normalized_upload_filename(None, None), "uploaded-document");
    assert_eq!(normalized_upload_filename(Some(".bashrc"), Some("application/pdf")), ".bashrc.pdf");
    assert_eq!(normalized_upload_filename(Some("v1.2/spec"), Some("application/pdf")), "v1.2/spec.pdf");
    assert_eq!(normalized_upload_filename(Some("docs/spec.docx"), Some("application/pdf")), "docs/spec.docx");
}
