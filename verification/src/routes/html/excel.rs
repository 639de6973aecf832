//! The spreadsheet import pages: the upload form, the column mapping, the
//! result pages, and the checks between them.
use vstd::prelude::*;

use crate::external::{
    file_name_is_last_component, last_component, name_extension, path_extension, push_char, url_encode,
    url_encoded,
};
use crate::text::{
    ascii_lowercase, concat, contains_text, has_text, int_decimal, joined, nat_decimal,
    push_decimal, push_int, push_str, same_text, to_ascii_lowercase,
};

verus! {

/// The text of the import page of a project (`error_html` is shown above the form).
pub open spec fn import_page_text(name: Seq<char>, project_id: i32, project_slug: Seq<char>, error_html: Seq<char>) -> Seq<char> {
    "\n    <!doctype html>\n    <html lang='en'>\n    <head>\n        <title>Marreq - Import File</title>\n        <meta charset=\"utf-8\">\n        <meta name=\"viewport\" content=\"width=device-width, initial-scale=1\">\n        <link href=\"https://cdn.jsdelivr.net/npm/bootstrap@5.3.0/dist/css/bootstrap.min.css\" rel=\"stylesheet\">\n        <link rel='stylesheet' href='/static/marreq.css'>\n    </head>\n    <body>\n        <div class=\"container mt-4\">\n            <div class=\"row\">\n                <div class=\"col-md-8 offset-md-2\">\n                    <div class=\"card\">\n                        <div class=\"card-header\">\n                            <h3>Import File</h3>\n                        </div>\n                        <div class=\"card-body\">\n                            <div class=\"alert alert-info\">\n                                <strong>Target Project:</strong> "@ + name + " (ID: "@ + int_decimal(project_id as int) + ")\n                                <br>\n                                <small class=\"text-muted\">Requirements and tests will be imported into this project. You can change the project using the dropdown in the navigation bar above.</small>\n                            </div>\n                            "@ + error_html + "\n                            <p>Upload a file to import requirements or tests into the selected project.</p>\n                            <form action=\"/"@ + project_slug + "/import_excel/upload\" method=\"post\" enctype=\"multipart/form-data\">\n                                <div class=\"mb-3\">\n                                    <label for=\"excel_file\" class=\"form-label\">Select File</label>\n                                    <input type=\"file\" class=\"form-control\" id=\"excel_file\" name=\"file\" accept=\".xlsx,.xls,.csv\" required>\n                                    <div class=\"form-text\">Supported formats: .xlsx, .xls, .csv</div>\n                                </div>\n                                <div class=\"mt-3\">\n                                    <button type=\"submit\" class=\"btn btn-primary\">Upload File</button>\n                                    <a href=\"/\" class=\"btn btn-secondary\">Cancel</a>\n                                </div>\n                            </form>\n                        </div>\n                    </div>\n                </div>\n            </div>\n        </div>\n    </body>\n    </html>\n    "@
}

/// Renders the import page of a project (`error_html` is shown above the form).
pub fn render_import_page_html(name: &str, project_id: i32, project_slug: &str, error_html: &str) -> (r: String)
    ensures
        r@ == import_page_text(name@, project_id, project_slug@, error_html@),
{
    let mut r = String::new();
    push_str(&mut r, "\n    <!doctype html>\n    <html lang='en'>\n    <head>\n        <title>Marreq - Import File</title>\n        <meta charset=\"utf-8\">\n        <meta name=\"viewport\" content=\"width=device-width, initial-scale=1\">\n        <link href=\"https://cdn.jsdelivr.net/npm/bootstrap@5.3.0/dist/css/bootstrap.min.css\" rel=\"stylesheet\">\n        <link rel='stylesheet' href='/static/marreq.css'>\n    </head>\n    <body>\n        <div class=\"container mt-4\">\n            <div class=\"row\">\n                <div class=\"col-md-8 offset-md-2\">\n                    <div class=\"card\">\n                        <div class=\"card-header\">\n                            <h3>Import File</h3>\n                        </div>\n                        <div class=\"card-body\">\n                            <div class=\"alert alert-info\">\n                                <strong>Target Project:</strong> ");
    push_str(&mut r, name);
    push_str(&mut r, " (ID: ");
    push_int(&mut r, project_id as i64);
    push_str(&mut r, ")\n                                <br>\n                                <small class=\"text-muted\">Requirements and tests will be imported into this project. You can change the project using the dropdown in the navigation bar above.</small>\n                            </div>\n                            ");
    push_str(&mut r, error_html);
    push_str(&mut r, "\n                            <p>Upload a file to import requirements or tests into the selected project.</p>\n                            <form action=\"/");
    push_str(&mut r, project_slug);
    push_str(&mut r, "/import_excel/upload\" method=\"post\" enctype=\"multipart/form-data\">\n                                <div class=\"mb-3\">\n                                    <label for=\"excel_file\" class=\"form-label\">Select File</label>\n                                    <input type=\"file\" class=\"form-control\" id=\"excel_file\" name=\"file\" accept=\".xlsx,.xls,.csv\" required>\n                                    <div class=\"form-text\">Supported formats: .xlsx, .xls, .csv</div>\n                                </div>\n                                <div class=\"mt-3\">\n                                    <button type=\"submit\" class=\"btn btn-primary\">Upload File</button>\n                                    <a href=\"/\" class=\"btn btn-secondary\">Cancel</a>\n                                </div>\n                            </form>\n                        </div>\n                    </div>\n                </div>\n            </div>\n        </div>\n    </body>\n    </html>\n    ");
    assert(r@ =~= import_page_text(name@, project_id, project_slug@, error_html@));
    r
}

/// The text of one target-field choice of the column mapping.
pub open spec fn field_option_text(field: Seq<char>) -> Seq<char> {
    "<option value=\""@ + field + "\">"@ + field + "</option>"@
}

/// Renders one target-field choice of the column mapping.
pub fn field_option_html(field: &str) -> (r: String)
    ensures
        r@ == field_option_text(field@),
{
    let mut r = String::new();
    push_str(&mut r, "<option value=\"");
    push_str(&mut r, field);
    push_str(&mut r, "\">");
    push_str(&mut r, field);
    push_str(&mut r, "</option>");
    assert(r@ =~= field_option_text(field@));
    r
}

/// The text of the mapping row of one spreadsheet column.
pub open spec fn mapping_row_text(column: Seq<char>, field_name: Seq<char>, options_html: Seq<char>, sample: Seq<char>) -> Seq<char> {
    "<tr>\n                    <td>"@ + column + "</td>\n                    <td>\n                        <select name=\"field_"@ + field_name + "\" class=\"form-select\">\n                            <option value=\"\">-- Select Field --</option>\n                            "@ + options_html + "\n                        </select>\n                    </td>\n                    <td><small class=\"text-muted\">"@ + sample + "</small></td>\n                </tr>"@
}

/// Renders the mapping row of one spreadsheet column.
pub fn mapping_row_html(column: &str, field_name: &str, options_html: &str, sample: &str) -> (r: String)
    ensures
        r@ == mapping_row_text(column@, field_name@, options_html@, sample@),
{
    let mut r = String::new();
    push_str(&mut r, "<tr>\n                    <td>");
    push_str(&mut r, column);
    push_str(&mut r, "</td>\n                    <td>\n                        <select name=\"field_");
    push_str(&mut r, field_name);
    push_str(&mut r, "\" class=\"form-select\">\n                            <option value=\"\">-- Select Field --</option>\n                            ");
    push_str(&mut r, options_html);
    push_str(&mut r, "\n                        </select>\n                    </td>\n                    <td><small class=\"text-muted\">");
    push_str(&mut r, sample);
    push_str(&mut r, "</small></td>\n                </tr>");
    assert(r@ =~= mapping_row_text(column@, field_name@, options_html@, sample@));
    r
}

/// The text of the column-mapping page of an upload.
pub open spec fn mapping_page_text(import_type: Seq<char>, data_rows: usize, project_slug: Seq<char>, temp_path: Seq<char>, rows_html: Seq<char>) -> Seq<char> {
    "\n    <!doctype html>\n    <html lang='en'>\n    <head>\n        <title>Marreq - Map Columns</title>\n        <meta charset=\"utf-8\">\n        <meta name=\"viewport\" content=\"width=device-width, initial-scale=1\">\n        <link href=\"https://cdn.jsdelivr.net/npm/bootstrap@5.3.0/dist/css/bootstrap.min.css\" rel=\"stylesheet\">\n        <link rel='stylesheet' href='/static/marreq.css'>\n    </head>\n    <body>\n        <div class=\"container mt-4\">\n            <div class=\"row\">\n                <div class=\"col-md-10 offset-md-1\">\n                    <div class=\"card\">\n                        <div class=\"card-header\">\n                            <h3>Map Columns</h3>\n                            <p class=\"mb-0\">Import Type: <strong>"@ + import_type + "</strong> | Data Rows: <strong>"@ + nat_decimal(data_rows as nat) + "</strong></p>\n                        </div>\n                        <div class=\"card-body\">\n                            <form action=\"/"@ + project_slug + "/import_excel/process\" method=\"post\" id=\"mapping-form\">\n                                <input type=\"hidden\" name=\"import_type\" value=\""@ + import_type + "\">\n                                <input type=\"hidden\" name=\"temp_file\" value=\""@ + temp_path + "\">\n                                <input type=\"hidden\" name=\"column_mappings\" id=\"column_mappings\" value=\"\">\n                                \n                                <div class=\"table-responsive\">\n                                    <table class=\"table table-bordered\">\n                                        <thead>\n                                            <tr>\n                                                <th>Excel Column</th>\n                                                <th>Map To Field</th>\n                                                <th>Sample Data</th>\n                                            </tr>\n                                        </thead>\n                                        <tbody>\n                                            "@ + rows_html + "\n                                        </tbody>\n                                    </table>\n                                </div>\n                                \n                                <div class=\"mt-3\">\n                                    <button type=\"submit\" class=\"btn btn-primary\">Import Data</button>\n                                    <a href=\"/"@ + project_slug + "/import_excel\" class=\"btn btn-secondary\">Cancel</a>\n                                </div>\n                            </form>\n                        </div>\n                    </div>\n                </div>\n            </div>\n        </div>\n        \n        <script>\n        document.addEventListener('DOMContentLoaded', function() {\n            const form = document.getElementById('mapping-form');\n            form.addEventListener('submit', function(e) {\n                e.preventDefault();\n                \n                const mappings = [];\n                const rows = document.querySelectorAll('tbody tr');\n                rows.forEach(function(row) {\n                    const column = row.querySelector('td:first-child').textContent.trim();\n                    const field = row.querySelector('select[name^=\"field\"]').value;\n                    if (field && field !== '') {\n                        mappings.push({\n                            excel_column: column,\n                            target_field: field\n                        });\n                    }\n                });\n                \n                document.getElementById('column_mappings').value = JSON.stringify(mappings);\n                form.submit();\n            });\n        });\n        </script>\n    </body>\n    </html>\n    "@
}

/// Renders the column-mapping page of an upload.
pub fn mapping_page_html(import_type: &str, data_rows: usize, project_slug: &str, temp_path: &str, rows_html: &str) -> (r: String)
    ensures
        r@ == mapping_page_text(import_type@, data_rows, project_slug@, temp_path@, rows_html@),
{
    let mut r = String::new();
    push_str(&mut r, "\n    <!doctype html>\n    <html lang='en'>\n    <head>\n        <title>Marreq - Map Columns</title>\n        <meta charset=\"utf-8\">\n        <meta name=\"viewport\" content=\"width=device-width, initial-scale=1\">\n        <link href=\"https://cdn.jsdelivr.net/npm/bootstrap@5.3.0/dist/css/bootstrap.min.css\" rel=\"stylesheet\">\n        <link rel='stylesheet' href='/static/marreq.css'>\n    </head>\n    <body>\n        <div class=\"container mt-4\">\n            <div class=\"row\">\n                <div class=\"col-md-10 offset-md-1\">\n                    <div class=\"card\">\n                        <div class=\"card-header\">\n                            <h3>Map Columns</h3>\n                            <p class=\"mb-0\">Import Type: <strong>");
    push_str(&mut r, import_type);
    push_str(&mut r, "</strong> | Data Rows: <strong>");
    push_decimal(&mut r, data_rows as u64);
    push_str(&mut r, "</strong></p>\n                        </div>\n                        <div class=\"card-body\">\n                            <form action=\"/");
    push_str(&mut r, project_slug);
    push_str(&mut r, "/import_excel/process\" method=\"post\" id=\"mapping-form\">\n                                <input type=\"hidden\" name=\"import_type\" value=\"");
    push_str(&mut r, import_type);
    push_str(&mut r, "\">\n                                <input type=\"hidden\" name=\"temp_file\" value=\"");
    push_str(&mut r, temp_path);
    push_str(&mut r, "\">\n                                <input type=\"hidden\" name=\"column_mappings\" id=\"column_mappings\" value=\"\">\n                                \n                                <div class=\"table-responsive\">\n                                    <table class=\"table table-bordered\">\n                                        <thead>\n                                            <tr>\n                                                <th>Excel Column</th>\n                                                <th>Map To Field</th>\n                                                <th>Sample Data</th>\n                                            </tr>\n                                        </thead>\n                                        <tbody>\n                                            ");
    push_str(&mut r, rows_html);
    push_str(&mut r, "\n                                        </tbody>\n                                    </table>\n                                </div>\n                                \n                                <div class=\"mt-3\">\n                                    <button type=\"submit\" class=\"btn btn-primary\">Import Data</button>\n                                    <a href=\"/");
    push_str(&mut r, project_slug);
    push_str(&mut r, "/import_excel\" class=\"btn btn-secondary\">Cancel</a>\n                                </div>\n                            </form>\n                        </div>\n                    </div>\n                </div>\n            </div>\n        </div>\n        \n        <script>\n        document.addEventListener('DOMContentLoaded', function() {\n            const form = document.getElementById('mapping-form');\n            form.addEventListener('submit', function(e) {\n                e.preventDefault();\n                \n                const mappings = [];\n                const rows = document.querySelectorAll('tbody tr');\n                rows.forEach(function(row) {\n                    const column = row.querySelector('td:first-child').textContent.trim();\n                    const field = row.querySelector('select[name^=\"field\"]').value;\n                    if (field && field !== '') {\n                        mappings.push({\n                            excel_column: column,\n                            target_field: field\n                        });\n                    }\n                });\n                \n                document.getElementById('column_mappings').value = JSON.stringify(mappings);\n                form.submit();\n            });\n        });\n        </script>\n    </body>\n    </html>\n    ");
    assert(r@ =~= mapping_page_text(import_type@, data_rows, project_slug@, temp_path@, rows_html@));
    r
}

/// The text of the page shown after a successful import.
pub open spec fn import_success_text(imported_count: usize, import_type: Seq<char>, name: Seq<char>, project_id: i32, project_slug: Seq<char>) -> Seq<char> {
    "\n            <!doctype html>\n            <html lang='en'>\n            <head>\n                <title>Marreq - Import Results</title>\n                <meta charset=\"utf-8\">\n                <meta name=\"viewport\" content=\"width=device-width, initial-scale=1\">\n                <link href=\"https://cdn.jsdelivr.net/npm/bootstrap@5.3.0/dist/css/bootstrap.min.css\" rel=\"stylesheet\">\n                <link rel='stylesheet' href='/static/marreq.css'>\n            </head>\n            <body>\n                <div class=\"container mt-4\">\n                    <div class=\"row\">\n                        <div class=\"col-md-8 offset-md-2\">\n                            <div class=\"card border-success\">\n                                <div class=\"card-header bg-success text-white\">\n                                    <h3><i class=\"fas fa-check-circle\"></i> Import Successful</h3>\n                                </div>\n                                <div class=\"card-body\">\n                                    <div class=\"alert alert-success\">\n                                        <h5>Import completed successfully!</h5>\n                                        <p><strong>Records imported:</strong> "@ + nat_decimal(imported_count as nat) + "</p>\n                                        <p><strong>Import type:</strong> "@ + import_type + "</p>\n                                        <p><strong>Target project:</strong> "@ + name + " (ID: "@ + int_decimal(project_id as int) + ")</p>\n                                    </div>\n                                    \n                                    <div class=\"mt-3\">\n                                        <a href=\"/\" class=\"btn btn-primary\">Back to Home</a>\n                                        <a href=\"/"@ + project_slug + "/import_excel\" class=\"btn btn-outline-primary\">Import Another File</a>\n                                    </div>\n                                </div>\n                            </div>\n                        </div>\n                    </div>\n                </div>\n            </body>\n            </html>\n            "@
}

/// Renders the page shown after a successful import.
pub fn import_success_html(imported_count: usize, import_type: &str, name: &str, project_id: i32, project_slug: &str) -> (r: String)
    ensures
        r@ == import_success_text(imported_count, import_type@, name@, project_id, project_slug@),
{
    let mut r = String::new();
    push_str(&mut r, "\n            <!doctype html>\n            <html lang='en'>\n            <head>\n                <title>Marreq - Import Results</title>\n                <meta charset=\"utf-8\">\n                <meta name=\"viewport\" content=\"width=device-width, initial-scale=1\">\n                <link href=\"https://cdn.jsdelivr.net/npm/bootstrap@5.3.0/dist/css/bootstrap.min.css\" rel=\"stylesheet\">\n                <link rel='stylesheet' href='/static/marreq.css'>\n            </head>\n            <body>\n                <div class=\"container mt-4\">\n                    <div class=\"row\">\n                        <div class=\"col-md-8 offset-md-2\">\n                            <div class=\"card border-success\">\n                                <div class=\"card-header bg-success text-white\">\n                                    <h3><i class=\"fas fa-check-circle\"></i> Import Successful</h3>\n                                </div>\n                                <div class=\"card-body\">\n                                    <div class=\"alert alert-success\">\n                                        <h5>Import completed successfully!</h5>\n                                        <p><strong>Records imported:</strong> ");
    push_decimal(&mut r, imported_count as u64);
    push_str(&mut r, "</p>\n                                        <p><strong>Import type:</strong> ");
    push_str(&mut r, import_type);
    push_str(&mut r, "</p>\n                                        <p><strong>Target project:</strong> ");
    push_str(&mut r, name);
    push_str(&mut r, " (ID: ");
    push_int(&mut r, project_id as i64);
    push_str(&mut r, ")</p>\n                                    </div>\n                                    \n                                    <div class=\"mt-3\">\n                                        <a href=\"/\" class=\"btn btn-primary\">Back to Home</a>\n                                        <a href=\"/");
    push_str(&mut r, project_slug);
    push_str(&mut r, "/import_excel\" class=\"btn btn-outline-primary\">Import Another File</a>\n                                    </div>\n                                </div>\n                            </div>\n                        </div>\n                    </div>\n                </div>\n            </body>\n            </html>\n            ");
    assert(r@ =~= import_success_text(imported_count, import_type@, name@, project_id, project_slug@));
    r
}

/// The text of the page shown after a failed import.
pub open spec fn import_failure_text(error: Seq<char>, name: Seq<char>, project_id: i32, project_slug: Seq<char>) -> Seq<char> {
    "\n            <!doctype html>\n            <html lang='en'>\n            <head>\n                <title>Marreq - Import Error</title>\n                <meta charset=\"utf-8\">\n                <meta name=\"viewport\" content=\"width=device-width, initial-scale=1\">\n                <link href=\"https://cdn.jsdelivr.net/npm/bootstrap@5.3.0/dist/css/bootstrap.min.css\" rel=\"stylesheet\">\n                <link rel='stylesheet' href='/static/marreq.css'>\n            </head>\n            <body>\n                <div class=\"container mt-4\">\n                    <div class=\"row\">\n                        <div class=\"col-md-8 offset-md-2\">\n                            <div class=\"card border-danger\">\n                                <div class=\"card-header bg-danger text-white\">\n                                    <h3><i class=\"fas fa-exclamation-triangle\"></i> Import Failed</h3>\n                                </div>\n                                <div class=\"card-body\">\n                                    <div class=\"alert alert-danger\">\n                                        <h5>Import failed!</h5>\n                                        <p><strong>Error:</strong> "@ + error + "</p>\n                                        <p><strong>Target project:</strong> "@ + name + " (ID: "@ + int_decimal(project_id as int) + ")</p>\n                                    </div>\n                                    \n                                    <div class=\"mt-3\">\n                                        <a href=\"/"@ + project_slug + "/import_excel\" class=\"btn btn-primary\">Try Again</a>\n                                        <a href=\"/\" class=\"btn btn-secondary\">Back to Home</a>\n                                    </div>\n                                </div>\n                            </div>\n                        </div>\n                    </div>\n                </div>\n            </body>\n            </html>\n            "@
}

/// Renders the page shown after a failed import.
pub fn import_failure_html(error: &str, name: &str, project_id: i32, project_slug: &str) -> (r: String)
    ensures
        r@ == import_failure_text(error@, name@, project_id, project_slug@),
{
    let mut r = String::new();
    push_str(&mut r, "\n            <!doctype html>\n            <html lang='en'>\n            <head>\n                <title>Marreq - Import Error</title>\n                <meta charset=\"utf-8\">\n                <meta name=\"viewport\" content=\"width=device-width, initial-scale=1\">\n                <link href=\"https://cdn.jsdelivr.net/npm/bootstrap@5.3.0/dist/css/bootstrap.min.css\" rel=\"stylesheet\">\n                <link rel='stylesheet' href='/static/marreq.css'>\n            </head>\n            <body>\n                <div class=\"container mt-4\">\n                    <div class=\"row\">\n                        <div class=\"col-md-8 offset-md-2\">\n                            <div class=\"card border-danger\">\n                                <div class=\"card-header bg-danger text-white\">\n                                    <h3><i class=\"fas fa-exclamation-triangle\"></i> Import Failed</h3>\n                                </div>\n                                <div class=\"card-body\">\n                                    <div class=\"alert alert-danger\">\n                                        <h5>Import failed!</h5>\n                                        <p><strong>Error:</strong> ");
    push_str(&mut r, error);
    push_str(&mut r, "</p>\n                                        <p><strong>Target project:</strong> ");
    push_str(&mut r, name);
    push_str(&mut r, " (ID: ");
    push_int(&mut r, project_id as i64);
    push_str(&mut r, ")</p>\n                                    </div>\n                                    \n                                    <div class=\"mt-3\">\n                                        <a href=\"/");
    push_str(&mut r, project_slug);
    push_str(&mut r, "/import_excel\" class=\"btn btn-primary\">Try Again</a>\n                                        <a href=\"/\" class=\"btn btn-secondary\">Back to Home</a>\n                                    </div>\n                                </div>\n                            </div>\n                        </div>\n                    </div>\n                </div>\n            </body>\n            </html>\n            ");
    assert(r@ =~= import_failure_text(error@, name@, project_id, project_slug@));
    r
}

/// The error shown above the import form: the message in a red alert, or
/// nothing.
pub fn import_error_html(error: Option<&str>) -> (r: String)
    ensures
        r@ == (match error {
            Some(m) => "<div class=\"alert alert-danger\">"@ + m@ + "</div>"@,
            None => Seq::<char>::empty(),
        }),
{
    match error {
        Some(m) => {
            let mut r = String::from_str("<div class=\"alert alert-danger\">");
            push_str(&mut r, m);
            push_str(&mut r, "</div>");
            r
        },
        None => String::new(),
    }
}

/// `/<slug>/import_excel?error=<message>`, the import page with a
/// percent-encoded error.
pub open spec fn import_error_path_text(project_slug: Seq<char>, message: Seq<char>) -> Seq<char> {
    "/"@ + project_slug + "/import_excel?error="@ + url_encoded(message)
}

/// The import page of a project with an error message.
pub fn import_error_redirect(project_slug: &str, message: &str) -> (r: String)
    ensures
        r@ == import_error_path_text(project_slug@, message@),
{
    let mut r = concat("/", project_slug);
    push_str(&mut r, "/import_excel?error=");
    let e = url_encode(message);
    push_str(&mut r, e.as_str());
    r
}

/// The spreadsheet kind of an upload's content type (lower-cased): `csv`,
/// `xls` or `xlsx` by the type it names, otherwise none.
pub open spec fn extension_for_content_type(content_type: Seq<char>) -> Seq<char> {
    if contains_text(content_type, "text/csv"@) {
        "csv"@
    } else if contains_text(content_type, "application/vnd.ms-excel"@) {
        "xls"@
    } else if contains_text(content_type, "application/vnd.openxmlformats-officedocument.spreadsheetml.sheet"@) {
        "xlsx"@
    } else {
        Seq::empty()
    }
}

/// The extension of an upload: the file name's own (lower-cased), else the
/// one its content type implies, else `xlsx`.
pub open spec fn upload_extension(name_ext: Option<Seq<char>>, content_type: Option<Seq<char>>) -> Seq<char> {
    let from_name = match name_ext {
        Some(e) => ascii_lowercase(e),
        None => Seq::empty(),
    };
    let guessed = if from_name.len() > 0 {
        from_name
    } else {
        match content_type {
            Some(ct) => extension_for_content_type(ascii_lowercase(ct)),
            None => Seq::empty(),
        }
    };
    if guessed.len() > 0 {
        guessed
    } else {
        "xlsx"@
    }
}

/// Exec form of `upload_extension`, given the file name's extension.
pub fn infer_upload_extension(name_ext: Option<&str>, content_type: Option<&str>) -> (r: String)
    ensures
        r@ == upload_extension(
            match name_ext {
                Some(e) => Some(e@),
                None => None,
            },
            match content_type {
                Some(c) => Some(c@),
                None => None,
            },
        ),
{
    let mut extension = match name_ext {
        Some(e) => to_ascii_lowercase(e),
        None => String::new(),
    };
    if extension.as_str().is_empty() {
        if let Some(ct) = content_type {
            let lowered = to_ascii_lowercase(ct);
            if has_text(lowered.as_str(), "text/csv") {
                extension = String::from_str("csv");
            } else if has_text(lowered.as_str(), "application/vnd.ms-excel") {
                extension = String::from_str("xls");
            } else if has_text(lowered.as_str(), "application/vnd.openxmlformats-officedocument.spreadsheetml.sheet") {
                extension = String::from_str("xlsx");
            }
        }
    }
    if extension.as_str().is_empty() {
        extension = String::from_str("xlsx");
    }
    extension
}

/// The extension of an uploaded file, from its name (`Path::extension`, the
/// extension of the part after the last `/`) and content type.
pub fn upload_file_extension(file_name: &str, content_type: Option<&str>) -> (r: String)
    ensures
        file_name_is_last_component(file_name@) ==> r@ == upload_extension(
            name_extension(last_component(file_name@)),
            match content_type {
                Some(c) => Some(c@),
                None => None,
            },
        ),
{
    let ext = path_extension(file_name);
    match ext {
        Some(e) => infer_upload_extension(Some(e.as_str()), content_type),
        None => infer_upload_extension(None, content_type),
    }
}

/// Whether an upload of this extension can be imported.
pub fn is_supported_extension(extension: &str) -> (r: bool)
    ensures
        r == (extension@ == "xlsx"@ || extension@ == "xls"@ || extension@ == "csv"@),
{
    same_text(extension, "xlsx") || same_text(extension, "xls") || same_text(extension, "csv")
}

/// Where an upload is kept until it is imported: `/tmp/upload_<timestamp>.<ext>`.
pub fn temp_upload_path(timestamp: i64, extension: &str) -> (r: String)
    ensures
        r@ == "/tmp/upload_"@ + int_decimal(timestamp as int) + "."@ + extension@,
{
    let mut r = String::from_str("/tmp/upload_");
    push_int(&mut r, timestamp);
    push_str(&mut r, ".");
    push_str(&mut r, extension);
    r
}

/// A column name with its spaces turned into underscores (`replace(" ", "_")`).
pub open spec fn spaces_to_underscores(s: Seq<char>) -> Seq<char> {
    s.map_values(|c: char| if c == ' ' {
        '_'
    } else {
        c
    })
}

/// Exec form of `spaces_to_underscores`.
pub fn field_name_of(column: &str) -> (r: String)
    ensures
        r@ == spaces_to_underscores(column@),
{
    let v = crate::text::chars_of(column);
    let mut r = String::new();
    let mut i: usize = 0;
    while i < v.len()
        invariant
            v@ == column@,
            i <= v@.len(),
            r@ == spaces_to_underscores(v@.take(i as int)),
        decreases v.len() - i,
    {
        let c = v[i];
        push_char(&mut r, if c == ' ' {
            '_'
        } else {
            c
        });
        i = i + 1;
        assert(r@ =~= spaces_to_underscores(v@.take(i as int)));
    }
    assert(v@.take(i as int) =~= v@);
    r
}

/// The concatenation of a sequence of texts.
pub open spec fn concatenated(parts: Seq<Seq<char>>) -> Seq<char>
    decreases parts.len(),
{
    if parts.len() == 0 {
        Seq::empty()
    } else {
        concatenated(parts.drop_last()) + parts.last()
    }
}

/// The choices of target field, one option per field, in order.
pub fn available_fields_html(fields: &Vec<String>) -> (r: String)
    ensures
        r@ == concatenated(fields@.map_values(|f: String| field_option_text(f@))),
{
    let ghost want = fields@.map_values(|f: String| field_option_text(f@));
    let mut r = String::new();
    let mut i: usize = 0;
    while i < fields.len()
        invariant
            i <= fields@.len(),
            want == fields@.map_values(|f: String| field_option_text(f@)),
            r@ == concatenated(want.take(i as int)),
        decreases fields.len() - i,
    {
        let o = field_option_html(fields[i].as_str());
        push_str(&mut r, o.as_str());
        i = i + 1;
        assert(want.take(i as int).drop_last() =~= want.take(i - 1));
    }
    assert(want.take(i as int) =~= want);
    r
}

/// A column of an uploaded spreadsheet: its name and a sample value.
#[derive(Debug)]
pub struct SpreadsheetColumn {
    pub name: String,
    pub sample_value: String,
}

/// The rows of the mapping table, one per column, each offering the same
/// field choices.
pub fn mapping_rows_html(columns: &Vec<SpreadsheetColumn>, options_html: &str) -> (r: String)
    ensures
        r@ == concatenated(
            columns@.map_values(
                |c: SpreadsheetColumn|
                    mapping_row_text(c.name@, spaces_to_underscores(c.name@), options_html@, c.sample_value@),
            ),
        ),
{
    let ghost want = columns@.map_values(
        |c: SpreadsheetColumn|
            mapping_row_text(c.name@, spaces_to_underscores(c.name@), options_html@, c.sample_value@),
    );
    let mut r = String::new();
    let mut i: usize = 0;
    while i < columns.len()
        invariant
            i <= columns@.len(),
            want == columns@.map_values(
                |c: SpreadsheetColumn|
                    mapping_row_text(c.name@, spaces_to_underscores(c.name@), options_html@, c.sample_value@),
            ),
            r@ == concatenated(want.take(i as int)),
        decreases columns.len() - i,
    {
        let col = &columns[i];
        let field = field_name_of(col.name.as_str());
        let row = mapping_row_html(col.name.as_str(), field.as_str(), options_html, col.sample_value.as_str());
        push_str(&mut r, row.as_str());
        i = i + 1;
        assert(want.take(i as int).drop_last() =~= want.take(i - 1));
    }
    assert(want.take(i as int) =~= want);
    r
}

/// The message shown when the parser cannot read an upload.
pub fn parse_failure_message(error: &str) -> (r: String)
    ensures
        r@ == "Failed to parse file: "@ + error@,
{
    concat("Failed to parse file: ", error)
}

/// Why an upload or an import was turned back to the import page.
#[derive(Debug)]
pub enum ExcelImportFailure {
    /// The upload's extension is none of `xlsx`, `xls`, `csv`.
    UnsupportedType,
    /// The upload could not be stored.
    StoreFailed,
    /// The spreadsheet parser could not read the upload, with its error.
    ParseFailed(String),
    /// The column mapping sent back is not valid JSON of mappings.
    InvalidMapping,
    /// The stored upload could not be read again.
    Unreadable,
    /// No database connection could be had.
    DatabaseUnavailable,
}

/// The message the import page shows for a failure.
pub open spec fn excel_failure_text(f: ExcelImportFailure) -> Seq<char> {
    match f {
        ExcelImportFailure::UnsupportedType => "Unsupported file type. Use .xlsx, .xls, or .csv"@,
        ExcelImportFailure::StoreFailed => "Failed to store upload. Please try again."@,
        ExcelImportFailure::ParseFailed(e) => "Failed to parse file: "@ + e@,
        ExcelImportFailure::InvalidMapping => "Invalid column mapping data."@,
        ExcelImportFailure::Unreadable => "Unable to read uploaded file. Please re-upload."@,
        ExcelImportFailure::DatabaseUnavailable => "Database connection failed."@,
    }
}

/// Exec form of `excel_failure_text`.
pub fn excel_failure_message(f: &ExcelImportFailure) -> (r: String)
    ensures
        r@ == excel_failure_text(*f),
{
    match f {
        ExcelImportFailure::UnsupportedType => String::from_str("Unsupported file type. Use .xlsx, .xls, or .csv"),
        ExcelImportFailure::StoreFailed => String::from_str("Failed to store upload. Please try again."),
        ExcelImportFailure::ParseFailed(e) => parse_failure_message(e.as_str()),
        ExcelImportFailure::InvalidMapping => String::from_str("Invalid column mapping data."),
        ExcelImportFailure::Unreadable => String::from_str("Unable to read uploaded file. Please re-upload."),
        ExcelImportFailure::DatabaseUnavailable => String::from_str("Database connection failed."),
    }
}

/// The import page of a project with the message of a failure.
pub fn excel_failure_redirect(project_slug: &str, f: &ExcelImportFailure) -> (r: String)
    ensures
        r@ == import_error_path_text(project_slug@, excel_failure_text(*f)),
{
    let m = excel_failure_message(f);
    import_error_redirect(project_slug, m.as_str())
}

/// The check of an upload's extension before it is stored: refused unless
/// it is one the importer reads.
pub fn check_upload_extension(extension: &str) -> (r: Option<ExcelImportFailure>)
    ensures
        r is None <==> (extension@ == "xlsx"@ || extension@ == "xls"@ || extension@ == "csv"@),
        r matches Some(f) ==> f is UnsupportedType,
{
    if is_supported_extension(extension) {
        None
    } else {
        Some(ExcelImportFailure::UnsupportedType)
    }
}

} // verus!
