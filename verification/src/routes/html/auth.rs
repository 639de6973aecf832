use vstd::prelude::*;

use crate::models::{AuthError, Project};
use crate::route_info::{route, route_view, route_views, Method, RouteInfo, RouteView};
use crate::text::same_text;

verus! {

/// The routes this module serves, in mounting order: method, path pattern
/// and handler name.
pub open spec fn route_table() -> Seq<RouteView> {
    seq![
        route_view(Method::Get, "/login?<error>"@, "login_page"@),
        route_view(Method::Post, "/login"@, "login"@),
        route_view(Method::Get, "/logout"@, "logout"@),
        route_view(Method::Get, "/change_password?<error>&<success>"@, "change_password_page"@),
        route_view(Method::Post, "/change_password"@, "change_password"@),
    ]
}

/// The routes of this module, in the order they are mounted.
pub fn routes() -> (r: Vec<RouteInfo>)
    ensures
        route_views(r@) == route_table(),
{
    let mut r: Vec<RouteInfo> = Vec::new();
    r.push(route(Method::Get, "/login?<error>", "login_page"));
    r.push(route(Method::Post, "/login", "login"));
    r.push(route(Method::Get, "/logout", "logout"));
    r.push(route(Method::Get, "/change_password?<error>&<success>", "change_password_page"));
    r.push(route(Method::Post, "/change_password", "change_password"));
    assert(route_views(r@) =~= route_table());
    r
}

/// The name of the header that tells the browser to purge what it kept of
/// the site.
pub open spec fn clear_site_data_header_name() -> Seq<char> {
    "Clear-Site-Data"@
}

/// Its value: cache, cookies and storage.
pub open spec fn clear_site_data_header_value() -> Seq<char> {
    "\"cache\", \"cookies\", \"storage\""@
}

/// A redirect that also sends `Clear-Site-Data`, used on logout.
#[derive(Debug)]
pub struct ClearSiteDataRedirect {
    pub location: String,
}

impl ClearSiteDataRedirect {
    /// A redirect to `uri` that purges the browser's data of the site.
    pub fn to(uri: &str) -> (r: ClearSiteDataRedirect)
        ensures
            r.location@ == uri@,
    {
        ClearSiteDataRedirect { location: String::from_str(uri) }
    }

    /// The header sent with the redirect: its name and value.
    pub fn header(&self) -> (r: (&'static str, &'static str))
        ensures
            r.0@ == clear_site_data_header_name(),
            r.1@ == clear_site_data_header_value(),
    {
        ("Clear-Site-Data", "\"cache\", \"cookies\", \"storage\"")
    }
}

/// What a login or password page renders: its template, title, messages and
/// the CSRF token of the session.
#[derive(Debug)]
pub struct AuthPage {
    pub template: String,
    pub page_title: String,
    pub error: Option<String>,
    pub success: Option<String>,
    pub csrf_token: String,
    /// The projects offered by the navigation (the password page lists all
    /// of them; the login page has none).
    pub projects: Option<Vec<Project>>,
    /// The project selected in the navigation: none on these pages.
    pub selected_project_id: Option<i32>,
}

/// The login page, with the error of a failed attempt when there is one.
pub fn login_page(error: Option<String>, csrf_token: String) -> (p: AuthPage)
    ensures
        p.template@ == "login"@,
        p.page_title@ == "Login"@,
        p.error == error,
        p.success is None,
        p.csrf_token == csrf_token,
        p.projects is None,
        p.selected_project_id is None,
{
    AuthPage {
        template: String::from_str("login"),
        page_title: String::from_str("Login"),
        error,
        success: None,
        csrf_token,
        projects: None,
        selected_project_id: None,
    }
}

/// Where an authentication form sends the browser.
#[derive(Debug)]
pub enum AuthRedirect {
    /// The dashboard.
    Dashboard,
    /// The login page, with an error.
    LoginPage(Option<String>),
    /// The password page, with an error or a success message.
    ChangePasswordPage(Option<String>, Option<String>),
}

/// The message shown for a failed login.
pub open spec fn login_error_text(err: AuthError) -> Seq<char> {
    match err {
        AuthError::InvalidCredentials => "Invalid username or password"@,
        AuthError::Verify(_) => "Password verification failed"@,
        AuthError::Db(_) => "Database error occurred"@,
        AuthError::Audit(_) => "Login successful but failed to audit"@,
        AuthError::PasswordPolicy(_) => "Password policy violation"@,
        AuthError::NotLoggedIn => "Not logged in"@,
        AuthError::InvalidSession => "Invalid session"@,
        AuthError::Repo(_) => "Internal server error"@,
    }
}

/// Exec form of `login_error_text`.
pub fn login_error_message(err: &AuthError) -> (r: &'static str)
    ensures
        r@ == login_error_text(*err),
{
    match err {
        AuthError::InvalidCredentials => "Invalid username or password",
        AuthError::Verify(_) => "Password verification failed",
        AuthError::Db(_) => "Database error occurred",
        AuthError::Audit(_) => "Login successful but failed to audit",
        AuthError::PasswordPolicy(_) => "Password policy violation",
        AuthError::NotLoggedIn => "Not logged in",
        AuthError::InvalidSession => "Invalid session",
        AuthError::Repo(_) => "Internal server error",
    }
}

/// After a login attempt: the dashboard on success, otherwise the login page
/// with the message for the error.
pub fn login(outcome: Result<(), AuthError>) -> (r: AuthRedirect)
    ensures
        outcome is Ok ==> r is Dashboard,
        outcome matches Err(e) ==> (r matches AuthRedirect::LoginPage(Some(m)) && m@ == login_error_text(e)),
{
    match outcome {
        Ok(()) => AuthRedirect::Dashboard,
        Err(e) => AuthRedirect::LoginPage(Some(String::from_str(login_error_message(&e)))),
    }
}

/// After logging out: the login page, purging the site's data.
pub fn logout() -> (r: ClearSiteDataRedirect)
    ensures
        r.location@ == "/login"@,
{
    ClearSiteDataRedirect::to("/login")
}

/// The change-password page, with its messages and all projects in the
/// navigation, none of them selected.
pub fn change_password_page(
    error: Option<String>,
    success: Option<String>,
    csrf_token: String,
    projects: Vec<Project>,
) -> (p: AuthPage)
    ensures
        p.template@ == "change_password"@,
        p.page_title@ == "Change Password"@,
        p.error == error,
        p.success == success,
        p.csrf_token == csrf_token,
        p.projects == Some(projects),
        p.selected_project_id is None,
{
    AuthPage {
        template: String::from_str("change_password"),
        page_title: String::from_str("Change Password"),
        error,
        success,
        csrf_token,
        projects: Some(projects),
        selected_project_id: None,
    }
}

/// The form that changes a password.
#[derive(Debug)]
pub struct ChangePasswordForm {
    pub current_password: String,
    pub new_password: String,
    pub confirm_password: String,
}

/// Before the password is changed: when the new password and its
/// confirmation differ, the page again with an error; otherwise nothing.
pub fn change_password_precheck(form: &ChangePasswordForm) -> (r: Option<AuthRedirect>)
    ensures
        r is None <==> form.new_password@ == form.confirm_password@,
        r matches Some(x) ==> (x matches AuthRedirect::ChangePasswordPage(Some(e), None) && e@
            == "New passwords do not match"@),
{
    if same_text(form.new_password.as_str(), form.confirm_password.as_str()) {
        None
    } else {
        Some(AuthRedirect::ChangePasswordPage(Some(String::from_str("New passwords do not match")), None))
    }
}

/// The message shown when changing a password fails: the policy's own
/// reason for a policy violation, a fixed message otherwise.
pub open spec fn change_password_error_text(err: AuthError) -> Seq<char> {
    match err {
        AuthError::InvalidCredentials => "Invalid current password"@,
        AuthError::Verify(_) => "Password verification failed"@,
        AuthError::PasswordPolicy(reason) => reason@,
        AuthError::Db(_) => "Database error occurred"@,
        AuthError::NotLoggedIn => "Not logged in"@,
        AuthError::InvalidSession => "Invalid session"@,
        AuthError::Audit(_) => "Failed to log password change"@,
        AuthError::Repo(_) => "Internal server error"@,
    }
}

/// The page a password change lands on for its outcome: a success message,
/// or the message for the error.
pub open spec fn password_outcome_page(r: AuthRedirect, outcome: Result<(), AuthError>) -> bool {
    &&& outcome is Ok ==> (r matches AuthRedirect::ChangePasswordPage(None, Some(m)) && m@
        == "Password changed successfully"@)
    &&& outcome matches Err(e) ==> (r matches AuthRedirect::ChangePasswordPage(Some(m), None) && m@
        == change_password_error_text(e))
}

/// After changing a password: the page with a success message, or with the
/// message for the error.
pub fn change_password_outcome(outcome: Result<(), AuthError>) -> (r: AuthRedirect)
    ensures
        outcome is Ok ==> (r matches AuthRedirect::ChangePasswordPage(None, Some(m)) && m@
            == "Password changed successfully"@),
        outcome matches Err(e) ==> (r matches AuthRedirect::ChangePasswordPage(Some(m), None) && m@
            == change_password_error_text(e)),
{
    match outcome {
        Ok(()) => AuthRedirect::ChangePasswordPage(None, Some(String::from_str("Password changed successfully"))),
        Err(e) => {
            let msg = match e {
                AuthError::InvalidCredentials => String::from_str("Invalid current password"),
                AuthError::Verify(_) => String::from_str("Password verification failed"),
                AuthError::PasswordPolicy(reason) => reason,
                AuthError::Db(_) => String::from_str("Database error occurred"),
                AuthError::NotLoggedIn => String::from_str("Not logged in"),
                AuthError::InvalidSession => String::from_str("Invalid session"),
                AuthError::Audit(_) => String::from_str("Failed to log password change"),
                AuthError::Repo(_) => String::from_str("Internal server error"),
            };
            AuthRedirect::ChangePasswordPage(Some(msg), None)
        },
    }
}

/// The next step of the password form.
#[derive(Debug)]
pub enum ChangePasswordStep {
    /// Change the password (the form's current and new password) and come
    /// back with the outcome.
    ChangePassword,
    /// Answer with this redirect; nothing is changed by this step.
    Respond(AuthRedirect),
}

/// The password form, as a step function: called first without an outcome,
/// then with the outcome of the change it asked for. When the new password
/// and its confirmation differ, it answers with the error page at once and
/// never asks for the change; otherwise it asks for the change, and maps its
/// outcome to the success or error page.
pub fn change_password(form: &ChangePasswordForm, outcome: Option<Result<(), AuthError>>) -> (r:
    ChangePasswordStep)
    ensures
        form.new_password@ != form.confirm_password@ ==> (r matches ChangePasswordStep::Respond(
            AuthRedirect::ChangePasswordPage(Some(e), None),
        ) && e@ == "New passwords do not match"@),
        form.new_password@ == form.confirm_password@ && outcome is None ==> r is ChangePassword,
        form.new_password@ == form.confirm_password@ ==> (outcome matches Some(o) ==> (r matches ChangePasswordStep::Respond(
            x,
        ) && password_outcome_page(x, o))),
{
    match change_password_precheck(form) {
        Some(refusal) => ChangePasswordStep::Respond(refusal),
        None => match outcome {
            None => ChangePasswordStep::ChangePassword,
            Some(o) => ChangePasswordStep::Respond(change_password_outcome(o)),
        },
    }
}

} // verus!
