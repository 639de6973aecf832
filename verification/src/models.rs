//! Plain records that the handlers read: users, projects, memberships,
//! lookup tables, and the errors the storage and authentication layers report.
use vstd::prelude::*;

verus! {

/// A user account.
#[derive(Clone, Debug)]
pub struct User {
    pub id: i32,
    pub name: String,
    pub username: String,
    pub email: String,
    pub is_admin: bool,
}

/// A project.
#[derive(Clone, Debug)]
pub struct Project {
    pub id: i32,
    pub name: String,
    pub description: Option<String>,
    /// Free-text status, as stored ("Active", "On Hold", ...).
    pub status: Option<String>,
    pub owner_id: Option<i32>,
}

/// Membership of a user in a project or a group, with its role number
/// (1 owner, 2 manager, 3 contributor, 4 viewer).
#[derive(Clone, Copy, Debug, PartialEq, Eq, Structural)]
pub struct Membership {
    pub user_id: i32,
    pub role: i32,
}

/// A requirement category of a project.
#[derive(Clone, Debug)]
pub struct Category {
    pub id: i32,
    pub title: String,
    pub description: String,
    pub tag: String,
    pub project_id: i32,
}

/// A status of a project's requirements or verifications.
#[derive(Clone, Debug)]
pub struct Status {
    pub id: i32,
    pub title: String,
}

/// Errors of the storage layer.
#[derive(Clone, Debug)]
pub enum RepoError {
    NotFound,
    BadInput(String),
    Duplicate(String),
    CrossProjectViolation(String),
    /// Any other failure, with its description.
    Other(String),
}

/// Errors of the authentication layer.
#[derive(Clone, Debug)]
pub enum AuthError {
    InvalidCredentials,
    Verify(String),
    Db(String),
    Audit(String),
    PasswordPolicy(String),
    NotLoggedIn,
    InvalidSession,
    Repo(String),
}

/// The four test statuses the application knows by name, with their
/// numbers: passed 1, failed 2, pending 3, in progress 4.
#[derive(Clone, Copy, Debug, PartialEq, Eq, Structural)]
pub enum TestStatusKind {
    Passed,
    Failed,
    Pending,
    InProgress,
}

/// The number of a known test status.
pub open spec fn test_status_number(k: TestStatusKind) -> i32 {
    match k {
        TestStatusKind::Passed => 1,
        TestStatusKind::Failed => 2,
        TestStatusKind::Pending => 3,
        TestStatusKind::InProgress => 4,
    }
}

impl TestStatusKind {
    /// The status number of this kind.
    pub fn id(self) -> (r: i32)
        ensures
            r == test_status_number(self),
    {
        match self {
            TestStatusKind::Passed => 1,
            TestStatusKind::Failed => 2,
            TestStatusKind::Pending => 3,
            TestStatusKind::InProgress => 4,
        }
    }

    /// The kind with the given status number, if it is one of the four.
    pub fn from_id(id: i32) -> (r: Option<TestStatusKind>)
        ensures
            r matches Some(k) ==> test_status_number(k) == id,
            r is None <==> !(1 <= id <= 4),
    {
        if id == 1 {
            Some(TestStatusKind::Passed)
        } else if id == 2 {
            Some(TestStatusKind::Failed)
        } else if id == 3 {
            Some(TestStatusKind::Pending)
        } else if id == 4 {
            Some(TestStatusKind::InProgress)
        } else {
            None
        }
    }
}

} // verus!
