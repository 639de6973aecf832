use marreq::models::Membership;
use marreq::routes::html::project::members::{allow_removal, count_owners, remove_project_member};

fn m(user_id: i32, role: i32) -> Membership {
    Membership { user_id, role }
}

#[test]
fn owners_are_counted() {
    assert_eq!(count_owners(&vec![]), 0);
    assert_eq!(count_owners(&vec![m(1, 1), m(2, 3), m(4, 1)]), 2);
}

#[test]
fn removal_of_a_non_owner_is_allowed() {
    let members = vec![m(1, 1), m(2, 3)];
    let r = remove_project_member("lunar-lander", true, &members, 2);
    assert_eq!(r.redirect, "/p/lunar-lander/members");
    assert!(r.remove);
}

#[test]
fn removal_of_the_last_owner_is_refused() {
    let members = vec![m(1, 1)];
    assert!(!allow_removal(&members, 1));
    let r = remove_project_member("lunar-lander", true, &members, 1);
    assert_eq!(r.redirect, "/p/lunar-lander/members");
    assert!(!r.remove);
}

#[test]
fn removal_of_one_of_two_owners_is_allowed() {
    let members = vec![m(1, 1), m(5, 1)];
    assert!(allow_removal(&members, 1));
    assert!(remove_project_member("p", true, &members, 1).remove);
}

#[test]
fn removal_without_permission_is_refused() {
    let members = vec![m(1, 1), m(2, 3)];
    let r = remove_project_member("lunar-lander", false, &members, 2);
    assert_eq!(r.redirect, "/p/lunar-lander/members");
    assert!(!r.remove);
}
