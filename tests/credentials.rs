use mould_auth::managers::credentials::CredentialChecker;
use mould_auth::managers::{CredentialManager, Crypt, Error};
use mould_auth::Role;

#[derive(Clone, Debug, PartialEq)]
enum Staff {
    Admin,
    Clerk,
}

impl Role for Staff {}

/// Reverses the password and marks it; enough to tell digests apart.
struct Mirror;

impl Crypt for Mirror {
    fn hash(pass: &str) -> String {
        let reversed: String = pass.chars().rev().collect();
        format!("m:{}", reversed)
    }

    fn verify(pass: &str, digest: &str) -> bool {
        Self::hash(pass) == digest
    }
}

fn store() -> CredentialChecker<Staff, Mirror> {
    let mut checker = CredentialChecker::new();
    checker.add_login("alice", Staff::Admin, "secret");
    checker.add_login("bob", Staff::Clerk, "hunter2");
    checker
}

#[test]
fn matching_password_grants_the_role() {
    let mut checker = store();
    assert_eq!(checker.pick_role("alice", "secret"), Ok(Some(Staff::Admin)));
    assert_eq!(checker.pick_role("bob", "hunter2"), Ok(Some(Staff::Clerk)));
}

#[test]
fn unknown_login_and_wrong_password_look_the_same() {
    let mut checker = store();
    let unknown = checker.pick_role("mallory", "secret");
    let wrong = checker.pick_role("alice", "guess");
    assert_eq!(unknown, Ok(None));
    assert_eq!(wrong, Ok(None));
    assert_eq!(unknown, wrong);
}

#[test]
fn password_of_another_login_does_not_open() {
    let mut checker = store();
    assert_eq!(checker.pick_role("alice", "hunter2"), Ok(None));
    assert_eq!(checker.pick_role("", ""), Ok(None));
}

#[test]
fn attached_password_replaces_the_old_one() {
    let mut checker = store();
    assert_eq!(checker.attach_password(&Staff::Clerk, "new-pass"), Ok(Some(Staff::Clerk)));
    assert_eq!(checker.pick_role("bob", "hunter2"), Ok(None));
    assert_eq!(checker.pick_role("bob", "new-pass"), Ok(Some(Staff::Clerk)));
    assert_eq!(checker.pick_role("alice", "secret"), Ok(Some(Staff::Admin)));
}

#[test]
fn attaching_to_an_unknown_role_fails() {
    let mut checker: CredentialChecker<Staff, Mirror> = CredentialChecker::new();
    checker.add_login("alice", Staff::Admin, "secret");
    assert_eq!(checker.attach_password(&Staff::Clerk, "x"), Err(Error::UnknownRole));
    assert_eq!(checker.pick_role("alice", "secret"), Ok(Some(Staff::Admin)));
}

#[test]
fn registering_a_login_again_replaces_it() {
    let mut checker = store();
    checker.add_login("alice", Staff::Clerk, "other");
    assert_eq!(checker.pick_role("alice", "secret"), Ok(None));
    assert_eq!(checker.pick_role("alice", "other"), Ok(Some(Staff::Clerk)));
}

#[test]
fn answer_depends_on_login_and_digest_check() {
    let checker = store();
    assert_eq!(checker.answer_for("alice", true), Some(Staff::Admin));
    assert_eq!(checker.answer_for("alice", false), None);
    assert_eq!(checker.answer_for("mallory", true), None);
    assert_eq!(checker.answer_for("mallory", false), None);
}
