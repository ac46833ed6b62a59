use mould_auth::cred::do_login::WRONG_CREDENTIALS;
use mould_auth::cred::{change_password, do_login, do_logout, AuthService, CredAction, Permission};
use mould_auth::managers::credentials::CredentialChecker;
use mould_auth::managers::{CredentialManager, Crypt, Error};
use mould_auth::service::{AuthError, Shortcut};
use mould_auth::Role;

#[derive(Clone, Debug, PartialEq)]
enum Member {
    Owner,
    Visitor,
}

impl Role for Member {}

struct Tagged;

impl Crypt for Tagged {
    fn hash(pass: &str) -> String {
        format!("tag({})", pass)
    }

    fn verify(pass: &str, digest: &str) -> bool {
        Self::hash(pass) == digest
    }
}

fn store() -> CredentialChecker<Member, Tagged> {
    let mut checker = CredentialChecker::new();
    checker.add_login("owner", Member::Owner, "pw-owner");
    checker.add_login("guest", Member::Visitor, "pw-guest");
    checker
}

const ALL: [Permission; 3] = [Permission::CanAuth, Permission::CanLogout, Permission::CanChange];

#[test]
fn route_selects_credential_actions() {
    let service: AuthService<Member> = AuthService::new();
    assert!(matches!(service.route("do-login"), Ok(CredAction::DoLogin(_))));
    assert!(matches!(service.route("do-logout"), Ok(CredAction::DoLogout(_))));
    assert!(matches!(service.route("change-password"), Ok(CredAction::ChangePassword(_))));
    assert!(matches!(service.route("acquire-new"), Err(AuthError::ActionNotFound)));
    assert!(matches!(service.route("do-login "), Err(AuthError::ActionNotFound)));
}

#[test]
fn login_with_matching_password_binds_role() {
    let mut checker = store();
    let mut session: Option<Member> = None;
    let r = do_login::action().prepare(&mut session, &ALL, &mut checker, "owner", "pw-owner");
    assert_eq!(r, Ok(Shortcut::Done));
    assert_eq!(session, Some(Member::Owner));
}

#[test]
fn login_failures_are_refused_alike() {
    let mut checker = store();
    let mut session: Option<Member> = None;
    let unknown = do_login::action().prepare(&mut session, &ALL, &mut checker, "nobody", "pw-owner");
    let wrong = do_login::action().prepare(&mut session, &ALL, &mut checker, "owner", "nope");
    assert_eq!(unknown, Ok(Shortcut::Reject(WRONG_CREDENTIALS.to_string())));
    assert_eq!(unknown, wrong);
    assert_eq!(WRONG_CREDENTIALS, "wrong credentials");
    assert_eq!(session, None);
}

#[test]
fn login_without_permission_is_denied() {
    let mut checker = store();
    let mut session: Option<Member> = None;
    let r = do_login::action().prepare(&mut session, &[Permission::CanLogout], &mut checker, "owner", "pw-owner");
    assert_eq!(r, Err(AuthError::PermissionDenied));
    assert_eq!(session, None);
}

#[test]
fn logout_clears_the_role_and_is_idempotent() {
    let mut session = Some(Member::Visitor);
    assert_eq!(do_logout::action().prepare(&mut session, &ALL), Ok(Shortcut::Done));
    assert_eq!(session, None);
    assert_eq!(do_logout::action().prepare(&mut session, &ALL), Ok(Shortcut::Done));
    assert_eq!(session, None);
}

#[test]
fn logout_without_permission_keeps_the_role() {
    let mut session = Some(Member::Visitor);
    let r = do_logout::action().prepare(&mut session, &[Permission::CanAuth]);
    assert_eq!(r, Err(AuthError::PermissionDenied));
    assert_eq!(session, Some(Member::Visitor));
}

#[test]
fn change_password_needs_a_bound_role() {
    let mut checker = store();
    let session: Option<Member> = None;
    let r = change_password::action().prepare(&session, &ALL, &mut checker, "fresh");
    assert_eq!(r, Err(AuthError::NoRoleBound));
    assert_eq!(checker.pick_role("owner", "pw-owner"), Ok(Some(Member::Owner)));
}

#[test]
fn change_password_without_permission_is_denied() {
    let mut checker = store();
    let session = Some(Member::Owner);
    let r = change_password::action().prepare(&session, &[Permission::CanAuth], &mut checker, "fresh");
    assert_eq!(r, Err(AuthError::PermissionDenied));
    assert_eq!(checker.pick_role("owner", "pw-owner"), Ok(Some(Member::Owner)));
}

#[test]
fn changed_password_opens_the_login() {
    let mut checker = store();
    let session = Some(Member::Owner);
    let r = change_password::action().prepare(&session, &ALL, &mut checker, "fresh");
    assert_eq!(r, Ok(Shortcut::Done));
    assert_eq!(checker.pick_role("owner", "pw-owner"), Ok(None));
    assert_eq!(checker.pick_role("owner", "fresh"), Ok(Some(Member::Owner)));
}

#[test]
fn change_password_for_a_role_without_login_fails() {
    let mut checker: CredentialChecker<Member, Tagged> = CredentialChecker::new();
    checker.add_login("owner", Member::Owner, "pw-owner");
    let session = Some(Member::Visitor);
    let r = change_password::action().prepare(&session, &ALL, &mut checker, "fresh");
    assert_eq!(r, Err(AuthError::UnknownRole));
    assert_eq!(change_password::action().settle::<Member>(Err(Error::Unsupported)), Err(AuthError::Unsupported));
    assert_eq!(change_password::action().settle(Ok(Some(Member::Owner))), Ok(Shortcut::Done));
}
