use mould_auth::managers::keyval::StringChecker;
use mould_auth::managers::TokenManager;
use mould_auth::shared::SharedChecker;
use mould_auth::Role;

#[derive(Clone, Debug, PartialEq)]
struct Operator(u32);

impl Role for Operator {}

#[test]
fn serialized_resolutions_grant_single_use_once() {
    let mut checker = StringChecker::new();
    checker.add_once("abc", Operator(7));
    let shared = SharedChecker::new(checker);
    let mut granted = Vec::new();
    for _ in 0..8 {
        let answer = shared.with_checker(|mut c: StringChecker<Operator>| {
            let r = c.pick_role("abc");
            (c, r)
        });
        granted.push(answer);
    }
    assert_eq!(granted[0], Ok(Some(Operator(7))));
    assert_eq!(granted.iter().filter(|r| **r == Ok(None)).count(), 7);
}

#[test]
fn shared_checker_keeps_changes_between_uses() {
    let shared = SharedChecker::new(StringChecker::new());
    shared.with_checker(|mut c: StringChecker<Operator>| {
        c.add_multiple("k", Operator(1));
        (c, ())
    });
    let first = shared.with_checker(|mut c: StringChecker<Operator>| {
        let r = c.pick_role("k");
        (c, r)
    });
    let second = shared.with_checker(|mut c: StringChecker<Operator>| {
        let r = c.pick_role("k");
        (c, r)
    });
    assert_eq!(first, Ok(Some(Operator(1))));
    assert_eq!(second, Ok(Some(Operator(1))));
}
