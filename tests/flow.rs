use rust_auth::flow::{AuthError, AuthOutcome, AuthService, Rejection};
use rust_auth::user::Credentials;

const TTL: u64 = 3600;

fn creds(name: &str, password: &str) -> Credentials {
    Credentials::new(name.to_string(), password.to_string())
}

fn expect_user(outcome: Result<AuthOutcome, AuthError>) -> rust_auth::user::User {
    match outcome {
        Ok(AuthOutcome::Authenticated(u)) => u,
        Ok(AuthOutcome::Rejected(r)) => panic!("rejected: {}", r.message()),
        Ok(AuthOutcome::Unauthenticated) => panic!("unauthenticated"),
        Err(e) => panic!("error: {:?}", e),
    }
}

fn expect_rejection(outcome: Result<AuthOutcome, AuthError>) -> Rejection {
    match outcome {
        Ok(AuthOutcome::Rejected(r)) => r,
        Ok(AuthOutcome::Authenticated(u)) => panic!("authenticated as {}", u.username),
        Ok(AuthOutcome::Unauthenticated) => panic!("unauthenticated"),
        Err(e) => panic!("error: {:?}", e),
    }
}

#[test]
fn alice_scenario() {
    let mut svc = AuthService::new(TTL);
    let u = expect_user(svc.signup(None, &creds("Alice ", "correct-horse"), 1, 100));
    assert_eq!(u.username, "alice");
    assert_eq!(u.id, 1);

    let a = expect_user(svc.login(None, &creds("alice", "correct-horse"), 2, 100));
    assert_eq!(a.username, "alice");
    assert_eq!(
        expect_rejection(svc.login(None, &creds("alice", "wrong"), 3, 100)),
        Rejection::InvalidCredentials
    );
    let b = expect_user(svc.login(None, &creds("ALICE", "correct-horse"), 4, 100));
    assert_eq!(b.id, u.id);
}

#[test]
fn signup_then_current_user_returns_new_user() {
    let mut svc = AuthService::new(TTL);
    let u = expect_user(svc.signup(None, &creds("bob", "hunter2"), 10, 5));
    let cur = svc.current_user(Some(10), 5).expect("session identifies the new user");
    assert_eq!(cur.id, u.id);
    assert_eq!(cur.username, "bob");
    assert_eq!(cur.pw_hash, u.pw_hash);
    assert_eq!(svc.backend.users.len(), 1);
}

#[test]
fn second_signup_with_variant_name_is_rejected() {
    let mut svc = AuthService::new(TTL);
    expect_user(svc.signup(None, &creds("bob", "hunter2"), 10, 5));
    for (i, variant) in ["bob", "BOB", "  Bob", "bOb\t"].iter().enumerate() {
        let r = svc.signup(None, &creds(variant, "other"), 20 + i as u128, 5);
        assert_eq!(expect_rejection(r), Rejection::UserAlreadyExists);
    }
    assert_eq!(svc.backend.users.len(), 1);
    assert!(!svc.sessions.contains(20));
}

#[test]
fn repeated_signups_leave_one_row() {
    let mut svc = AuthService::new(TTL);
    let mut successes = 0;
    let mut rejections = 0;
    for i in 0..4u128 {
        match svc.signup(None, &creds(" Carol", "pw"), 100 + i, 1) {
            Ok(AuthOutcome::Authenticated(_)) => successes += 1,
            Ok(AuthOutcome::Rejected(Rejection::UserAlreadyExists)) => rejections += 1,
            _ => panic!("unexpected outcome"),
        }
    }
    assert_eq!(successes, 1);
    assert_eq!(rejections, 3);
    assert_eq!(svc.backend.users.len(), 1);
    assert!(svc.backend.users.find_by_username("carol").is_some());
}

#[test]
fn unknown_user_and_wrong_password_look_alike() {
    let mut svc = AuthService::new(TTL);
    expect_user(svc.signup(None, &creds("dave", "secret"), 1, 0));
    let missing = expect_rejection(svc.login(None, &creds("nobody", "secret"), 2, 0));
    let wrong = expect_rejection(svc.login(None, &creds("dave", "nope"), 3, 0));
    assert_eq!(missing, wrong);
    assert_eq!(missing.message(), wrong.message());
    assert_eq!(missing.message(), "Invalid login details");
    assert!(!svc.sessions.contains(2));
    assert!(!svc.sessions.contains(3));
}

#[test]
fn logout_then_current_user_is_none() {
    let mut svc = AuthService::new(TTL);
    expect_user(svc.signup(None, &creds("erin", "pw"), 7, 0));
    assert!(svc.current_user(Some(7), 0).is_some());
    svc.logout(Some(7));
    assert!(svc.current_user(Some(7), 0).is_none());
    svc.logout(Some(7));
    svc.logout(None);
    assert!(svc.current_user(Some(7), 0).is_none());
}

#[test]
fn login_while_authenticated_keeps_session() {
    let mut svc = AuthService::new(TTL);
    let u = expect_user(svc.signup(None, &creds("frank", "pw"), 7, 0));
    // Credentials are not even looked at: the existing identity is returned.
    let again = expect_user(svc.login(Some(7), &creds("ghost", "whatever"), 8, 0));
    assert_eq!(again.id, u.id);
    assert!(!svc.sessions.contains(8));
    let signup_again = expect_user(svc.signup(Some(7), &creds("other", "pw"), 9, 0));
    assert_eq!(signup_again.id, u.id);
    assert_eq!(svc.backend.users.len(), 1);
}

#[test]
fn expired_session_identifies_no_one() {
    let mut svc = AuthService::new(10);
    expect_user(svc.signup(None, &creds("gina", "pw"), 5, 100));
    assert!(svc.current_user(Some(5), 109).is_some());
    assert!(svc.current_user(Some(5), 110).is_none());
    assert!(svc.current_user(None, 100).is_none());
    assert!(svc.current_user(Some(6), 100).is_none());
}

#[test]
fn token_in_use_is_an_error() {
    let mut svc = AuthService::new(TTL);
    expect_user(svc.signup(None, &creds("hal", "pw"), 5, 0));
    svc.logout(None);
    assert_eq!(
        svc.signup(None, &creds("ida", "pw"), 5, 0).err(),
        Some(AuthError::TokenInUse)
    );
    assert_eq!(svc.backend.users.len(), 1);
    assert_eq!(
        svc.login(None, &creds("hal", "pw"), 5, 0).err(),
        Some(AuthError::TokenInUse)
    );
}

#[test]
fn user_already_exists_message() {
    assert_eq!(Rejection::UserAlreadyExists.message(), "User already exists");
}
