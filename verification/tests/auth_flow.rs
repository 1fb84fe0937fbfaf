use investment_wallet::auth::{
    authenticate, check_credentials, login, login_at, login_reply, logout_reply, register, register_reply,
    removed_session_cookie, session_claims, session_cookie, CredentialCheck, LoginOutcome,
    RegistrationOutcome, SESSION_TTL_SECS,
};
use investment_wallet::models::{AuthUser, Claims, LoginPayload, RegisterPayload, User};
use investment_wallet::replies::Reply;

/// A bcrypt hash of "correctbatteryhorsestapler" at cost 4, made by another
/// implementation.
const KNOWN_HASH: &str = "$2b$04$EGdrhbKUv8Oc9vGiXX0HQOxSg445d458Muh7DAHskb6QbtCvdxcie";

fn user_with_hash(id: i32, hash: &str) -> User {
    User { id, username: "alice".to_string(), password_hash: hash.to_string() }
}

fn login_form(password: &str) -> LoginPayload {
    LoginPayload { username: "alice".to_string(), password: password.to_string() }
}

fn now_secs() -> u64 {
    std::time::SystemTime::now().duration_since(std::time::UNIX_EPOCH).unwrap().as_secs()
}

#[test]
fn registered_user_signs_in_with_their_password() {
    let form = RegisterPayload { username: "alice".to_string(), password: "hunter2".to_string() };
    let created = match register(&None, &form) {
        RegistrationOutcome::Create(nu) => nu,
        other => panic!("unexpected outcome {:?}", other),
    };
    assert_eq!(created.username, "alice");
    assert_ne!(created.password_hash, "hunter2");
    let stored = User { id: 42, username: created.username, password_hash: created.password_hash };
    let before = now_secs();
    let outcome = login(&Some(stored), &login_form("hunter2"));
    let after = now_secs();
    match &outcome {
        LoginOutcome::SignedIn(c) => {
            assert_eq!(c.sub, 42);
            assert!(c.exp as u64 >= before + SESSION_TTL_SECS);
            assert!(c.exp as u64 <= after + SESSION_TTL_SECS);
        }
        other => panic!("unexpected outcome {:?}", other),
    }
    assert_eq!(login_reply(&outcome), Reply::Redirect("/".to_string()));
}

#[test]
fn registered_user_with_wrong_password_is_refused() {
    let form = RegisterPayload { username: "bob".to_string(), password: "s3cret".to_string() };
    let created = match register(&None, &form) {
        RegistrationOutcome::Create(nu) => nu,
        other => panic!("unexpected outcome {:?}", other),
    };
    let stored = User { id: 1, username: created.username, password_hash: created.password_hash };
    assert_eq!(login(&Some(stored), &login_form("S3cret")), LoginOutcome::InvalidCredentials);
}

#[test]
fn taken_username_is_refused() {
    let existing = user_with_hash(3, KNOWN_HASH);
    let form = RegisterPayload { username: "alice".to_string(), password: "x".to_string() };
    let outcome = register(&Some(existing), &form);
    assert_eq!(outcome, RegistrationOutcome::UsernameTaken);
    assert_eq!(
        register_reply(&outcome),
        Reply::RegisterPage(Some("Usuário já existe".to_string()))
    );
}

#[test]
fn stored_user_redirects_to_sign_in() {
    let form = RegisterPayload { username: "carol".to_string(), password: "pw".to_string() };
    let outcome = register(&None, &form);
    assert!(matches!(outcome, RegistrationOutcome::Create(_)));
    assert_eq!(register_reply(&outcome), Reply::Redirect("/login".to_string()));
}

#[test]
fn known_hash_accepts_its_password() {
    let user = Some(user_with_hash(9, KNOWN_HASH));
    assert_eq!(
        check_credentials(&user, &login_form("correctbatteryhorsestapler")),
        CredentialCheck::Accepted(9)
    );
    assert_eq!(check_credentials(&user, &login_form("wrong")), CredentialCheck::Rejected);
}

#[test]
fn unknown_user_is_refused() {
    let outcome = login(&None, &login_form("anything"));
    assert_eq!(outcome, LoginOutcome::InvalidCredentials);
    assert_eq!(
        login_reply(&outcome),
        Reply::LoginPage(Some("Credenciais inválidas".to_string()))
    );
}

#[test]
fn unreadable_hash_is_reported() {
    let user = Some(user_with_hash(2, "not-a-bcrypt-hash"));
    assert_eq!(check_credentials(&user, &login_form("pw")), CredentialCheck::UnreadableHash);
    assert_eq!(login(&user, &login_form("pw")), LoginOutcome::UnreadableHash);
}

#[test]
fn session_expires_one_day_after_it_opens() {
    assert_eq!(session_claims(5, 1_000), Some(Claims { sub: 5, exp: 87_400 }));
    assert_eq!(session_claims(-1, 0), Some(Claims { sub: -1, exp: 86_400 }));
}

#[test]
fn session_expiry_beyond_usize_is_refused() {
    assert_eq!(session_claims(1, u64::MAX), None);
    assert_eq!(session_claims(1, u64::MAX - 86_399), None);
}

#[test]
fn session_cookie_carries_the_token() {
    let c = session_cookie("tok.en.sig".to_string());
    assert_eq!(c.name, "jwt_token");
    assert_eq!(c.value, "tok.en.sig");
    assert_eq!(c.path, "/");
    assert!(c.http_only);
}

#[test]
fn sign_out_removes_the_session_cookie() {
    let set = session_cookie("abc".to_string());
    let removed = removed_session_cookie();
    assert_eq!(removed.name, set.name);
    assert_eq!(removed.path, set.path);
    assert_eq!(removed.value, "");
    assert_eq!(logout_reply(), Reply::Redirect("/login".to_string()));
}

#[test]
fn request_without_token_goes_to_sign_in() {
    let r = authenticate(&None, Some(Claims { sub: 4, exp: 10 }));
    assert_eq!(r, Err(Reply::Redirect("/login".to_string())));
}

#[test]
fn request_with_bad_token_goes_to_sign_in() {
    let r = authenticate(&Some("garbage".to_string()), None);
    assert_eq!(r, Err(Reply::Redirect("/login".to_string())));
}

#[test]
fn request_with_valid_token_runs_as_its_user() {
    let r = authenticate(&Some("t".to_string()), Some(Claims { sub: 17, exp: 99 }));
    assert_eq!(r, Ok(AuthUser { id: 17 }));
}

#[test]
fn signed_in_session_authenticates_as_its_user() {
    let form = RegisterPayload { username: "dave".to_string(), password: "pa55".to_string() };
    let created = match register(&None, &form) {
        RegistrationOutcome::Create(nu) => nu,
        other => panic!("unexpected outcome {:?}", other),
    };
    let stored = User { id: 8, username: created.username, password_hash: created.password_hash };
    let claims = match login(&Some(stored), &login_form("pa55")) {
        LoginOutcome::SignedIn(c) => c,
        other => panic!("unexpected outcome {:?}", other),
    };
    let cookie = session_cookie("signed.token".to_string());
    assert_eq!(authenticate(&Some(cookie.value), Some(claims)), Ok(AuthUser { id: 8 }));
}

#[test]
fn sign_in_at_a_clock_reading_expires_a_day_later() {
    let user = Some(user_with_hash(9, KNOWN_HASH));
    let form = login_form("correctbatteryhorsestapler");
    assert_eq!(login_at(&user, &form, Some(1_000)), LoginOutcome::SignedIn(Claims { sub: 9, exp: 87_400 }));
    assert_eq!(login_at(&user, &form, None), LoginOutcome::ClockError);
    assert_eq!(login_at(&user, &form, Some(u64::MAX)), LoginOutcome::ClockError);
    assert_eq!(login_at(&user, &login_form("nope"), Some(1_000)), LoginOutcome::InvalidCredentials);
    assert_eq!(login_at(&None, &form, Some(1_000)), LoginOutcome::InvalidCredentials);
}

#[test]
fn stored_hash_is_bcrypt_cost_twelve() {
    let form = RegisterPayload { username: "erin".to_string(), password: "letmein".to_string() };
    match register(&None, &form) {
        RegistrationOutcome::Create(nu) => {
            assert!(nu.password_hash.starts_with("$2b$12$"));
            assert_eq!(nu.password_hash.chars().count(), 60);
            assert_ne!(nu.password_hash, "letmein");
        }
        other => panic!("unexpected outcome {:?}", other),
    }
}
