use vstd::prelude::*;

use crate::models::{AuthUser, Claims, LoginPayload, RegisterPayload, User};
use crate::replies::{redirect_home, redirect_login, redirects_to, Reply, HOME_PATH, LOGIN_PATH};

verus! {

/// Name of the cookie that carries the session token.
pub const SESSION_COOKIE: &'static str = "jwt_token";

/// Path the session cookie is scoped to.
pub const SESSION_COOKIE_PATH: &'static str = "/";

/// How every hash made here begins: bcrypt version `2b`, cost 12.
pub const BCRYPT_DEFAULT_PREFIX: &'static str = "$2b$12$";

/// The length of a bcrypt hash string: the prefix, 22 characters of salt
/// and 31 of digest.
pub const BCRYPT_HASH_LEN: usize = 60;

/// `h` has the shape of the hashes made here: it begins with `$2b$12$` and
/// is 60 characters long.
pub open spec fn is_default_cost_hash(h: Seq<char>) -> bool {
    &&& h.len() == BCRYPT_HASH_LEN
    &&& h.take(7) == BCRYPT_DEFAULT_PREFIX@
}

/// How long a session lasts, in seconds (one day).
pub const SESSION_TTL_SECS: u64 = 86400;

/// Message shown on the sign-in page when the credentials are refused.
pub const INVALID_CREDENTIALS_MESSAGE: &'static str = "Credenciais inválidas";

/// Message shown on the sign-up page when the username is already taken.
pub const USERNAME_TAKEN_MESSAGE: &'static str = "Usuário já existe";

// ---------------------------------------------------------------------------
// Password hashing (bcrypt)
// ---------------------------------------------------------------------------

/// What `bcrypt::verify(password, hash)` returns: `Some(b)` for `Ok(b)`,
/// `None` for an error (a hash that does not parse, whose salt does not
/// decode, or whose cost lies outside 4..=31).
pub uninterp spec fn bcrypt_verify(password: Seq<char>, hash: Seq<char>) -> Option<bool>;

/// Calls `bcrypt::verify`. Trusted: the result is the value that
/// `bcrypt_verify` names for these arguments (the function reads nothing but
/// its arguments), with the error mapped to `None`. A hash naming a high
/// cost makes the call take very long; hashes made here name cost 12.
#[verifier::external_body]
fn verify_password(password: &str, hash: &str) -> (r: Option<bool>)
    ensures
        r == bcrypt_verify(password@, hash@),
{
    match bcrypt::verify(password, hash) {
        Ok(b) => Some(b),
        Err(_) => None,
    }
}

/// Calls `bcrypt::hash` with `bcrypt::DEFAULT_COST`. The salt is drawn from
/// the operating system's randomness, so nothing pins the hash itself.
/// Trusted: a hash that comes back verifies against the password it was made
/// from (`verify` re-hashes the password with the salt and cost read back
/// from the hash), and it has the shape that `HashParts::format` gives it:
/// `$2b$`, the cost as two digits (12), `$`, the 16-byte salt in 22
/// characters of bcrypt's base64 and the 23-byte digest in 31. The call
/// fails only when the randomness source fails; that it succeeds is not
/// stated. That the hash differs from the password is not stated either:
/// nothing in the source rules out a password that equals its own hash.
#[verifier::external_body]
fn hash_password(password: &str) -> (r: Option<String>)
    ensures
        r matches Some(h) ==> bcrypt_verify(password@, h@) == Some(true) && is_default_cost_hash(
            h@,
        ),
{
    match bcrypt::hash(password, bcrypt::DEFAULT_COST) {
        Ok(h) => Some(h),
        Err(_) => None,
    }
}

/// The seconds elapsed since the Unix epoch on the system clock, or `None`
/// when the clock reads earlier than the epoch. Calls
/// `SystemTime::elapsed` on `UNIX_EPOCH` and keeps the whole seconds.
/// Nothing is stated of the value: it is the time.
#[verifier::external_body]
fn unix_time_secs() -> (r: Option<u64>) {
    match std::time::UNIX_EPOCH.elapsed() {
        Ok(d) => Some(d.as_secs()),
        Err(_) => None,
    }
}

// ---------------------------------------------------------------------------
// Signing in
// ---------------------------------------------------------------------------

/// The verdict on a sign-in attempt's credentials.
#[derive(Debug, Clone, PartialEq, Eq)]
pub enum CredentialCheck {
    /// The password matches the stored hash of the user with this id.
    Accepted(i32),
    /// No such user, or a wrong password.
    Rejected,
    /// The stored hash could not be read.
    UnreadableHash,
}

/// What a credential check gives for the looked-up user and a password.
pub open spec fn credential_check_spec(user: Option<User>, password: Seq<char>) -> CredentialCheck {
    match user {
        None => CredentialCheck::Rejected,
        Some(u) => match bcrypt_verify(password, u.password_hash@) {
            Some(true) => CredentialCheck::Accepted(u.id),
            Some(false) => CredentialCheck::Rejected,
            None => CredentialCheck::UnreadableHash,
        },
    }
}

/// Checks a password against the user looked up by the submitted username.
pub fn check_credentials(user: &Option<User>, payload: &LoginPayload) -> (r: CredentialCheck)
    ensures
        r == credential_check_spec(*user, payload.password@),
{
    match user {
        None => CredentialCheck::Rejected,
        Some(u) => match verify_password(payload.password.as_str(), u.password_hash.as_str()) {
            Some(true) => CredentialCheck::Accepted(u.id),
            Some(false) => CredentialCheck::Rejected,
            None => CredentialCheck::UnreadableHash,
        },
    }
}

/// The claims of a session opened at `now_secs` for `user_id`, or `None`
/// when the expiry does not fit in a `usize`.
pub open spec fn session_claims_spec(user_id: i32, now_secs: u64) -> Option<Claims> {
    if now_secs + SESSION_TTL_SECS <= usize::MAX {
        Some(Claims { sub: user_id, exp: (now_secs + SESSION_TTL_SECS) as usize })
    } else {
        None
    }
}

/// The claims of a session opened at `now_secs` (seconds since the epoch)
/// for the user `user_id`: it expires one day later.
pub fn session_claims(user_id: i32, now_secs: u64) -> (r: Option<Claims>)
    ensures
        r == session_claims_spec(user_id, now_secs),
{
    if (now_secs as u128) + (SESSION_TTL_SECS as u128) <= usize::MAX as u128 {
        let exp: usize = (now_secs + SESSION_TTL_SECS) as usize;
        Some(Claims { sub: user_id, exp })
    } else {
        None
    }
}

/// How a sign-in attempt ends.
#[derive(Debug, Clone, PartialEq, Eq)]
pub enum LoginOutcome {
    /// The credentials were accepted; a session with these claims opens.
    SignedIn(Claims),
    /// The credentials were refused.
    InvalidCredentials,
    /// The stored hash could not be read.
    UnreadableHash,
    /// The system clock could not give a usable expiry time.
    ClockError,
}

/// How a sign-in attempt ends when the clock reads `now_secs` seconds
/// since the epoch (`None` when it reads earlier than the epoch).
pub open spec fn login_spec(user: Option<User>, password: Seq<char>, now_secs: Option<u64>) -> LoginOutcome {
    match credential_check_spec(user, password) {
        CredentialCheck::Accepted(id) => match now_secs {
            Some(now) => match session_claims_spec(id, now) {
                Some(c) => LoginOutcome::SignedIn(c),
                None => LoginOutcome::ClockError,
            },
            None => LoginOutcome::ClockError,
        },
        CredentialCheck::Rejected => LoginOutcome::InvalidCredentials,
        CredentialCheck::UnreadableHash => LoginOutcome::UnreadableHash,
    }
}

/// Handles a sign-in attempt at a given clock reading (seconds since the
/// epoch, or `None` when the clock reads earlier than the epoch), given the
/// user that the submitted username names (if any): on a matching password
/// it opens a session for that user that expires one day after `now_secs`.
pub fn login_at(user: &Option<User>, payload: &LoginPayload, now_secs: Option<u64>) -> (r:
    LoginOutcome)
    ensures
        r == login_spec(*user, payload.password@, now_secs),
{
    match check_credentials(user, payload) {
        CredentialCheck::Accepted(id) => match now_secs {
            Some(now) => match session_claims(id, now) {
                Some(c) => LoginOutcome::SignedIn(c),
                None => LoginOutcome::ClockError,
            },
            None => LoginOutcome::ClockError,
        },
        CredentialCheck::Rejected => LoginOutcome::InvalidCredentials,
        CredentialCheck::UnreadableHash => LoginOutcome::UnreadableHash,
    }
}

/// Handles a sign-in attempt, given the user that the submitted username
/// names (if any), at the current time of the system clock: on a matching
/// password it opens a session for that user that expires one day after
/// the clock reading.
pub fn login(user: &Option<User>, payload: &LoginPayload) -> (r: LoginOutcome)
    ensures
        exists|now_secs: Option<u64>| r == login_spec(*user, payload.password@, now_secs),
        match credential_check_spec(*user, payload.password@) {
            CredentialCheck::Accepted(id) => match r {
                LoginOutcome::SignedIn(c) => c.sub == id && c.exp >= SESSION_TTL_SECS,
                LoginOutcome::ClockError => true,
                _ => false,
            },
            CredentialCheck::Rejected => r is InvalidCredentials,
            CredentialCheck::UnreadableHash => r is UnreadableHash,
        },
{
    let now_secs = unix_time_secs();
    login_at(user, payload, now_secs)
}

/// The reply to a sign-in attempt that ended in a session or a refusal:
/// the home page once signed in, else the sign-in page with an error.
pub fn login_reply(outcome: &LoginOutcome) -> (r: Reply)
    requires
        outcome is SignedIn || outcome is InvalidCredentials,
    ensures
        outcome is SignedIn ==> redirects_to(r, HOME_PATH@),
        outcome is InvalidCredentials ==> (r matches Reply::LoginPage(Some(m)) && m@
            == INVALID_CREDENTIALS_MESSAGE@),
{
    match outcome {
        LoginOutcome::SignedIn(_) => redirect_home(),
        _ => Reply::LoginPage(Some(String::from_str(INVALID_CREDENTIALS_MESSAGE))),
    }
}

// ---------------------------------------------------------------------------
// Signing up
// ---------------------------------------------------------------------------

/// A user to be stored: the chosen username and the hash of the password.
#[derive(Debug, Clone, PartialEq, Eq)]
pub struct NewUser {
    pub username: String,
    pub password_hash: String,
}

/// How a sign-up attempt ends.
#[derive(Debug, Clone, PartialEq, Eq)]
pub enum RegistrationOutcome {
    /// The username is already in use.
    UsernameTaken,
    /// The user is to be stored.
    Create(NewUser),
    /// The password could not be hashed.
    HashFailed,
}

/// What a sign-up attempt may end in: a taken username is refused; else
/// either the hashing failed or the user is to be stored under the submitted
/// username with a bcrypt hash of cost 12 (`$2b$12$`, 60 characters) that
/// verifies against the submitted password.
pub open spec fn registration_post(
    existing: Option<User>,
    payload: RegisterPayload,
    r: RegistrationOutcome,
) -> bool {
    match existing {
        Some(_) => r is UsernameTaken,
        None => match r {
            RegistrationOutcome::Create(nu) => nu.username@ == payload.username@ && bcrypt_verify(
                payload.password@,
                nu.password_hash@,
            ) == Some(true) && is_default_cost_hash(nu.password_hash@),
            RegistrationOutcome::HashFailed => true,
            RegistrationOutcome::UsernameTaken => false,
        },
    }
}

/// Handles a sign-up attempt, given the user already stored under the
/// submitted username (if any): a taken username is refused; otherwise the
/// user is to be stored under that username with a bcrypt hash of the
/// password, one that verifies against that password.
pub fn register(existing: &Option<User>, payload: &RegisterPayload) -> (r: RegistrationOutcome)
    ensures
        registration_post(*existing, *payload, r),
        exists|hashed: Option<String>|
            registration_with_hash(*existing, *payload, hashed, r) && (hashed matches Some(h)
                ==> bcrypt_verify(payload.password@, h@) == Some(true) && is_default_cost_hash(
                h@,
            )),
{
    if existing.is_some() {
        return register_with_hash(existing, payload, None);
    }
    let hashed = hash_password(payload.password.as_str());
    register_with_hash(existing, payload, hashed)
}

/// How a sign-up attempt ends once the password was hashed to `hashed`
/// (`None` when hashing failed; not looked at when the username is taken).
pub open spec fn registration_with_hash(
    existing: Option<User>,
    payload: RegisterPayload,
    hashed: Option<String>,
    r: RegistrationOutcome,
) -> bool {
    match existing {
        Some(_) => r is UsernameTaken,
        None => match hashed {
            Some(h) => r matches RegistrationOutcome::Create(nu) && nu.username@
                == payload.username@ && nu.password_hash@ == h@,
            None => r is HashFailed,
        },
    }
}

/// Ends a sign-up attempt given the outcome of hashing the password: a
/// taken username is refused; a free one is stored with the hash, unless
/// there is no hash.
pub fn register_with_hash(
    existing: &Option<User>,
    payload: &RegisterPayload,
    hashed: Option<String>,
) -> (r: RegistrationOutcome)
    ensures
        registration_with_hash(*existing, *payload, hashed, r),
{
    if existing.is_some() {
        return RegistrationOutcome::UsernameTaken;
    }
    match hashed {
        Some(h) => RegistrationOutcome::Create(
            NewUser { username: payload.username.clone(), password_hash: h },
        ),
        None => RegistrationOutcome::HashFailed,
    }
}

/// The reply to a sign-up attempt that was refused or stored: the sign-up
/// page with an error for a taken username, else the sign-in page.
pub fn register_reply(outcome: &RegistrationOutcome) -> (r: Reply)
    requires
        !(outcome is HashFailed),
    ensures
        outcome is UsernameTaken ==> (r matches Reply::RegisterPage(Some(m)) && m@
            == USERNAME_TAKEN_MESSAGE@),
        outcome is Create ==> redirects_to(r, LOGIN_PATH@),
{
    match outcome {
        RegistrationOutcome::UsernameTaken => Reply::RegisterPage(
            Some(String::from_str(USERNAME_TAKEN_MESSAGE)),
        ),
        _ => redirect_login(),
    }
}

// ---------------------------------------------------------------------------
// Session cookie and authentication
// ---------------------------------------------------------------------------

/// A cookie to set on, or remove from, the client.
#[derive(Debug, Clone, PartialEq, Eq)]
pub struct SessionCookie {
    pub name: String,
    pub value: String,
    pub path: String,
    pub http_only: bool,
}

/// `c` is the session cookie carrying `token`.
pub open spec fn is_session_cookie(c: SessionCookie, token: Seq<char>) -> bool {
    &&& c.name@ == SESSION_COOKIE@
    &&& c.value@ == token
    &&& c.path@ == SESSION_COOKIE_PATH@
    &&& c.http_only
}

/// `c` is the cookie that sign-out removes.
pub open spec fn is_removed_session_cookie(c: SessionCookie) -> bool {
    &&& c.name@ == SESSION_COOKIE@
    &&& c.value@ == Seq::<char>::empty()
    &&& c.path@ == SESSION_COOKIE_PATH@
    &&& !c.http_only
}

/// The cookie that carries a new session's token: named `jwt_token`,
/// scoped to `/`, hidden from scripts.
pub fn session_cookie(token: String) -> (c: SessionCookie)
    ensures
        is_session_cookie(c, token@),
{
    SessionCookie {
        name: String::from_str(SESSION_COOKIE),
        value: token,
        path: String::from_str(SESSION_COOKIE_PATH),
        http_only: true,
    }
}

/// The cookie whose removal ends a session on sign-out: the session
/// cookie's name and path, with an empty value.
pub fn removed_session_cookie() -> (c: SessionCookie)
    ensures
        is_removed_session_cookie(c),
{
    SessionCookie {
        name: String::from_str(SESSION_COOKIE),
        value: String::new(),
        path: String::from_str(SESSION_COOKIE_PATH),
        http_only: false,
    }
}

/// The reply to a sign-out: the sign-in page.
pub fn logout_reply() -> (r: Reply)
    ensures
        redirects_to(r, LOGIN_PATH@),
{
    redirect_login()
}

/// The id a request authenticates as: that of the token's claims, when the
/// request carries a session token and the token decodes and validates.
pub open spec fn authenticated_id(has_token: bool, decoded: Option<Claims>) -> Option<i32> {
    if has_token {
        match decoded {
            Some(c) => Some(c.sub),
            None => None,
        }
    } else {
        None
    }
}

/// Authenticates a request from its session token (the value of the
/// `jwt_token` cookie, if any) and the claims that the token decoded to
/// (`None` when it did not decode or validate). A request that does not
/// authenticate is sent to the sign-in page.
pub fn authenticate(token: &Option<String>, decoded: Option<Claims>) -> (r: Result<AuthUser, Reply>)
    ensures
        match authenticated_id(token is Some, decoded) {
            Some(id) => r == Ok::<AuthUser, Reply>(AuthUser { id }),
            None => (r matches Err(rep) && redirects_to(rep, LOGIN_PATH@)),
        },
{
    match token {
        None => Err(redirect_login()),
        Some(_) => match decoded {
            Some(c) => Ok(AuthUser { id: c.sub }),
            None => Err(redirect_login()),
        },
    }
}

// ---------------------------------------------------------------------------
// Laws
// ---------------------------------------------------------------------------

/// A password check accepts exactly when bcrypt says the password matches
/// the stored hash, refuses a wrong password and an unknown user, and
/// reports an unreadable hash only when bcrypt cannot read it, whatever the
/// password.
pub proof fn lemma_credential_check_follows_bcrypt(user: Option<User>, password: Seq<char>)
    ensures
        user is None ==> credential_check_spec(user, password) == CredentialCheck::Rejected,
        user matches Some(u) ==> {
            &&& bcrypt_verify(password, u.password_hash@) == Some(true) ==> credential_check_spec(
                user,
                password,
            ) == CredentialCheck::Accepted(u.id)
            &&& bcrypt_verify(password, u.password_hash@) == Some(false) ==> credential_check_spec(
                user,
                password,
            ) == CredentialCheck::Rejected
            &&& bcrypt_verify(password, u.password_hash@) is None ==> credential_check_spec(
                user,
                password,
            ) == CredentialCheck::UnreadableHash
        },
{
}

/// Every user, whatever the id, gets a session expiring one day after the
/// clock reading, whenever that expiry fits in a `usize`; none otherwise.
pub proof fn lemma_session_for_every_user(user_id: i32, now_secs: u64)
    ensures
        now_secs + SESSION_TTL_SECS <= usize::MAX ==> session_claims_spec(user_id, now_secs)
            == Some(Claims { sub: user_id, exp: (now_secs + 86400) as usize }),
        now_secs + SESSION_TTL_SECS > usize::MAX ==> session_claims_spec(user_id, now_secs)
            is None,
{
}

/// A sign-in with an accepted password at a clock reading whose expiry fits
/// opens a session for that user expiring one day later, whatever the id.
pub proof fn lemma_accepted_sign_in_opens_session(
    user: User,
    password: Seq<char>,
    now_secs: u64,
)
    requires
        bcrypt_verify(password, user.password_hash@) == Some(true),
        now_secs + 86400 <= usize::MAX,
    ensures
        login_spec(Some(user), password, Some(now_secs)) == LoginOutcome::SignedIn(
            Claims { sub: user.id, exp: (now_secs + 86400) as usize },
        ),
{
}

/// A sign-up with a free username and a password that was hashed stores the
/// user under the submitted username with that very hash: hashing is the
/// only way a free username can fail to be stored.
pub proof fn lemma_free_username_is_stored(
    payload: RegisterPayload,
    hash: String,
    r: RegistrationOutcome,
)
    requires
        registration_with_hash(None, payload, Some(hash), r),
    ensures
        r matches RegistrationOutcome::Create(nu) && nu.username@ == payload.username@
            && nu.password_hash@ == hash@,
        !(r is HashFailed),
{
}

/// A user stored by a sign-up can sign in with the password chosen at
/// sign-up: whatever id the store gives the new user, checking that password
/// against the stored hash accepts it for that id.
pub proof fn lemma_registered_user_can_sign_in(
    payload: RegisterPayload,
    outcome: RegistrationOutcome,
    stored: User,
)
    requires
        registration_post(None, payload, outcome),
        outcome matches RegistrationOutcome::Create(nu) && stored.username@ == nu.username@
            && stored.password_hash@ == nu.password_hash@,
    ensures
        stored.username@ == payload.username@,
        credential_check_spec(Some(stored), payload.password@) == CredentialCheck::Accepted(
            stored.id,
        ),
{
}

/// Sign-out removes the cookie that sign-in sets: the two cookies have the
/// same name and the same path.
pub proof fn lemma_sign_out_removes_session_cookie(
    set: SessionCookie,
    token: Seq<char>,
    removed: SessionCookie,
)
    requires
        is_session_cookie(set, token),
        is_removed_session_cookie(removed),
    ensures
        set.name@ == removed.name@,
        set.path@ == removed.path@,
{
}

/// Sign-in never opens a session for anyone but the user looked up, and a
/// session is only opened on an accepted password.
pub proof fn lemma_session_only_for_accepted_password(user: Option<User>, password: Seq<char>)
    ensures
        match credential_check_spec(user, password) {
            CredentialCheck::Accepted(id) => user matches Some(u) && u.id == id && bcrypt_verify(
                password,
                u.password_hash@,
            ) == Some(true),
            _ => true,
        },
{
}

/// A session opened at any time authenticates, while its token decodes to
/// its claims, as the user it was opened for.
pub proof fn lemma_session_authenticates_its_user(user_id: i32, now_secs: u64)
    requires
        session_claims_spec(user_id, now_secs) is Some,
    ensures
        authenticated_id(true, session_claims_spec(user_id, now_secs)) == Some(user_id),
{
}

/// A session lasts exactly one day from the moment it opens.
pub proof fn lemma_session_lasts_one_day(user_id: i32, now_secs: u64)
    requires
        session_claims_spec(user_id, now_secs) is Some,
    ensures
        session_claims_spec(user_id, now_secs)->Some_0.exp == now_secs + SESSION_TTL_SECS,
{
}

/// A request without a session token never authenticates, whatever else it
/// carries.
pub proof fn lemma_no_token_no_access(decoded: Option<Claims>)
    ensures
        authenticated_id(false, decoded) is None,
{
}

} // verus!
