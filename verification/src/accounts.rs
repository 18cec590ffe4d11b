//! User accounts: registration, login, password changes and resets.

use vstd::prelude::*;
use argon2::{Argon2, PasswordHash, PasswordHasher, PasswordVerifier};
use argon2::password_hash::SaltString;
use argon2::password_hash::rand_core::{OsRng, RngCore};
use jsonwebtoken::{encode, Algorithm, EncodingKey, Header};
use crate::text::{lowercase, to_lowercase};
use crate::reply::{Status, Notice, says, says_labelled, notice, notice_str, labelled, answer_is, refusal_is};

verus! {

/// Whether a stored text parses as a PHC password hash string.
pub uninterp spec fn stored_hash_parses(stored: Seq<char>) -> bool;

/// Whether `password` hashes, with the parameters and salt of the stored
/// hash and Argon2's defaults, to the stored output.
pub uninterp spec fn password_matches(password: Seq<char>, stored: Seq<char>) -> bool;

/// The text of the error `PasswordHash::new` reports for an unreadable
/// stored hash.
pub uninterp spec fn hash_error_text(stored: Seq<char>) -> Seq<char>;

/// Why `stored` is not a readable password hash, or `None` when it is.
///
/// Trusted: calls `argon2::PasswordHash::new`, whose success and error
/// depend on the text alone, and passes on the error's text.
#[verifier::external_body]
fn hash_problem(stored: &str) -> (r: Option<String>)
    ensures
        r is None <==> stored_hash_parses(stored@),
        r matches Some(t) ==> t@ == hash_error_text(stored@),
{
    match PasswordHash::new(stored) {
        Ok(_) => None,
        Err(e) => Some(e.to_string()),
    }
}

/// Whether `password` is the one `stored` was made from.
///
/// Trusted: parses `stored` and calls `verify_password` of
/// `argon2::Argon2::default()`, which recomputes the hash of `password` with
/// the stored parameters and salt and compares it with the stored output;
/// the result depends on the two texts alone.
#[verifier::external_body]
fn password_verifies(password: &str, stored: &str) -> (r: bool)
    requires
        stored_hash_parses(stored@),
    ensures
        r == password_matches(password@, stored@),
{
    match PasswordHash::new(stored) {
        Ok(h) => Argon2::default().verify_password(password.as_bytes(), &h).is_ok(),
        Err(_) => false,
    }
}

/// A fresh hash of `password`, or `None` where the operating system's
/// random source or hashing fails.
///
/// Trusted: fills 16 salt bytes with `OsRng::try_fill_bytes`, encodes them
/// with `SaltString::encode_b64`, calls `hash_password` of
/// `argon2::Argon2::default()` with that salt and writes the result as a PHC
/// string; each failure gives `None`. Which hash comes out depends on that
/// salt and is not stated; what is stated is the round trip the
/// `password-hash` source shows: the string parses back (`PasswordHash::new`), and
/// `verify_password`, which recomputes the hash of a password with the
/// stored algorithm, version, parameters and salt, accepts `password` for it.
#[verifier::external_body]
fn hash_password(password: &str) -> (r: Option<String>)
    ensures
        r matches Some(h) ==> stored_hash_parses(h@) && password_matches(password@, h@),
{
    let mut bytes = [0u8; 16];
    if OsRng.try_fill_bytes(&mut bytes).is_err() {
        return None;
    }
    let salt = match SaltString::encode_b64(&bytes) {
        Ok(salt) => salt,
        Err(_) => return None,
    };
    match Argon2::default().hash_password(password.as_bytes(), &salt) {
        Ok(h) => Some(h.to_string()),
        Err(_) => None,
    }
}

/// Whether login accepts `password` for a user with the given `blocked`
/// flag and stored hash.
pub open spec fn accepts(blocked: bool, stored: Seq<char>, password: Seq<char>) -> bool {
    !blocked && stored_hash_parses(stored) && password_matches(password, stored)
}

/// The username login looks a user up by: the given one in lower case.
pub fn login_key(username: &str) -> (r: String)
    ensures
        r@ == lowercase(username@),
{
    to_lowercase(username)
}

/// How a new user's or client's e-mail is stored, and how an e-mail is
/// looked for on registration and password reset requests: in lower case.
pub fn stored_email(email: &str) -> (r: String)
    ensures
        r@ == lowercase(email@),
{
    to_lowercase(email)
}

/// What login reads of the user with the given username.
pub struct Credentials {
    pub blocked: bool,
    /// The stored password hash.
    pub password: String,
}

/// The outcome of a login attempt, before any token is made.
pub enum LoginStep {
    /// Answer with this notice.
    Refuse(Notice),
    /// Answer with a bare 500 carrying this text (the database's error, or
    /// why the stored hash cannot be read).
    Break(String),
    /// The credentials are right: make a token for the user.
    IssueToken,
}

/// The answer to an unknown user or a wrong password; they are the same, so
/// that the answer does not tell which usernames exist.
pub open spec fn invalid_credentials(n: Notice) -> bool {
    says(n, Status::Unauthorized, "Invalid credentials"@)
}

/// The answer to a blocked account.
pub open spec fn blocked_account(n: Notice) -> bool {
    says(n, Status::Unauthorized, "Your account has been blocked by an administrator"@)
}

/// A login attempt with `password`, given the user found by username (in
/// lower case).
pub fn check_login(found: Result<Option<Credentials>, String>, password: &str) -> (r: LoginStep)
    ensures
        found matches Err(t) ==> r == LoginStep::Break(t),
        found matches Ok(None) ==> (r matches LoginStep::Refuse(n) && invalid_credentials(n)),
        found matches Ok(Some(c)) ==> {
            &&& c.blocked ==> (r matches LoginStep::Refuse(n) && blocked_account(n))
            &&& !c.blocked && !stored_hash_parses(c.password@) ==> (r matches LoginStep::Break(t)
                && t@ == hash_error_text(c.password@))
            &&& !c.blocked && stored_hash_parses(c.password@) && password_matches(password@, c.password@)
                ==> r is IssueToken
            &&& !c.blocked && stored_hash_parses(c.password@) && !password_matches(password@, c.password@)
                ==> (r matches LoginStep::Refuse(n) && invalid_credentials(n))
        },
        r is IssueToken <==> (found matches Ok(Some(c)) && accepts(c.blocked, c.password@, password@)),
{
    match found {
        Err(t) => LoginStep::Break(t),
        Ok(None) => LoginStep::Refuse(notice_str(Status::Unauthorized, "Invalid credentials")),
        Ok(Some(c)) => {
            if c.blocked {
                LoginStep::Refuse(notice_str(Status::Unauthorized, "Your account has been blocked by an administrator"))
            } else if let Some(problem) = hash_problem(c.password.as_str()) {
                LoginStep::Break(problem)
            } else if password_verifies(password, c.password.as_str()) {
                LoginStep::IssueToken
            } else {
                LoginStep::Refuse(notice_str(Status::Unauthorized, "Invalid credentials"))
            }
        },
    }
}

/// What a login token claims: the username, when it was issued and when it
/// expires (seconds since the Unix epoch).
pub struct TokenClaims {
    pub sub: String,
    pub iat: u64,
    pub exp: u64,
}

/// How long a login token lasts, in seconds: a day.
pub const TOKEN_LIFETIME: u64 = 86400u64;

/// The claims of a token for `username` issued at `now`.
pub fn token_claims(username: &String, now: u64) -> (c: TokenClaims)
    requires
        now + TOKEN_LIFETIME <= u64::MAX,
    ensures
        c.sub@ == username@,
        c.iat == now,
        c.exp == now + TOKEN_LIFETIME,
{
    TokenClaims { sub: username.clone(), iat: now, exp: now + TOKEN_LIFETIME }
}

/// The token `jsonwebtoken::encode` makes, with an HS256 header and the
/// given secret, of the claims object `{sub, iat, exp}`.
pub uninterp spec fn signed_token(sub: Seq<char>, iat: u64, exp: u64, secret: Seq<char>) -> Seq<char>;

/// Signs the claims with `secret`.
///
/// Trusted: builds a JSON object of the three claims and calls
/// `jsonwebtoken::encode` with `Header::new(Algorithm::HS256)` and
/// `EncodingKey::from_secret`. Its source refuses only a key whose family
/// differs from the algorithm's (both are HMAC here) or claims that do not
/// serialize (a JSON object of a string and two integers always does), and
/// HMAC signing cannot fail, so a token always comes out; it depends on the
/// claims and the secret alone.
#[verifier::external_body]
fn sign_token(claims: &TokenClaims, secret: &str) -> (r: Option<String>)
    ensures
        r is Some,
        r matches Some(t) ==> t@ == signed_token(claims.sub@, claims.iat, claims.exp, secret@),
{
    let mut body = serde_json::Map::new();
    body.insert("sub".to_string(), serde_json::Value::from(claims.sub.clone()));
    body.insert("iat".to_string(), serde_json::Value::from(claims.iat));
    body.insert("exp".to_string(), serde_json::Value::from(claims.exp));
    let key = EncodingKey::from_secret(secret.as_bytes());
    encode(&Header::new(Algorithm::HS256), &serde_json::Value::Object(body), &key).ok()
}

/// The login token of `username` issued at `now`, signed with `secret`: it
/// claims the username, the issue time and an expiry a day later.
pub fn login_token(username: &String, now: u64, secret: &str) -> (r: String)
    requires
        now + TOKEN_LIFETIME <= u64::MAX,
    ensures
        r@ == signed_token(username@, now, (now + TOKEN_LIFETIME) as u64, secret@),
{
    let claims = token_claims(username, now);
    match sign_token(&claims, secret) {
        Some(t) => t,
        None => String::new(),
    }
}

/// Registering a user: after looking for a user with the same e-mail (in
/// lower case). `None` means the e-mail is free.
pub fn registration_email_check(same_email: Result<Option<()>, String>) -> (r: Option<Notice>)
    ensures
        same_email == Ok::<Option<()>, String>(None) ==> r is None,
        same_email == Ok::<Option<()>, String>(Some(())) ==> answer_is(r, Status::Conflict, "Invalid data"@),
        same_email is Err ==> answer_is(r, Status::InternalServerError,
            "There has been an error when finding user, please try again"@),
{
    match same_email {
        Ok(None) => None,
        Ok(Some(())) => Some(notice_str(Status::Conflict, "Invalid data")),
        Err(_) => Some(notice_str(Status::InternalServerError,
            "There has been an error when finding user, please try again")),
    }
}

/// Registering a user: the hash of its password, or the answer when hashing
/// fails.
pub fn registration_hash(password: &str) -> (r: Result<String, Notice>)
    ensures
        r matches Ok(h) ==> accepts(false, h@, password@),
        r is Err ==> refusal_is(r, Status::InternalServerError,
            "There has been an error when processing password, please try again"@),
{
    match hash_password(password) {
        Some(h) => Ok(h),
        None => Err(notice_str(Status::InternalServerError,
            "There has been an error when processing password, please try again")),
    }
}

/// Registering a user: after reading the role new users get.
pub fn registration_role<T>(found: Result<Option<T>, String>) -> (r: Result<T, Notice>)
    ensures
        found matches Ok(Some(role)) ==> r == Ok::<T, Notice>(role),
        found matches Ok(None) ==> refusal_is(r, Status::NotFound, "Role not found"@),
        found is Err ==> refusal_is(r, Status::InternalServerError,
            "There has been an error when getting user's role, please try again"@),
{
    match found {
        Ok(Some(role)) => Ok(role),
        Ok(None) => Err(notice_str(Status::NotFound, "Role not found")),
        Err(_) => Err(notice_str(Status::InternalServerError,
            "There has been an error when getting user's role, please try again")),
    }
}

/// The role new users get.
pub const NEW_USER_ROLE: &'static str = "User";

/// The outcome of a password change of a known user.
pub enum Change {
    /// Answer with this notice.
    Refuse(Notice),
    /// Store this hash as the user's password.
    Store(String),
}

/// The change is refused with `status` and `message`.
pub open spec fn change_refused(r: Change, status: Status, message: Seq<char>) -> bool {
    match r {
        Change::Refuse(n) => says(n, status, message),
        _ => false,
    }
}

/// The answer when the new password is written.
pub open spec fn password_set(n: Notice) -> bool {
    says_labelled(n, Status::Success, "Updated"@, "The new password has been set"@)
}

/// Changing a user's password: after reading the user (`Some(stored hash)`).
pub fn change_password(found: Result<Option<String>, String>, new_password: &str) -> (r: Change)
    ensures
        found == Ok::<Option<String>, String>(None) ==> change_refused(r, Status::NotFound, "User not found"@),
        found is Err ==> change_refused(r, Status::InternalServerError,
            "There has been an error when finding user, please try again"@),
        found matches Ok(Some(stored)) ==> {
            &&& !stored_hash_parses(stored@) ==> change_refused(r, Status::InternalServerError,
                "There has been an error when processing password, please try again"@)
            &&& stored_hash_parses(stored@) && password_matches(new_password@, stored@) ==> change_refused(r,
                Status::BadRequest, "Invalid data"@)
            &&& stored_hash_parses(stored@) && !password_matches(new_password@, stored@) && r is Refuse
                ==> change_refused(r, Status::InternalServerError,
                "There has been an error when processing new password, please try again"@)
        },
        r matches Change::Store(h) ==> accepts(false, h@, new_password@),
{
    match found {
        Ok(None) => Change::Refuse(notice_str(Status::NotFound, "User not found")),
        Err(_) => Change::Refuse(notice_str(Status::InternalServerError,
            "There has been an error when finding user, please try again")),
        Ok(Some(stored)) => {
            if hash_problem(stored.as_str()).is_some() {
                Change::Refuse(notice_str(Status::InternalServerError,
                    "There has been an error when processing password, please try again"))
            } else if password_verifies(new_password, stored.as_str()) {
                Change::Refuse(notice_str(Status::BadRequest, "Invalid data"))
            } else {
                match hash_password(new_password) {
                    Some(h) => Change::Store(h),
                    None => Change::Refuse(notice_str(Status::InternalServerError,
                        "There has been an error when processing new password, please try again")),
                }
            }
        },
    }
}

/// Changing a user's password: after writing the new hash.
pub fn change_written(written: Result<(), String>) -> (n: Notice)
    ensures
        written is Ok ==> password_set(n),
        written is Err ==> says(n, Status::InternalServerError, "Error when updating user, please try again later"@),
{
    match written {
        Ok(()) => labelled(Status::Success, "Updated", "The new password has been set"),
        Err(_) => notice_str(Status::InternalServerError, "Error when updating user, please try again later"),
    }
}

/// Resetting a forgotten password: after reading the reset token, the hash
/// of the new password to store for its user.
pub fn reset_with_token<T>(found: Result<Option<T>, String>, new_password: &str) -> (r: Result<(T, String), Notice>)
    ensures
        r matches Ok(v) ==> found == Ok::<Option<T>, String>(Some(v.0)) && accepts(false, v.1@, new_password@),
        found == Ok::<Option<T>, String>(None) ==> refusal_is(r, Status::NotFound,
            "Reset token is invalid or has expired"@),
        found is Err ==> refusal_is(r, Status::InternalServerError,
            "There has been an error when finding reset token, please try again"@),
        found is Ok && found != Ok::<Option<T>, String>(None) && r is Err ==> refusal_is(r,
            Status::InternalServerError, "There has been an error when processing new password, please try again"@),
{
    match found {
        Ok(None) => Err(notice_str(Status::NotFound, "Reset token is invalid or has expired")),
        Err(_) => Err(notice_str(Status::InternalServerError,
            "There has been an error when finding reset token, please try again")),
        Ok(Some(t)) => match hash_password(new_password) {
            Some(h) => Ok((t, h)),
            None => Err(notice_str(Status::InternalServerError,
                "There has been an error when processing new password, please try again")),
        },
    }
}

/// Resetting a forgotten password: after storing the new hash (and clearing
/// the user's token). `None` means the reset token is to be deleted next.
pub fn reset_written(written: Result<(), String>) -> (r: Option<Notice>)
    ensures
        written is Ok ==> r is None,
        written is Err ==> answer_is(r, Status::InternalServerError,
            "Error when updating user, please try again later"@),
{
    match written {
        Ok(()) => None,
        Err(_) => Some(notice_str(Status::InternalServerError, "Error when updating user, please try again later")),
    }
}

/// Resetting a forgotten password: after deleting the reset token.
pub fn reset_finished(deleted: Result<(), String>) -> (n: Notice)
    ensures
        deleted is Ok ==> says(n, Status::Success, "Your password has ben reset"@),
        deleted is Err ==> says(n, Status::InternalServerError,
            "There has been an error when deleting token, please try again"@),
{
    match deleted {
        Ok(()) => notice_str(Status::Success, "Your password has ben reset"),
        Err(_) => notice_str(Status::InternalServerError, "There has been an error when deleting token, please try again"),
    }
}

/// Asking for a password reset: after reading the user by e-mail (in lower
/// case): the address to write to, or the answer.
pub fn reset_request(found: Result<Option<Option<String>>, String>) -> (r: Result<String, Notice>)
    ensures
        found matches Ok(Some(Some(e))) ==> (r matches Ok(a) && a@ == e@),
        found == Ok::<Option<Option<String>>, String>(None) ==> refusal_is(r, Status::Success, "Ok"@),
        found == Ok::<Option<Option<String>>, String>(Some(None)) ==> refusal_is(r, Status::BadRequest,
            "User has no email address"@),
        found is Err ==> refusal_is(r, Status::InternalServerError,
            "There has been an error when finding user, please try again"@),
{
    match found {
        Ok(Some(Some(e))) => Ok(e),
        Ok(None) => Err(notice_str(Status::Success, "Ok")),
        Ok(Some(None)) => Err(notice_str(Status::BadRequest, "User has no email address")),
        Err(_) => Err(notice_str(Status::InternalServerError,
            "There has been an error when finding user, please try again")),
    }
}

/// Asking for a password reset: after storing the reset token and sending
/// the e-mail. A failed e-mail is answered first.
pub fn reset_request_sent(stored: Result<(), String>, mailed: Result<(), String>) -> (n: Notice)
    ensures
        mailed is Err ==> says(n, Status::InternalServerError, "Could not send password email"@),
        mailed is Ok && stored is Ok ==> says(n, Status::Success, "E-mail sent!"@),
        mailed is Ok && stored is Err ==> says(n, Status::InternalServerError,
            "There has been an error when sending email to user, please try again"@),
{
    if mailed.is_err() {
        notice_str(Status::InternalServerError, "Could not send password email")
    } else if stored.is_ok() {
        notice_str(Status::Success, "E-mail sent!")
    } else {
        notice_str(Status::InternalServerError,
            "There has been an error when sending email to user, please try again")
    }
}

} // verus!
