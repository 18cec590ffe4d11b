use jb_api::accounts::{
    change_password, change_written, check_login, registration_email_check, registration_hash,
    registration_role, reset_finished, reset_request, reset_request_sent, reset_with_token, reset_written,
    token_claims, Change, Credentials, LoginStep, TOKEN_LIFETIME,
};
use jb_api::reply::Status;

fn stored_hash(password: &str) -> String {
    registration_hash(password).ok().unwrap()
}

fn creds(password: &str, blocked: bool) -> Credentials {
    Credentials { blocked, password: stored_hash(password) }
}

#[test]
fn right_password_gets_a_token() {
    assert!(matches!(check_login(Ok(Some(creds("s3cret", false))), "s3cret"), LoginStep::IssueToken));
}

#[test]
fn unknown_user_and_wrong_password_look_the_same() {
    let wrong = match check_login(Ok(Some(creds("s3cret", false))), "guess") {
        LoginStep::Refuse(n) => n,
        _ => panic!("expected a refusal"),
    };
    let unknown = match check_login(Ok(None), "guess") {
        LoginStep::Refuse(n) => n,
        _ => panic!("expected a refusal"),
    };
    assert_eq!(wrong.status, Status::Unauthorized);
    assert_eq!(wrong.message, "Invalid credentials");
    assert_eq!(wrong.status, unknown.status);
    assert_eq!(wrong.label, unknown.label);
    assert_eq!(wrong.message, unknown.message);
}

#[test]
fn blocked_user_gets_no_token_even_with_the_right_password() {
    match check_login(Ok(Some(creds("s3cret", true))), "s3cret") {
        LoginStep::Refuse(n) => {
            assert_eq!(n.status, Status::Unauthorized);
            assert_eq!(n.message, "Your account has been blocked by an administrator");
        }
        _ => panic!("expected a refusal"),
    }
}

#[test]
fn unreadable_hash_and_database_failure_break() {
    let c = Credentials { blocked: false, password: "not a hash".to_string() };
    assert!(matches!(check_login(Ok(Some(c)), "x"), LoginStep::Break(_)));
    match check_login(Err("db down".to_string()), "x") {
        LoginStep::Break(t) => assert_eq!(t, "db down"),
        _ => panic!("expected a failure"),
    }
}

#[test]
fn claims_last_a_day() {
    let c = token_claims(&"ana".to_string(), 1_700_000_000);
    assert_eq!(c.sub, "ana");
    assert_eq!(c.iat, 1_700_000_000);
    assert_eq!(c.exp, 1_700_000_000 + 86_400);
    assert_eq!(TOKEN_LIFETIME, 86_400);
}

#[test]
fn changing_to_the_same_password_is_refused() {
    let stored = stored_hash("old-pass");
    match change_password(Ok(Some(stored.clone())), "old-pass") {
        Change::Refuse(n) => {
            assert_eq!(n.status, Status::BadRequest);
            assert_eq!(n.message, "Invalid data");
        }
        _ => panic!("expected a refusal"),
    }
    match change_password(Ok(Some(stored)), "new-pass") {
        Change::Store(h) => assert!(h.starts_with("$argon2")),
        _ => panic!("expected a new hash"),
    }
}

#[test]
fn change_password_failures() {
    match change_password(Ok(None), "x") {
        Change::Refuse(n) => assert_eq!(n.message, "User not found"),
        _ => panic!(),
    }
    match change_password(Ok(Some("garbage".to_string())), "x") {
        Change::Refuse(n) => assert_eq!(n.message,
            "There has been an error when processing password, please try again"),
        _ => panic!(),
    }
    let n = change_written(Ok(()));
    assert_eq!(n.label, "Updated");
    assert_eq!(n.message, "The new password has been set");
    assert_eq!(change_written(Err("e".to_string())).message, "Error when updating user, please try again later");
}

#[test]
fn registration_steps() {
    assert!(registration_email_check(Ok(None)).is_none());
    assert_eq!(registration_email_check(Ok(Some(()))).unwrap().message, "Invalid data");
    assert!(registration_hash("pw").is_ok());
    assert_eq!(registration_role::<()>(Ok(None)).err().unwrap().message, "Role not found");
}

#[test]
fn forgotten_password_reset() {
    let (token, hash) = reset_with_token(Ok(Some(42u8)), "brand-new").ok().unwrap();
    assert_eq!(token, 42);
    assert!(hash.starts_with("$argon2"));
    assert_eq!(reset_with_token::<u8>(Ok(None), "x").err().unwrap().message, "Reset token is invalid or has expired");
    assert!(reset_written(Ok(())).is_none());
    assert_eq!(reset_finished(Ok(())).message, "Your password has ben reset");
}

#[test]
fn reset_requests() {
    assert_eq!(reset_request(Ok(Some(Some("a@b.c".to_string())))).ok(), Some("a@b.c".to_string()));
    let n = reset_request(Ok(None)).err().unwrap();
    assert_eq!(n.status, Status::Success);
    assert_eq!(n.message, "Ok");
    assert_eq!(reset_request(Ok(Some(None))).err().unwrap().message, "User has no email address");
    assert_eq!(reset_request_sent(Ok(()), Err("smtp".to_string())).message, "Could not send password email");
    assert_eq!(reset_request_sent(Err("db".to_string()), Err("smtp".to_string())).message,
        "Could not send password email");
    assert_eq!(reset_request_sent(Ok(()), Ok(())).message, "E-mail sent!");
    assert_eq!(reset_request_sent(Err("db".to_string()), Ok(())).message,
        "There has been an error when sending email to user, please try again");
}

#[test]
fn a_changed_password_then_logs_in() {
    let stored = stored_hash("old-pass");
    let new_hash = match change_password(Ok(Some(stored)), "new-pass") {
        Change::Store(h) => h,
        _ => panic!("expected a new hash"),
    };
    let creds = Credentials { blocked: false, password: new_hash.clone() };
    assert!(matches!(check_login(Ok(Some(creds)), "new-pass"), LoginStep::IssueToken));
    let creds = Credentials { blocked: false, password: new_hash };
    assert!(matches!(check_login(Ok(Some(creds)), "old-pass"), LoginStep::Refuse(_)));
}

#[test]
fn a_reset_password_then_logs_in() {
    let (_, hash) = reset_with_token(Ok(Some(7u8)), "fresh-one").ok().unwrap();
    let creds = Credentials { blocked: false, password: hash };
    assert!(matches!(check_login(Ok(Some(creds)), "fresh-one"), LoginStep::IssueToken));
}

#[test]
fn unreadable_stored_hash_breaks_with_the_parse_error() {
    let creds = Credentials { blocked: false, password: "not-a-hash".to_string() };
    match check_login(Ok(Some(creds)), "pw") {
        LoginStep::Break(text) => assert!(!text.is_empty()),
        _ => panic!("expected a break"),
    }
}

#[test]
fn a_used_reset_token_is_then_refused() {
    let n = reset_with_token::<u8>(Ok(None), "again-pass").err().unwrap();
    assert_eq!(n.status, Status::NotFound);
    assert_eq!(n.message, "Reset token is invalid or has expired");
}

#[test]
fn usernames_and_emails_are_looked_up_in_lower_case() {
    assert_eq!(jb_api::accounts::login_key("JoAna"), "joana");
    assert_eq!(jb_api::accounts::stored_email("Ana@Ferros.COM"), "ana@ferros.com");
}

#[test]
fn login_token_signs_the_claims_for_a_day() {
    let token = jb_api::accounts::login_token(&"ana".to_string(), 1_700_000_000, "secret");
    let parts: Vec<&str> = token.split('.').collect();
    assert_eq!(parts.len(), 3);
    let again = jb_api::accounts::login_token(&"ana".to_string(), 1_700_000_000, "secret");
    assert_eq!(token, again);
    let other = jb_api::accounts::login_token(&"ana".to_string(), 1_700_000_000, "other");
    assert_ne!(token, other);
    let mut validation = jsonwebtoken::Validation::new(jsonwebtoken::Algorithm::HS256);
    validation.validate_exp = false;
    let data = jsonwebtoken::decode::<serde_json::Value>(
        &token,
        &jsonwebtoken::DecodingKey::from_secret(b"secret"),
        &validation,
    )
    .unwrap();
    assert_eq!(data.claims["sub"], "ana");
    assert_eq!(data.claims["iat"], 1_700_000_000u64);
    assert_eq!(data.claims["exp"], 1_700_000_000u64 + 86_400);
}
