use submerge::server::auth::{
    admin_answer, admit_session, bearer_or_unauthorized, check_setup, extract_bearer, login_refused,
    parse_bearer, setup_conflict, valid_username, AuthHeader,
};

#[test]
fn parse_bearer_three_states() {
    assert_eq!(
        parse_bearer(AuthHeader::Missing),
        Err("missing authorization header")
    );
    assert_eq!(
        parse_bearer(AuthHeader::Text("Basic abc")),
        Err("expected Bearer token")
    );
    assert_eq!(parse_bearer(AuthHeader::Text("Bearer tok123")), Ok("tok123"));
}

#[test]
fn parse_bearer_unreadable_header() {
    assert_eq!(
        parse_bearer(AuthHeader::Unreadable),
        Err("invalid authorization header")
    );
}

#[test]
fn parse_bearer_is_case_sensitive_and_keeps_rest() {
    assert_eq!(
        parse_bearer(AuthHeader::Text("bearer tok")),
        Err("expected Bearer token")
    );
    assert_eq!(parse_bearer(AuthHeader::Text("Bearer ")), Ok(""));
    assert_eq!(parse_bearer(AuthHeader::Text("Bearer  a b")), Ok(" a b"));
    assert_eq!(parse_bearer(AuthHeader::Text("Bearer")), Err("expected Bearer token"));
}

#[test]
fn extract_bearer_gives_token_or_none() {
    assert_eq!(extract_bearer(AuthHeader::Text("Bearer xyz")), Some("xyz"));
    assert_eq!(extract_bearer(AuthHeader::Missing), None);
    assert_eq!(extract_bearer(AuthHeader::Text("Token xyz")), None);
}

#[test]
fn bearer_or_unauthorized_names_the_problem() {
    let e = bearer_or_unauthorized(AuthHeader::Missing).unwrap_err();
    assert_eq!(e.status, 401);
    assert_eq!(e.code, "unauthorized");
    assert_eq!(e.message, "missing authorization header");
    assert_eq!(bearer_or_unauthorized(AuthHeader::Text("Bearer t")).unwrap(), "t");
}

#[test]
fn admit_session_refuses_invalid() {
    assert!(admit_session(true).is_ok());
    let e = admit_session(false).unwrap_err();
    assert_eq!(e.status, 401);
    assert_eq!(e.message, "invalid session");
}

#[test]
fn valid_username_cases() {
    assert!(valid_username("admin"));
    assert!(valid_username("  admin-1_x  "));
    assert!(!valid_username("bad name!"));
    assert!(!valid_username(""));
    assert!(!valid_username("   "));
    assert!(valid_username(&"a".repeat(64)));
    assert!(!valid_username(&"a".repeat(65)));
    assert!(!valid_username("名字"));
    assert!(valid_username("\u{3000}admin\t"));
}

#[test]
fn check_setup_errors_in_order() {
    let e = check_setup("bad name!", "pass-12345", "pass-12345").unwrap_err();
    assert_eq!(e.status, 400);
    assert_eq!(e.code, "bad_request");
    assert_eq!(e.message, "username must match [A-Za-z0-9-_] (1-64 chars)");
    let e = check_setup("a", "short", "short").unwrap_err();
    assert_eq!(e.message, "password must be at least 8 characters");
    let e = check_setup("a", "pass-12345", "different").unwrap_err();
    assert_eq!(e.message, "passwords do not match");
    assert_eq!(check_setup("  admin ", "pass-12345", "pass-12345").unwrap(), "admin");
}

#[test]
fn password_length_counts_bytes() {
    // four two-byte characters are eight bytes
    assert!(check_setup("a", "éééé", "éééé").is_ok());
    assert!(check_setup("a", "ééé", "ééé").is_err());
}

#[test]
fn setup_and_login_refusals() {
    let e = setup_conflict();
    assert_eq!(e.status, 409);
    assert_eq!(e.message, "admin user already exists");
    let e = login_refused();
    assert_eq!(e.status, 401);
    assert_eq!(e.message, "invalid username or password");
}

#[test]
fn admin_admitted_only_with_live_session() {
    assert!(admin_answer(AuthHeader::Text("Bearer tok"), true).is_ok());
    let e = admin_answer(AuthHeader::Text("Bearer wrong"), false).unwrap_err();
    assert_eq!((e.status, e.code, e.message.as_str()), (401, "unauthorized", "invalid session"));
    let e = admin_answer(AuthHeader::Missing, true).unwrap_err();
    assert_eq!((e.status, e.message.as_str()), (401, "missing authorization header"));
    let e = admin_answer(AuthHeader::Text("Basic abc"), true).unwrap_err();
    assert_eq!(e.message, "expected Bearer token");
    let e = admin_answer(AuthHeader::Unreadable, false).unwrap_err();
    assert_eq!(e.message, "invalid authorization header");
}
