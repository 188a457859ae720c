use submerge::web::{login_form_error, normalize_theme, setup_form_error};
use submerge::web_core::error::{response_result, ApiError};

#[test]
fn display_prints_message() {
    let e = ApiError {
        status: Some(401),
        message: "HTTP 401: unauthorized".into(),
    };
    assert_eq!(e.message_text(), "HTTP 401: unauthorized");
}

#[test]
fn display_without_status() {
    let e = ApiError {
        status: None,
        message: "network down".into(),
    };
    assert_eq!(e.message_text(), "network down");
}

#[test]
fn into_string_converts() {
    let e = ApiError {
        status: None,
        message: "boom".into(),
    };
    let s: String = e.into();
    assert_eq!(s, "boom");
}

#[test]
fn status_field_semantics() {
    assert_eq!(
        ApiError {
            status: Some(401),
            message: "".into()
        }
        .status,
        Some(401)
    );
    assert_eq!(
        ApiError {
            status: Some(500),
            message: "".into()
        }
        .status,
        Some(500)
    );
    assert_eq!(
        ApiError {
            status: None,
            message: "".into()
        }
        .status,
        None
    );
}

#[test]
fn only_401_ends_the_session() {
    let e = |s| ApiError { status: s, message: String::new() };
    assert!(e(Some(401)).ends_session());
    assert!(!e(Some(500)).ends_session());
    assert!(!e(Some(403)).ends_session());
    assert!(!e(None).ends_session());
}

#[test]
fn response_result_by_status() {
    assert_eq!(response_result(200, "ok".into()).unwrap(), "ok");
    assert_eq!(response_result(204, String::new()).unwrap(), "");
    let e = response_result(401, "unauthorized".into()).unwrap_err();
    assert_eq!(e.status, Some(401));
    assert_eq!(e.message, "HTTP 401: unauthorized");
    let e = response_result(502, "{}".into()).unwrap_err();
    assert_eq!(e.message, "HTTP 502: {}");
    assert!(response_result(300, String::new()).is_err());
    assert!(response_result(199, String::new()).is_err());
}

#[test]
fn theme_preferences() {
    assert_eq!(normalize_theme(Some("light")), "light");
    assert_eq!(normalize_theme(Some("dark")), "dark");
    assert_eq!(normalize_theme(Some("system")), "system");
    assert_eq!(normalize_theme(Some("Dark")), "system");
    assert_eq!(normalize_theme(None), "system");
}

#[test]
fn form_checks() {
    assert_eq!(login_form_error("", "x"), Some("请填写用户名与密码"));
    assert_eq!(login_form_error("u", ""), Some("请填写用户名与密码"));
    assert_eq!(login_form_error("u", "p"), None);
    assert_eq!(setup_form_error("u", "p", "q"), Some("两次输入的密码不一致"));
    assert_eq!(setup_form_error("", "p", "p"), Some("请填写用户名与密码"));
    assert_eq!(setup_form_error("u", "p", "p"), None);
}
