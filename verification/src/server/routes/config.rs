//! Account settings: the admin user name, the password change and the
//! choice between base64 and plain V2Ray output.
use vstd::prelude::*;

use crate::server::auth::byte_len;
use crate::server::error::ApiError;
use crate::text::str_eq;

verus! {

/// The settings key of the V2Ray output choice.
pub const V2RAY_B64_KEY: &'static str = "v2ray_base64";

/// Account settings as answered.
#[derive(Debug, Clone)]
pub struct ConfigDto {
    pub username: String,
    pub v2ray_base64: bool,
}

/// A change of settings; each part is optional.
#[derive(Debug, Clone)]
pub struct UpdateConfig {
    pub change_password: Option<ChangePassword>,
    pub v2ray_base64: Option<bool>,
}

/// A password change: the current password and the new one.
#[derive(Debug, Clone)]
pub struct ChangePassword {
    pub old: String,
    pub new: String,
}

/// V2Ray output is base64 unless the stored setting is `0`.
pub open spec fn base64_on(setting: Option<Seq<char>>) -> bool {
    setting != Some("0"@)
}

/// The stored text of the V2Ray output choice.
pub open spec fn base64_text(on: bool) -> Seq<char> {
    if on {
        "1"@
    } else {
        "0"@
    }
}

/// The problem with a password change, if any.
pub open spec fn password_change_problem(old_ok: bool, new: Seq<char>) -> Option<Seq<char>> {
    if !old_ok {
        Some("old password is incorrect"@)
    } else if byte_len(new) < 8 {
        Some("password must be at least 8 characters"@)
    } else {
        None
    }
}

/// Whether V2Ray output is base64, given the stored setting.
pub fn base64_enabled(setting: Option<&str>) -> (r: bool)
    ensures
        r == base64_on(
            match setting {
                Some(s) => Some(s@),
                None => None,
            },
        ),
{
    match setting {
        Some(s) => !str_eq(s, "0"),
        None => true,
    }
}

/// The text stored for the V2Ray output choice.
pub fn base64_setting(on: bool) -> (r: &'static str)
    ensures
        r@ == base64_text(on),
{
    if on {
        "1"
    } else {
        "0"
    }
}

/// Checks a password change: the current password must have matched
/// (`old_ok`) and the new one must be at least 8 bytes long.
pub fn check_password_change(old_ok: bool, new: &str) -> (r: Result<(), ApiError>)
    ensures
        match password_change_problem(old_ok, new@) {
            None => r is Ok,
            Some(m) => r matches Err(e) && e.is(400, "bad_request"@, m),
        },
{
    if !old_ok {
        return Err(ApiError::bad_request("old password is incorrect"));
    }
    if new.as_bytes().len() < 8 {
        return Err(ApiError::bad_request("password must be at least 8 characters"));
    }
    Ok(())
}

/// The settings answer from the stored admin user name and output setting;
/// 500 `no admin user` where there is no user.
pub fn config_dto(username: Option<String>, setting: Option<&str>) -> (r: Result<ConfigDto, ApiError>)
    ensures
        match username {
            Some(u) => r matches Ok(d) && d.username@ == u@ && d.v2ray_base64 == base64_on(
                match setting {
                    Some(s) => Some(s@),
                    None => None,
                },
            ),
            None => r matches Err(e) && e.is(500, "internal_error"@, "no admin user"@),
        },
{
    match username {
        Some(u) => Ok(ConfigDto { username: u, v2ray_base64: base64_enabled(setting) }),
        None => Err(ApiError::internal("no admin user")),
    }
}

/// A stored output choice reads back as the choice that was stored.
pub proof fn lemma_base64_setting_roundtrip(on: bool)
    ensures
        base64_on(Some(base64_text(on))) == on,
{
    reveal_strlit("0");
    reveal_strlit("1");
    assert("1"@[0] != "0"@[0]);
}

} // verus!
