//! Decisions of the admin UI pages that need no browser: the theme that a
//! stored preference selects and the checks of the login and setup forms.
pub mod combineds;
pub mod pages;
pub mod preview;
pub mod shell;
pub mod toast;

use vstd::prelude::*;

use crate::text::str_eq;

verus! {

/// The theme a stored preference selects: `light` and `dark` are kept,
/// anything else (or nothing stored) follows the system.
pub open spec fn theme_of(stored: Option<Seq<char>>) -> Seq<char> {
    match stored {
        Some(t) => if t == "light"@ || t == "dark"@ {
            t
        } else {
            "system"@
        },
        None => "system"@,
    }
}

/// The message that a login form shows before sending, if any.
pub open spec fn login_form_problem(user: Seq<char>, pass: Seq<char>) -> Option<Seq<char>> {
    if user.len() == 0 || pass.len() == 0 {
        Some("请填写用户名与密码"@)
    } else {
        None
    }
}

/// The message that the setup form shows before sending, if any.
pub open spec fn setup_form_problem(user: Seq<char>, pass: Seq<char>, pass2: Seq<char>) -> Option<
    Seq<char>,
> {
    if user.len() == 0 || pass.len() == 0 {
        Some("请填写用户名与密码"@)
    } else if pass != pass2 {
        Some("两次输入的密码不一致"@)
    } else {
        None
    }
}

/// Storing the selected theme and reading it back selects the same theme.
pub proof fn lemma_theme_stable(stored: Option<Seq<char>>)
    ensures
        theme_of(Some(theme_of(stored))) == theme_of(stored),
{
    reveal_strlit("system");
    reveal_strlit("light");
    reveal_strlit("dark");
    assert("system"@ != "light"@ && "system"@ != "dark"@) by {
        assert("system"@.len() != "light"@.len());
        assert("system"@.len() != "dark"@.len());
    }
}

/// The theme a stored preference selects.
pub fn normalize_theme(stored: Option<&str>) -> (r: &'static str)
    ensures
        r@ == theme_of(
            match stored {
                Some(s) => Some(s@),
                None => None,
            },
        ),
{
    match stored {
        Some(t) => {
            if str_eq(t, "light") {
                "light"
            } else if str_eq(t, "dark") {
                "dark"
            } else {
                "system"
            }
        },
        None => "system",
    }
}

/// Checks the login form: both fields must be filled in.
pub fn login_form_error(user: &str, pass: &str) -> (r: Option<&'static str>)
    ensures
        match r {
            Some(m) => login_form_problem(user@, pass@) == Some(m@),
            None => login_form_problem(user@, pass@) is None,
        },
{
    if user.is_empty() || pass.is_empty() {
        Some("请填写用户名与密码")
    } else {
        None
    }
}

/// Checks the setup form: both fields filled in, the two passwords equal.
pub fn setup_form_error(user: &str, pass: &str, pass2: &str) -> (r: Option<&'static str>)
    ensures
        match r {
            Some(m) => setup_form_problem(user@, pass@, pass2@) == Some(m@),
            None => setup_form_problem(user@, pass@, pass2@) is None,
        },
{
    if user.is_empty() || pass.is_empty() {
        Some("请填写用户名与密码")
    } else if !str_eq(pass, pass2) {
        Some("两次输入的密码不一致")
    } else {
        None
    }
}

} // verus!
