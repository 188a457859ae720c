//! Admin credentials: the `Authorization: Bearer` header, user names, the
//! first-admin setup form and the answers that refuse a request.
use vstd::prelude::*;

use crate::server::error::ApiError;
use crate::text::{has_prefix, is_ascii_alnum, is_ws, str_eq, strip_prefix, trim, trim_back, trim_front, trimmed};

verus! {

/// The `Authorization` header of a request, as far as the checks need it.
#[derive(Debug, Clone, Copy, PartialEq, Eq)]
pub enum AuthHeader<'a> {
    /// No `Authorization` header.
    Missing,
    /// A header whose value is not visible ASCII text.
    Unreadable,
    /// A header whose value is text.
    Text(&'a str),
}

/// What `parse_bearer` gives: the token after `Bearer `, or the reason why not.
pub open spec fn bearer_of(h: AuthHeader) -> Result<Seq<char>, Seq<char>> {
    match h {
        AuthHeader::Missing => Err("missing authorization header"@),
        AuthHeader::Unreadable => Err("invalid authorization header"@),
        AuthHeader::Text(s) => if has_prefix(s@, "Bearer "@) {
            Ok(s@.skip(7))
        } else {
            Err("expected Bearer token"@)
        },
    }
}

/// A character allowed in a user name or a combined subscription name.
pub open spec fn name_char(c: char) -> bool {
    is_ascii_alnum(c) || c == '-' || c == '_'
}

/// A valid admin user name: after trimming, 1 to 64 bytes of
/// `[A-Za-z0-9-_]`.
pub open spec fn username_ok(s: Seq<char>) -> bool {
    let t = trimmed(s);
    &&& t.len() > 0
    &&& vstd::utf8::encode_utf8(t).len() <= 64
    &&& forall|i: int| 0 <= i < t.len() ==> name_char(#[trigger] t[i])
}

/// The byte length of the UTF-8 encoding of `s` (what `str::len` gives).
pub open spec fn byte_len(s: Seq<char>) -> nat {
    vstd::utf8::encode_utf8(s).len()
}

/// A header `Bearer <token>` gives back exactly `<token>`.
pub proof fn lemma_bearer_roundtrip(header: &str, token: Seq<char>)
    requires
        header@ == "Bearer "@ + token,
    ensures
        bearer_of(AuthHeader::Text(header)) == Ok::<Seq<char>, Seq<char>>(token),
{
    reveal_strlit("Bearer ");
    assert(header@.subrange(0, 7) =~= "Bearer "@);
    assert(header@.skip(7) =~= token);
}

/// Parses the `Authorization` header: the token after `Bearer `, or
/// `missing authorization header` (no header), `invalid authorization
/// header` (not text), `expected Bearer token` (another scheme).
pub fn parse_bearer<'a>(h: AuthHeader<'a>) -> (r: Result<&'a str, &'static str>)
    ensures
        match r {
            Ok(t) => bearer_of(h) == Ok::<Seq<char>, Seq<char>>(t@),
            Err(m) => bearer_of(h) == Err::<Seq<char>, Seq<char>>(m@),
        },
{
    match h {
        AuthHeader::Missing => Err("missing authorization header"),
        AuthHeader::Unreadable => Err("invalid authorization header"),
        AuthHeader::Text(s) => {
            proof {
                reveal_strlit("Bearer ");
            }
            match strip_prefix(s, "Bearer ") {
                Some(t) => Ok(t),
                None => Err("expected Bearer token"),
            }
        },
    }
}

/// The Bearer token, if the header carries one.
pub fn extract_bearer<'a>(h: AuthHeader<'a>) -> (r: Option<&'a str>)
    ensures
        match r {
            Some(t) => bearer_of(h) == Ok::<Seq<char>, Seq<char>>(t@),
            None => bearer_of(h) is Err,
        },
{
    match parse_bearer(h) {
        Ok(t) => Some(t),
        Err(_) => None,
    }
}

/// The Bearer token, or the 401 answer that names what is wrong.
pub fn bearer_or_unauthorized<'a>(h: AuthHeader<'a>) -> (r: Result<&'a str, ApiError>)
    ensures
        r matches Ok(t) ==> bearer_of(h) == Ok::<Seq<char>, Seq<char>>(t@),
        r matches Err(e) ==> (bearer_of(h) matches Err(m) && e.is(401, "unauthorized"@, m)),
{
    match parse_bearer(h) {
        Ok(t) => Ok(t),
        Err(m) => {
            Err(ApiError::unauthorized(m))
        },
    }
}

/// The answer to a request whose session was looked up: admitted when valid,
/// else 401 `invalid session`.
pub fn admit_session(valid: bool) -> (r: Result<(), ApiError>)
    ensures
        valid ==> r is Ok,
        !valid ==> (r matches Err(e) && e.is(401, "unauthorized"@, "invalid session"@)),
{
    if valid {
        Ok(())
    } else {
        Err(ApiError::unauthorized("invalid session"))
    }
}

/// The answer to an admin request whose `Authorization` header is `h`;
/// `valid` says whether the session store holds the header's Bearer token as
/// a live session (false where the header carries none). The request is
/// admitted exactly when the header carries a Bearer token whose session is
/// live; a header without one is refused with 401 and the reason, a token
/// without a live session with 401 `invalid session`.
pub fn admin_answer(h: AuthHeader, valid: bool) -> (r: Result<(), ApiError>)
    ensures
        r is Ok <==> (bearer_of(h) is Ok && valid),
        bearer_of(h) matches Err(m) ==> (r matches Err(e) && e.is(401, "unauthorized"@, m)),
        (bearer_of(h) is Ok && !valid) ==> (r matches Err(e) && e.is(
            401,
            "unauthorized"@,
            "invalid session"@,
        )),
{
    match bearer_or_unauthorized(h) {
        Err(e) => Err(e),
        Ok(_) => admit_session(valid),
    }
}

/// A valid admin user name: after trimming, 1 to 64 bytes of `[A-Za-z0-9-_]`.
pub fn valid_username(s: &str) -> (r: bool)
    ensures
        r == username_ok(s@),
{
    let t = trim(s);
    let n = t.unicode_len();
    if n == 0 || t.as_bytes().len() > 64 {
        return false;
    }
    let mut i: usize = 0;
    while i < n
        invariant
            i <= n,
            n == t@.len(),
            t@ == trimmed(s@),
            forall|k: int| 0 <= k < i ==> name_char(#[trigger] t@[k]),
        decreases n - i,
    {
        let c = t.get_char(i);
        let ok = ('0' <= c && c <= '9') || ('a' <= c && c <= 'z') || ('A' <= c && c <= 'Z') || c
            == '-' || c == '_';
        if !ok {
            return false;
        }
        i = i + 1;
    }
    true
}

/// The setup form problem, if any: the user name (trimmed) must be valid,
/// the password at least 8 bytes long and equal to its confirmation.
pub open spec fn setup_problem(username: Seq<char>, password: Seq<char>, confirm: Seq<char>) -> Option<
    Seq<char>,
> {
    if !username_ok(trimmed(username)) {
        Some("username must match [A-Za-z0-9-_] (1-64 chars)"@)
    } else if byte_len(password) < 8 {
        Some("password must be at least 8 characters"@)
    } else if password != confirm {
        Some("passwords do not match"@)
    } else {
        None
    }
}

/// A user name is valid exactly when its trimmed text is 1 to 64 bytes long
/// and each character is an ASCII letter of either case (`A`-`Z`, `a`-`z`),
/// a digit, `-` or `_`. Such a name, with a password of at least 8 bytes
/// and the same password as confirmation, passes the setup check.
pub proof fn lemma_username_character_class(s: Seq<char>, password: Seq<char>)
    ensures
        username_ok(s) <==> ({
            let t = trimmed(s);
            &&& t.len() > 0
            &&& vstd::utf8::encode_utf8(t).len() <= 64
            &&& forall|i: int|
                0 <= i < t.len() ==> {
                    let c = #[trigger] t[i];
                    ||| ('A' <= c && c <= 'Z')
                    ||| ('a' <= c && c <= 'z')
                    ||| ('0' <= c && c <= '9')
                    ||| c == '-'
                    ||| c == '_'
                }
        }),
        ({
            let t = trimmed(s);
            &&& t.len() > 0
            &&& vstd::utf8::encode_utf8(t).len() <= 64
            &&& forall|i: int|
                0 <= i < t.len() ==> {
                    let c = #[trigger] t[i];
                    ||| ('A' <= c && c <= 'Z')
                    ||| ('a' <= c && c <= 'z')
                    ||| ('0' <= c && c <= '9')
                    ||| c == '-'
                    ||| c == '_'
                }
            &&& vstd::utf8::encode_utf8(password).len() >= 8
        }) ==> setup_problem(s, password, password) is None,
{
    let t = trimmed(s);
    if t.len() > 0 && forall|i: int| 0 <= i < t.len() ==> name_char(#[trigger] t[i]) {
        assert(!is_ws(t[0]));
        assert(!is_ws(t.last())) by {
            assert(name_char(t[t.len() - 1]));
        }
        assert(trim_front(t) == t);
        assert(trim_back(t) == t);
        assert(trimmed(t) == t);
    }
}

/// Checks the setup form; gives the trimmed user name, or the 400 answer.
pub fn check_setup(username: &str, password: &str, confirm: &str) -> (r: Result<String, ApiError>)
    ensures
        match r {
            Ok(u) => setup_problem(username@, password@, confirm@) is None && u@ == trimmed(
                username@,
            ),
            Err(e) => setup_problem(username@, password@, confirm@) matches Some(m) && e.is(
                400,
                "bad_request"@,
                m,
            ),
        },
{
    let name = trim(username);
    if !valid_username(name) {
        return Err(ApiError::bad_request("username must match [A-Za-z0-9-_] (1-64 chars)"));
    }
    if password.as_bytes().len() < 8 {
        return Err(ApiError::bad_request("password must be at least 8 characters"));
    }
    if !str_eq(password, confirm) {
        return Err(ApiError::bad_request("passwords do not match"));
    }
    Ok(String::from_str(name))
}

/// The answer when the first admin could not be created because one exists.
pub fn setup_conflict() -> (r: ApiError)
    ensures
        r.is(409, "conflict"@, "admin user already exists"@),
{
    ApiError::conflict("admin user already exists")
}

/// The answer to a login whose credentials did not match.
pub fn login_refused() -> (r: ApiError)
    ensures
        r.is(401, "unauthorized"@, "invalid username or password"@),
{
    ApiError::unauthorized("invalid username or password")
}

} // verus!
