//! Credentials and sessions: password hashes, session tokens and the rules
//! that decide whether a session is still valid.
//!
//! A session is stored as the SHA-256 of its token (lowercase hex) and the
//! RFC 3339 time at which it was last used, in whole seconds. With a time to
//! live of `ttl_days` days, a session expires once `last_used + ttl` lies
//! before the present; a TTL of 0, or one too large for a time span, never
//! expires. Each accepted use moves `last_used` to the present.
use argon2::password_hash::{PasswordHash, PasswordHasher, PasswordVerifier, SaltString};
use argon2::Argon2;
use rand::RngCore;
use sha2::{Digest, Sha256};
use vstd::prelude::*;

use crate::text::{contains_seq, contains_str};

verus! {

/// A point in time as chrono reports it: seconds since the Unix epoch and the
/// nanoseconds within that second (1_000_000_000 or more only inside a leap
/// second).
#[derive(Debug, Clone, Copy, PartialEq, Eq, Structural)]
pub struct Stamp {
    pub secs: i64,
    pub nanos: u32,
}

/// The largest number of days that a chrono `TimeDelta` holds.
pub const MAX_TTL_DAYS: u64 = 106751991167;

/// The last second that a chrono date-time holds (262142-12-31T23:59:59Z).
pub const MAX_TIME_SECS: i64 = 8210266876799;

/// The first second that a chrono date-time holds (-262143-01-01T00:00:00Z).
pub const MIN_TIME_SECS: i64 = -8334601315200;

/// The first second of year 1 (0001-01-01T00:00:00Z).
pub const FIRST_YEAR_1_SECS: i64 = -62135596800;

/// The last second of year 9999 (9999-12-31T23:59:59Z).
pub const LAST_YEAR_9999_SECS: i64 = 253402300799;

/// The bytes that chrono's RFC 3339 parser reads from `s`, if it accepts it:
/// the seconds since the epoch and the nanoseconds of the parsed time.
pub uninterp spec fn rfc3339_parse(s: Seq<char>) -> Option<(i64, u32)>;

/// The RFC 3339 text that chrono writes for the UTC time `secs` seconds after
/// the epoch, with no fraction (`YYYY-MM-DDTHH:MM:SS+00:00`).
pub uninterp spec fn rfc3339_text(secs: i64) -> Seq<char>;

/// SHA-256 of `data`.
pub uninterp spec fn sha256_digest(data: Seq<u8>) -> Seq<u8>;

/// Argon2 (default parameters) accepts `password` against the PHC string
/// `phc`: the string parses as a password hash and verification succeeds.
pub uninterp spec fn argon2_accepts(password: Seq<u8>, phc: Seq<char>) -> bool;

/// The PHC string of the Argon2 (default parameters) hash of `password`
/// with the salt `salt` (base64 of the salt bytes), or the error text.
pub uninterp spec fn argon2_hash_of(password: Seq<u8>, salt: Seq<u8>) -> Result<
    Seq<char>,
    Seq<char>,
>;

/// The lowercase hexadecimal digit of `d` (`d < 16`).
pub open spec fn hex_digit(d: int) -> char {
    seq!['0', '1', '2', '3', '4', '5', '6', '7', '8', '9', 'a', 'b', 'c', 'd', 'e', 'f'][d]
}

/// Lowercase hexadecimal text of `bytes`, two digits per byte.
pub open spec fn hex_of(bytes: Seq<u8>) -> Seq<char>
    decreases bytes.len(),
{
    if bytes.len() == 0 {
        seq![]
    } else {
        hex_of(bytes.drop_last()) + seq![
            hex_digit(bytes.last() as int / 16),
            hex_digit(bytes.last() as int % 16),
        ]
    }
}

/// A lowercase hexadecimal digit.
pub open spec fn is_hex_char(c: char) -> bool {
    ('0' <= c && c <= '9') || ('a' <= c && c <= 'f')
}

/// A session token: 64 lowercase hexadecimal digits, the text of 32 bytes.
pub open spec fn is_session_token(t: Seq<char>) -> bool {
    &&& t.len() == 64
    &&& forall|i: int| 0 <= i < t.len() ==> is_hex_char(#[trigger] t[i])
    &&& exists|b: Seq<u8>| b.len() == 32 && #[trigger] hex_of(b) == t
}

/// How a session token is stored: the hex text of its SHA-256.
pub open spec fn token_hash_of(token: Seq<char>) -> Seq<char> {
    hex_of(sha256_digest(vstd::utf8::encode_utf8(token)))
}

/// A time as a stamp, from the parser's `(seconds, nanoseconds)`.
pub open spec fn stamp_of(p: (i64, u32)) -> Stamp {
    Stamp { secs: p.0, nanos: p.1 }
}

/// The time stored as a session's last use, if it parses.
pub open spec fn parsed_stamp(s: Seq<char>) -> Option<Stamp> {
    match rfc3339_parse(s) {
        Some(p) => Some(stamp_of(p)),
        None => None,
    }
}

/// `a` lies strictly before `b`.
pub open spec fn before(a: Stamp, b: Stamp) -> bool {
    a.secs < b.secs || (a.secs == b.secs && a.nanos < b.nanos)
}

/// The TTL in seconds, or `None` where sessions never expire: a TTL of 0
/// days, or more days than a time span holds.
pub open spec fn ttl_seconds(ttl_days: u64) -> Option<int> {
    if 0 < ttl_days && ttl_days <= MAX_TTL_DAYS {
        Some(ttl_days * 86400)
    } else {
        None
    }
}

/// `last + ttl` as chrono adds them: a leap second counts as the second
/// before it.
pub open spec fn expiry_of(last: Stamp, ttl: int) -> (int, int) {
    if last.nanos >= 1_000_000_000 {
        (last.secs + ttl, last.nanos - 1_000_000_000)
    } else {
        (last.secs + ttl, last.nanos as int)
    }
}

/// A session last used at `last` is expired at `now` under a TTL of `ttl`
/// seconds: `last + ttl` lies before `now`.
pub open spec fn expired_at(last: Stamp, ttl: int, now: Stamp) -> bool {
    let (s, n) = expiry_of(last, ttl);
    s < now.secs || (s == now.secs && n < now.nanos)
}

/// What the check of a stored session decides.
#[derive(Debug, Clone, Copy, PartialEq, Eq, Structural)]
pub enum SessionVerdict {
    /// Accept the session and record the present as its last use.
    Valid,
    /// Delete the session and refuse the request.
    Expired,
    /// `last_used + ttl` lies beyond the times that chrono holds.
    OutOfRange,
}

/// The verdict on a session last used at `last` (`None`: not a time).
pub open spec fn verdict_of(last: Option<Stamp>, ttl_days: u64, now: Stamp) -> SessionVerdict {
    match ttl_seconds(ttl_days) {
        None => SessionVerdict::Valid,
        Some(ttl) => match last {
            None => SessionVerdict::Expired,
            Some(l) => if l.secs + ttl > MAX_TIME_SECS {
                SessionVerdict::OutOfRange
            } else if expired_at(l, ttl, now) {
                SessionVerdict::Expired
            } else {
                SessionVerdict::Valid
            },
        },
    }
}

/// Random bytes from the thread-local generator of `rand`
/// (`rand::rng().fill_bytes`). Only their number is stated.
#[verifier::external_body]
fn random_bytes(n: usize) -> (r: Vec<u8>)
    ensures
        r@.len() == n,
{
    let mut v = vec![0u8; n];
    rand::rng().fill_bytes(&mut v);
    v
}

/// `const_hex::encode`: lowercase hexadecimal text, two digits per byte.
#[verifier::external_body]
fn hex_encode(bytes: &[u8]) -> (r: String)
    ensures
        r@ == hex_of(bytes@),
{
    const_hex::encode(bytes)
}

/// `sha2::Sha256` over `data`: the 32-byte digest.
#[verifier::external_body]
fn sha256(data: &[u8]) -> (r: Vec<u8>)
    ensures
        r@ == sha256_digest(data@),
        r@.len() == 32,
{
    let mut h = Sha256::new();
    h.update(data);
    h.finalize().to_vec()
}

/// `SaltString::encode_b64` of the salt, then `Argon2::default().hash_password`,
/// as a PHC string; the error's text where either fails. A hash that comes
/// back verifies against the same password.
#[verifier::external_body]
fn argon2_hash(password: &[u8], salt: &[u8]) -> (r: Result<String, String>)
    ensures
        match r {
            Ok(h) => argon2_hash_of(password@, salt@) == Ok::<Seq<char>, Seq<char>>(h@)
                && argon2_accepts(password@, h@),
            Err(e) => argon2_hash_of(password@, salt@) == Err::<Seq<char>, Seq<char>>(e@),
        },
{
    let salt = match SaltString::encode_b64(salt) {
        Ok(s) => s,
        Err(e) => return Err(e.to_string()),
    };
    match Argon2::default().hash_password(password, &salt) {
        Ok(h) => Ok(h.to_string()),
        Err(e) => Err(e.to_string()),
    }
}

/// `PasswordHash::new(stored)` then `Argon2::default().verify_password`:
/// whether the password matches the stored PHC string.
#[verifier::external_body]
fn argon2_verify(password: &[u8], stored: &str) -> (r: bool)
    ensures
        r == argon2_accepts(password@, stored@),
{
    match PasswordHash::new(stored) {
        Ok(parsed) => Argon2::default().verify_password(password, &parsed).is_ok(),
        Err(_) => false,
    }
}

/// `DateTime::parse_from_rfc3339`, read as seconds since the epoch
/// (`timestamp`) and nanoseconds (`timestamp_subsec_nanos`).
#[verifier::external_body]
fn parse_rfc3339(s: &str) -> (r: Option<(i64, u32)>)
    ensures
        r == rfc3339_parse(s@),
{
    match chrono::DateTime::parse_from_rfc3339(s) {
        Ok(d) => Some((d.timestamp(), d.timestamp_subsec_nanos())),
        Err(_) => None,
    }
}

/// `DateTime::<Utc>::from_timestamp(secs, 0)` written by `to_rfc3339`.
/// Between years 1 and 9999 the parser reads the text back as the same time.
#[verifier::external_body]
fn format_rfc3339(secs: i64) -> (r: String)
    requires
        MIN_TIME_SECS <= secs <= MAX_TIME_SECS,
    ensures
        r@ == rfc3339_text(secs),
        FIRST_YEAR_1_SECS <= secs <= LAST_YEAR_9999_SECS ==> rfc3339_parse(r@) == Some(
            (secs, 0u32),
        ),
{
    match chrono::DateTime::from_timestamp(secs, 0) {
        Some(d) => d.to_rfc3339(),
        None => String::new(),
    }
}

/// A fixed Argon2 hash that refused user names are verified against, so that
/// an unknown name costs as much time as a wrong password.
const DUMMY_HASH: &'static str = "$argon2id$v=19$m=19456,t=2,p=1$ZzWOQI/mqH81rndoNXBf7A$kBTvZXE45uPlI/LkuR50OQhpbmi4h0IvXnSSwhogAos";

proof fn lemma_hex_digits(bytes: Seq<u8>)
    ensures
        hex_of(bytes).len() == 2 * bytes.len(),
        forall|i: int| 0 <= i < hex_of(bytes).len() ==> is_hex_char(#[trigger] hex_of(bytes)[i]),
    decreases bytes.len(),
{
    if bytes.len() > 0 {
        lemma_hex_digits(bytes.drop_last());
        let d1 = bytes.last() as int / 16;
        let d2 = bytes.last() as int % 16;
        let pair = seq![hex_digit(d1), hex_digit(d2)];
        assert(is_hex_char(hex_digit(d1)));
        assert(is_hex_char(hex_digit(d2)));
        let h = hex_of(bytes);
        assert forall|i: int| 0 <= i < h.len() implies is_hex_char(#[trigger] h[i]) by {
            if i < hex_of(bytes.drop_last()).len() {
                assert(h[i] == hex_of(bytes.drop_last())[i]);
            } else {
                assert(h[i] == pair[i - hex_of(bytes.drop_last()).len()]);
            }
        }
    }
}

/// A fresh session token: 32 random bytes as 64 lowercase hex digits.
pub fn gen_token() -> (r: String)
    ensures
        is_session_token(r@),
{
    let bytes = random_bytes(32);
    let r = hex_encode(bytes.as_slice());
    proof {
        lemma_hex_digits(bytes@);
        assert(hex_of(bytes@) == r@);
    }
    r
}

/// How a session token is stored: the lowercase hex of its SHA-256.
pub fn sha256_hex(s: &str) -> (r: String)
    ensures
        r@ == token_hash_of(s@),
{
    let digest = sha256(s.as_bytes());
    hex_encode(digest.as_slice())
}

/// Hashes a password with Argon2 under a fresh random 16-byte salt: the
/// result is Argon2's outcome on the password's UTF-8 bytes and that salt.
/// The hash verifies against the same password; an error reads
/// `argon2 hash failed: ` followed by Argon2's error text.
pub fn hash_password(password: &str) -> (r: Result<String, String>)
    ensures
        r matches Ok(h) ==> argon2_accepts(vstd::utf8::encode_utf8(password@), h@),
        r matches Ok(h) ==> exists|salt: Seq<u8>|
            salt.len() == 16 && #[trigger] argon2_hash_of(vstd::utf8::encode_utf8(password@), salt)
                == Ok::<Seq<char>, Seq<char>>(h@),
        r matches Err(m) ==> crate::text::has_prefix(m@, "argon2 hash failed: "@),
        r matches Err(m) ==> exists|salt: Seq<u8>|
            salt.len() == 16 && #[trigger] argon2_hash_of(vstd::utf8::encode_utf8(password@), salt)
                == Err::<Seq<char>, Seq<char>>(m@.skip(20)),
{
    let salt = random_bytes(16);
    match argon2_hash(password.as_bytes(), salt.as_slice()) {
        Ok(h) => Ok(h),
        Err(e) => {
            let mut m = String::from_str("argon2 hash failed: ");
            m.append(e.as_str());
            proof {
                reveal_strlit("argon2 hash failed: ");
                assert(m@.subrange(0, 20) =~= "argon2 hash failed: "@);
                assert(m@.skip(20) =~= e@);
            }
            Err(m)
        },
    }
}

/// Checks a password against the stored hash of a user, if the user exists.
/// An unknown user is refused after verifying against a fixed hash, so that
/// it takes as long as a wrong password.
pub fn check_password(password: &str, stored: Option<&str>) -> (r: bool)
    ensures
        r == (match stored {
            Some(h) => argon2_accepts(vstd::utf8::encode_utf8(password@), h@),
            None => false,
        }),
{
    match stored {
        Some(h) => argon2_verify(password.as_bytes(), h),
        None => {
            let _spent = argon2_verify(password.as_bytes(), DUMMY_HASH);
            false
        },
    }
}

/// The TTL in seconds, or `None` where sessions never expire.
pub fn session_ttl_secs(ttl_days: u64) -> (r: Option<i64>)
    ensures
        match r {
            Some(t) => ttl_seconds(ttl_days) == Some(t as int),
            None => ttl_seconds(ttl_days) is None,
        },
{
    if ttl_days == 0 || ttl_days > MAX_TTL_DAYS {
        None
    } else {
        Some((ttl_days as i64) * 86400)
    }
}

/// The verdict on a stored session last used at the RFC 3339 time
/// `last_used`, under a TTL of `ttl_days` days, at `now`. Text that does not
/// parse counts as expired.
pub fn check_session(last_used: &str, ttl_days: u64, now: Stamp) -> (r: SessionVerdict)
    ensures
        r == verdict_of(parsed_stamp(last_used@), ttl_days, now),
{
    let ttl = match session_ttl_secs(ttl_days) {
        None => return SessionVerdict::Valid,
        Some(t) => t,
    };
    let last = match parse_rfc3339(last_used) {
        None => return SessionVerdict::Expired,
        Some(p) => Stamp { secs: p.0, nanos: p.1 },
    };
    if last.secs > MAX_TIME_SECS - ttl {
        return SessionVerdict::OutOfRange;
    }
    let exp_secs = last.secs + ttl;
    let exp_nanos: u32 = if last.nanos >= 1_000_000_000 {
        last.nanos - 1_000_000_000
    } else {
        last.nanos
    };
    if exp_secs < now.secs || (exp_secs == now.secs && exp_nanos < now.nanos) {
        SessionVerdict::Expired
    } else {
        SessionVerdict::Valid
    }
}

/// The RFC 3339 text recorded as a session's last use at `now`: whole
/// seconds, UTC.
pub fn session_stamp(now: Stamp) -> (r: String)
    requires
        MIN_TIME_SECS <= now.secs <= MAX_TIME_SECS,
    ensures
        r@ == rfc3339_text(now.secs),
        FIRST_YEAR_1_SECS <= now.secs <= LAST_YEAR_9999_SECS ==> parsed_stamp(r@) == Some(
            Stamp { secs: now.secs, nanos: 0 },
        ),
{
    format_rfc3339(now.secs)
}

/// A new session: the token handed to the client, the hash stored for it and
/// the time of its creation (its first use).
pub struct SessionRecord {
    pub token: String,
    pub token_hash: String,
    pub stamp: String,
}

/// Creates a session at `now`.
pub fn new_session(now: Stamp) -> (r: SessionRecord)
    requires
        MIN_TIME_SECS <= now.secs <= MAX_TIME_SECS,
    ensures
        is_session_token(r.token@),
        r.token_hash@ == token_hash_of(r.token@),
        r.stamp@ == rfc3339_text(now.secs),
{
    let token = gen_token();
    let token_hash = sha256_hex(token.as_str());
    let stamp = session_stamp(now);
    SessionRecord { token, token_hash, stamp }
}

/// Where sessions expire, the RFC 3339 time before which a last use counts
/// as expired (`now - ttl`, whole seconds); `None` where they never expire.
pub fn expiry_cutoff(ttl_days: u64, now: Stamp) -> (r: Option<String>)
    requires
        MIN_TIME_SECS <= now.secs <= MAX_TIME_SECS,
        ttl_seconds(ttl_days) matches Some(t) ==> now.secs - t >= MIN_TIME_SECS,
    ensures
        match ttl_seconds(ttl_days) {
            None => r is None,
            Some(t) => r matches Some(c) && c@ == rfc3339_text((now.secs - t) as i64),
        },
{
    match session_ttl_secs(ttl_days) {
        None => None,
        Some(t) => Some(format_rfc3339(now.secs - t)),
    }
}

/// A failed schema change that only says the column exists already.
pub open spec fn duplicate_column_message(message: Seq<char>) -> bool {
    contains_seq(message, "duplicate column name"@)
}

/// The error of adding a column that exists already, which a migration skips.
pub fn is_duplicate_column(message: &str) -> (r: bool)
    ensures
        r == duplicate_column_message(message@),
{
    contains_str(message, "duplicate column name")
}

/// The outcome of a password change that touched `rows` users: an error
/// naming the user where there was none.
pub fn password_update_result(rows: u64, username: &str) -> (r: Result<(), String>)
    ensures
        rows > 0 ==> r is Ok,
        rows == 0 ==> (r matches Err(m) && m@ == "no user with username "@ + username@),
{
    if rows == 0 {
        let mut m = String::from_str("no user with username ");
        m.append(username);
        Err(m)
    } else {
        Ok(())
    }
}

/// Sessions with a TTL of 0 days, or too many days for a time span, never
/// expire: every stored session is valid whenever it is checked.
pub proof fn lemma_unlimited_ttl_never_expires(last: Option<Stamp>, ttl_days: u64, now: Stamp)
    requires
        ttl_days == 0 || ttl_days > MAX_TTL_DAYS,
    ensures
        verdict_of(last, ttl_days, now) == SessionVerdict::Valid,
{
}

/// Once a session has expired it stays expired: a later check refuses it too.
pub proof fn lemma_expiry_is_final(last: Option<Stamp>, ttl_days: u64, now: Stamp, later: Stamp)
    requires
        verdict_of(last, ttl_days, now) == SessionVerdict::Expired,
        !before(later, now),
    ensures
        verdict_of(last, ttl_days, later) == SessionVerdict::Expired,
{
}

/// A session whose stored last use reads back as `t` (whole seconds) is
/// valid at every time up to `t + ttl`, and expired after it.
pub proof fn lemma_renewed_session_lives_one_ttl(
    stored: Seq<char>,
    t: i64,
    ttl_days: u64,
    now: Stamp,
)
    requires
        parsed_stamp(stored) == Some(Stamp { secs: t, nanos: 0 }),
        ttl_seconds(ttl_days) matches Some(ttl) && t + ttl <= MAX_TIME_SECS,
    ensures
        ({
            let v = verdict_of(parsed_stamp(stored), ttl_days, now);
            let ttl = ttl_seconds(ttl_days)->0;
            &&& now.secs <= t + ttl && (now.secs < t + ttl || now.nanos == 0) ==> v
                == SessionVerdict::Valid
            &&& before(Stamp { secs: (t + ttl) as i64, nanos: 0 }, now) ==> v
                == SessionVerdict::Expired
        }),
{
}

/// A session whose last use (whole seconds) lies before the cleanup cutoff
/// `now - ttl` is expired at `now`: the cleanup deletes only expired sessions.
pub proof fn lemma_cutoff_removes_only_expired(last: Stamp, ttl_days: u64, now: Stamp)
    requires
        ttl_seconds(ttl_days) matches Some(ttl) && last.secs < now.secs - ttl,
        last.nanos == 0,
        last.secs + ttl_seconds(ttl_days)->0 <= MAX_TIME_SECS,
    ensures
        verdict_of(Some(last), ttl_days, now) == SessionVerdict::Expired,
{
}

} // verus!
