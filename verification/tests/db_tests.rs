use submerge::server::db::{
    check_password, check_session, expiry_cutoff, gen_token, hash_password, is_duplicate_column,
    new_session, password_update_result, session_stamp, session_ttl_secs, sha256_hex,
    SessionVerdict, Stamp,
};

use sha2::{Digest, Sha256};

const JAN_1_2026: i64 = 1767225600;
const DAY: i64 = 86400;

fn at(secs: i64) -> Stamp {
    Stamp { secs, nanos: 0 }
}

fn sha256_hex_manual(s: &str) -> String {
    let mut h = Sha256::new();
    h.update(s.as_bytes());
    const_hex::encode(h.finalize())
}

#[test]
fn tokens_are_64_lowercase_hex_digits() {
    let a = gen_token();
    let b = gen_token();
    assert_eq!(a.len(), 64);
    assert!(a.chars().all(|c| c.is_ascii_digit() || ('a'..='f').contains(&c)));
    assert_ne!(a, b);
}

#[test]
fn token_hash_is_sha256_hex() {
    assert_eq!(sha256_hex("abc"), sha256_hex_manual("abc"));
    assert_eq!(
        sha256_hex("abc"),
        "ba7816bf8f01cfea414140de5dae2223b00361a396177a9cb410ff61f20015ad"
    );
    assert_ne!(sha256_hex("abc"), "abc");
}

#[test]
fn new_session_stores_hash_and_stamp() {
    let s = new_session(at(JAN_1_2026));
    assert_eq!(s.token.len(), 64);
    assert_eq!(s.token_hash, sha256_hex_manual(&s.token));
    assert_eq!(s.stamp, "2026-01-01T00:00:00+00:00");
    assert!(!s.stamp.contains('.'));
}

#[test]
fn session_stamp_drops_fraction() {
    let s = session_stamp(Stamp { secs: JAN_1_2026 + 9, nanos: 123_456_789 });
    assert_eq!(s, "2026-01-01T00:00:09+00:00");
}

#[test]
fn ttl_limits() {
    assert_eq!(session_ttl_secs(0), None);
    assert_eq!(session_ttl_secs(30), Some(30 * DAY));
    assert_eq!(session_ttl_secs(106_751_991_167), Some(106_751_991_167 * DAY));
    assert_eq!(session_ttl_secs(106_751_991_168), None);
    assert_eq!(session_ttl_secs(i64::MAX as u64), None);
    assert_eq!(session_ttl_secs(u64::MAX), None);
}

#[test]
fn session_expires_after_ttl() {
    let now = at(JAN_1_2026);
    // last used 40 days ago, ttl 30 days
    assert_eq!(
        check_session("2025-11-22T00:00:00Z", 30, now),
        SessionVerdict::Expired
    );
    // last used 10 days ago
    assert_eq!(
        check_session("2025-12-22T00:00:00Z", 30, now),
        SessionVerdict::Valid
    );
    // exactly at the limit: last + ttl == now is still valid
    assert_eq!(
        check_session("2025-12-02T00:00:00+00:00", 30, now),
        SessionVerdict::Valid
    );
    // one nanosecond past the limit
    assert_eq!(
        check_session("2025-12-02T00:00:00+00:00", 30, Stamp { secs: JAN_1_2026, nanos: 1 }),
        SessionVerdict::Expired
    );
}

#[test]
fn session_ttl_zero_or_huge_never_expires() {
    let now = at(JAN_1_2026);
    assert_eq!(check_session("2000-01-01T00:00:00Z", 0, now), SessionVerdict::Valid);
    assert_eq!(check_session("garbage", 0, now), SessionVerdict::Valid);
    assert_eq!(check_session("2000-01-01T00:00:00Z", u64::MAX, now), SessionVerdict::Valid);
    assert_eq!(
        check_session("2000-01-01 00:00:00", i64::MAX as u64, now),
        SessionVerdict::Valid
    );
}

#[test]
fn unparsable_last_use_is_expired() {
    let now = at(JAN_1_2026);
    assert_eq!(check_session("", 30, now), SessionVerdict::Expired);
    assert_eq!(check_session("2025-12-22 00:00:00", 30, now), SessionVerdict::Expired);
}

#[test]
fn offset_times_compare_as_instants() {
    // 2025-12-02T08:00:00+08:00 is 2025-12-02T00:00:00Z: the limit exactly
    let now = at(JAN_1_2026);
    assert_eq!(
        check_session("2025-12-02T08:00:00+08:00", 30, now),
        SessionVerdict::Valid
    );
    assert_eq!(
        check_session("2025-12-02T07:59:59+08:00", 30, now),
        SessionVerdict::Expired
    );
}

#[test]
fn far_ttl_beyond_calendar_is_out_of_range() {
    let now = at(JAN_1_2026);
    assert_eq!(
        check_session("2025-12-22T00:00:00Z", 106_751_991_167, now),
        SessionVerdict::OutOfRange
    );
}

#[test]
fn cleanup_cutoff() {
    let now = Stamp { secs: JAN_1_2026 + 5, nanos: 999 };
    assert_eq!(expiry_cutoff(0, now), None);
    assert_eq!(expiry_cutoff(u64::MAX, now), None);
    assert_eq!(
        expiry_cutoff(30, now).unwrap(),
        "2025-12-02T00:00:05+00:00"
    );
}

#[test]
fn duplicate_column_detection() {
    assert!(is_duplicate_column(
        "error returned from database: (code: 1) duplicate column name: kind"
    ));
    assert!(!is_duplicate_column("database is locked"));
}

#[test]
fn password_update_needs_a_user() {
    assert!(password_update_result(1, "admin").is_ok());
    assert_eq!(
        password_update_result(0, "nobody").unwrap_err(),
        "no user with username nobody"
    );
}

#[test]
fn password_hash_roundtrip() {
    let h = hash_password("correct-password").unwrap();
    assert!(h.starts_with("$argon2id$"));
    assert!(check_password("correct-password", Some(&h)));
    assert!(!check_password("wrong-password", Some(&h)));
}

#[test]
fn unknown_user_never_passes() {
    assert!(!check_password("dummy-password", None));
    assert!(!check_password("correct-password", Some("not a hash")));
}
