use hivehook::webhook::{constant_time_eq, extract_v1};
use hivehook::Webhook;

const SECRET: &str = "whsec_test123";
const PAYLOAD: &str = r#"{"event":"test"}"#;
const KNOWN: &str = "v1=2b25184bbfeecb10f9c359b0245b449280d1354e1655b5c2ae120ad7ede4a4a0";

#[test]
fn sign_matches_known_hmac() {
    assert_eq!(Webhook::sign(PAYLOAD, SECRET, 1700000000), KNOWN);
    assert_eq!(
        Webhook::sign("", "k", -5),
        "v1=fb20eef0229e726d3f3025e11de3d39322d47728e174e3a8825459d1d33a8b49"
    );
}

#[test]
fn sign_then_verify_round_trips() {
    for ts in [0i64, 1, 1700000000, -42, i64::MAX, i64::MIN] {
        let sig = Webhook::sign(PAYLOAD, SECRET, ts);
        assert!(Webhook::verify_at(PAYLOAD, SECRET, &sig, ts, None, None));
        assert!(Webhook::verify_at(PAYLOAD, SECRET, &sig, ts, Some(0), Some(ts)));
    }
}

#[test]
fn verify_at_checks_freshness_against_clock() {
    let ts = 1700000000;
    let sig = Webhook::sign(PAYLOAD, SECRET, ts);
    assert!(Webhook::verify_at(PAYLOAD, SECRET, &sig, ts, Some(300), Some(ts + 300)));
    assert!(Webhook::verify_at(PAYLOAD, SECRET, &sig, ts, Some(300), Some(ts - 300)));
    assert!(!Webhook::verify_at(PAYLOAD, SECRET, &sig, ts, Some(300), Some(ts + 301)));
    assert!(!Webhook::verify_at(PAYLOAD, SECRET, &sig, ts, Some(-5), Some(ts + 1)));
    assert!(Webhook::verify_at(PAYLOAD, SECRET, &sig, ts, Some(-5), Some(ts)));
    assert!(!Webhook::verify_at(PAYLOAD, SECRET, &sig, ts, Some(300), None));
    assert!(!Webhook::verify_at(PAYLOAD, "other", &sig, ts, None, None));
    assert!(!Webhook::verify_at("tampered", SECRET, &sig, ts, None, None));
    assert!(!Webhook::verify_at(PAYLOAD, SECRET, &sig, ts + 1, None, None));
}

#[test]
fn verify_accepts_multi_scheme_headers() {
    let header = format!("t=1, v0=abc ,  {KNOWN} , v1=ffff");
    assert!(Webhook::verify(PAYLOAD, SECRET, &header, 1700000000, None));
    let later = format!("v1=ffff,{KNOWN}");
    assert!(!Webhook::verify(PAYLOAD, SECRET, &later, 1700000000, None));
}

#[test]
fn rotation_at_uses_either_secret() {
    let ts = 1700000000;
    let sig = Webhook::sign(PAYLOAD, "old", ts);
    assert!(Webhook::verify_with_rotation_at(PAYLOAD, "new", Some("old"), &sig, ts, Some(10), Some(ts)));
    assert!(!Webhook::verify_with_rotation_at(PAYLOAD, "new", None, &sig, ts, Some(10), Some(ts)));
    assert!(!Webhook::verify_with_rotation_at(PAYLOAD, "new", Some("old"), &sig, ts, Some(10), Some(ts + 11)));
}

#[test]
fn extract_v1_picks_first_v1_element() {
    assert_eq!(extract_v1("v1=abc").as_deref(), Some("v1=abc"));
    assert_eq!(extract_v1("t=1,v1=abc,v1=def").as_deref(), Some("v1=abc"));
    assert_eq!(extract_v1("  v1=abc  ,x").as_deref(), Some("v1=abc"));
    assert_eq!(extract_v1("v1=").as_deref(), Some("v1="));
    assert_eq!(extract_v1("v0=abc,v2=x"), None);
    assert_eq!(extract_v1(""), None);
    assert_eq!(extract_v1(",,,"), None);
    assert_eq!(extract_v1("xv1=abc"), None);
}

#[test]
fn constant_time_eq_compares_bytes() {
    assert!(constant_time_eq(b"", b""));
    assert!(constant_time_eq(b"abc", b"abc"));
    assert!(!constant_time_eq(b"abc", b"abd"));
    assert!(!constant_time_eq(b"abc", b"ab"));
    assert!(!constant_time_eq(b"\x00", b"\x80"));
}

#[test]
fn sign_is_sixty_seven_characters() {
    for (p, s, t) in [("", "", 0i64), (PAYLOAD, SECRET, -1), ("x", "a-much-longer-secret-than-a-block-of-sha256-input-bytes-aaaaaaaaaaaa", i64::MAX)] {
        assert_eq!(Webhook::sign(p, s, t).len(), 67);
    }
}
