use backend::auth::{
    canonical_query, check_signed_body, check_signed_body_at, check_signed_query,
    check_signed_query_at, key_precedes, signing_secret, verify_hmac, verify_hmac_at,
    verify_hmac_checked_at, AuthError, HmacJson, HmacQuery, HmacQueryParams, SIGNATURE_WINDOW_MS,
};
use hmac::{Hmac, KeyInit, Mac};
use std::collections::BTreeMap;
use sha2::Sha256;

const RFC4231_TAG: &str = "5bdcc146bf60754e6a042426089575c75a003f089d2739839dec58b964ec3843";

fn sign(secret: &str, data: &str) -> String {
    let mut mac = Hmac::<Sha256>::new_from_slice(secret.as_bytes()).unwrap();
    mac.update(data.as_bytes());
    mac.finalize()
        .into_bytes()
        .iter()
        .map(|b| format!("{b:02x}"))
        .collect()
}

fn now_ms() -> i64 {
    std::time::SystemTime::now()
        .duration_since(std::time::UNIX_EPOCH)
        .unwrap()
        .as_millis() as i64
}

#[test]
fn known_hmac_vector_is_accepted() {
    let r = verify_hmac_at(RFC4231_TAG, "1000", "what do ya want for nothing?", "Jefe", 1000);
    assert_eq!(r, Ok(()));
}

#[test]
fn uppercase_or_altered_signature_is_refused() {
    let upper = RFC4231_TAG.to_uppercase();
    let r = verify_hmac_at(&upper, "1000", "what do ya want for nothing?", "Jefe", 1000);
    assert_eq!(r, Err(AuthError::InvalidSignature));
    let r = verify_hmac_at(RFC4231_TAG, "1000", "what do ya want for nothing!", "Jefe", 1000);
    assert_eq!(r, Err(AuthError::InvalidSignature));
    let r = verify_hmac_at(RFC4231_TAG, "1000", "what do ya want for nothing?", "jefe", 1000);
    assert_eq!(r, Err(AuthError::InvalidSignature));
    let r = verify_hmac_at(&RFC4231_TAG[..63], "1000", "what do ya want for nothing?", "Jefe", 1000);
    assert_eq!(r, Err(AuthError::InvalidSignature));
}

#[test]
fn window_edges() {
    let data = "x";
    let sig = sign("s", data);
    assert_eq!(verify_hmac_at(&sig, "0", data, "s", SIGNATURE_WINDOW_MS), Ok(()));
    assert_eq!(verify_hmac_at(&sig, "0", data, "s", -SIGNATURE_WINDOW_MS), Ok(()));
    assert_eq!(
        verify_hmac_at(&sig, "0", data, "s", SIGNATURE_WINDOW_MS + 1),
        Err(AuthError::TimestampOutsideWindow)
    );
    assert_eq!(
        verify_hmac_at(&sig, "0", data, "s", -SIGNATURE_WINDOW_MS - 1),
        Err(AuthError::TimestampOutsideWindow)
    );
    assert_eq!(SIGNATURE_WINDOW_MS, 300_000);
}

#[test]
fn bad_timestamp_is_refused_before_anything_else() {
    assert_eq!(verify_hmac_at("zz", "12x", "d", "s", 0), Err(AuthError::InvalidTimestamp));
    assert_eq!(verify_hmac_at("zz", "", "d", "s", 0), Err(AuthError::InvalidTimestamp));
}

#[test]
fn verify_hmac_uses_the_clock() {
    let ts = now_ms().to_string();
    let sig = sign("k", "payload");
    assert_eq!(verify_hmac(&sig, &ts, "payload", "k"), Ok(()));
    assert_eq!(verify_hmac(&sig, "1000", "payload", "k"), Err(AuthError::TimestampOutsideWindow));
    assert_eq!(
        verify_hmac(&sig, "-9223372036854775808", "payload", "k"),
        Err(AuthError::TimestampOutsideWindow)
    );
}

#[test]
fn signed_body_is_accepted_and_returned() {
    let ts = now_ms().to_string();
    let body = r#"{"prompt":"Hello world"}"#;
    let sig = sign("test_secret", &format!("{}.{}", ts, body));
    let r = check_signed_body(Some(&sig), Some(&ts), body.as_bytes(), "test_secret");
    assert_eq!(r, Ok(body.to_string()));
}

#[test]
fn signed_body_refusals_come_in_order() {
    let ts = now_ms().to_string();
    assert_eq!(check_signed_body(None, None, b"\xff", "s"), Err(AuthError::MissingSignature));
    assert_eq!(check_signed_body(Some("a"), None, b"\xff", "s"), Err(AuthError::MissingTimestamp));
    assert_eq!(check_signed_body(Some("a"), Some("x"), b"\xff", "s"), Err(AuthError::InvalidUtf8Body));
    assert_eq!(check_signed_body(Some("a"), Some("x"), b"{}", "s"), Err(AuthError::InvalidTimestamp));
    assert_eq!(check_signed_body(Some("a"), Some(&ts), b"{}", "s"), Err(AuthError::InvalidSignature));
    let sig = sign("s", &format!("{}.{}", ts, "{}"));
    assert_eq!(check_signed_body(Some(&sig), Some(&ts), b"{}", "other"), Err(AuthError::InvalidSignature));
    assert_eq!(check_signed_body(Some(&sig), Some(&ts), b"{} ", "s"), Err(AuthError::InvalidSignature));
}

#[test]
fn stale_signed_body_is_refused() {
    let ts = (now_ms() - 10 * 60 * 1000).to_string();
    let sig = sign("s", &format!("{}.{}", ts, "{}"));
    assert_eq!(check_signed_body(Some(&sig), Some(&ts), b"{}", "s"), Err(AuthError::TimestampOutsideWindow));
}

#[test]
fn canonical_query_joins_pairs() {
    let pairs = vec![("a".to_string(), "1".to_string()), ("b".to_string(), "x y".to_string())];
    assert_eq!(canonical_query(&pairs), "a=1&b=x y");
    assert_eq!(canonical_query(&vec![]), "");
    assert_eq!(canonical_query(&vec![("k".to_string(), "".to_string())]), "k=");
}

#[test]
fn signed_query_is_accepted() {
    let ts = now_ms().to_string();
    let sig = sign("q", &format!("{}.page=2&size=10", ts));
    let extra = vec![("page".to_string(), "2".to_string()), ("size".to_string(), "10".to_string())];
    let params = HmacQueryParams::new(ts.clone(), sig, extra.clone()).unwrap();
    assert_eq!(check_signed_query(&params, "q"), Ok("page=2&size=10".to_string()));
    let forged = HmacQueryParams::new(ts, "00".into(), extra).unwrap();
    assert_eq!(check_signed_query(&forged, "q"), Err(AuthError::InvalidSignature));
}

#[test]
fn default_secret_applies_when_unset() {
    assert_eq!(signing_secret(None), "default_secret");
    assert_eq!(signing_secret(Some("abc".into())), "abc");
}

#[test]
fn auth_error_messages() {
    let all = [
        (AuthError::MissingSignature, "Missing x-signature header"),
        (AuthError::MissingTimestamp, "Missing x-timestamp header"),
        (AuthError::InvalidUtf8Body, "Invalid UTF-8 body"),
        (AuthError::InvalidQueryParams, "Missing or invalid HMAC query params"),
        (AuthError::InvalidTimestamp, "Invalid x-timestamp"),
        (AuthError::TimestampOutsideWindow, "Request timestamp outside of window"),
        (AuthError::InvalidSecret, "Invalid HMAC secret"),
        (AuthError::InvalidSignature, "Invalid HMAC signature"),
    ];
    for (e, m) in all {
        assert_eq!(e.message(), m);
        assert_eq!(e.status(), 401);
    }
}

#[test]
fn extractor_wrappers_give_their_value() {
    let j = HmacJson(5u8);
    assert_eq!(*j, 5);
    assert_eq!(j.into_inner(), 5);
    let q = HmacQuery(String::from("x"));
    assert_eq!(q.len(), 1);
    assert_eq!(q.into_inner(), "x");
}

#[test]
fn signed_body_at_a_given_clock() {
    let body = r#"{"prompt":"Hello world"}"#;
    let sig = sign("test_secret", &format!("1700000000000.{}", body));
    let ok = check_signed_body_at(Some(&sig), Some("1700000000000"), body.as_bytes(), "test_secret", 1_700_000_100_000);
    assert_eq!(ok, Ok(body.to_string()));
    let late = check_signed_body_at(Some(&sig), Some("1700000000000"), body.as_bytes(), "test_secret", 1_700_000_300_001);
    assert_eq!(late, Err(AuthError::TimestampOutsideWindow));
    let early = check_signed_body_at(Some(&sig), Some("1700000000000"), body.as_bytes(), "test_secret", 1_699_999_699_999);
    assert_eq!(early, Err(AuthError::TimestampOutsideWindow));
}

#[test]
fn far_timestamps_are_outside_the_window() {
    assert_eq!(
        verify_hmac_checked_at("x", "-9223372036854775808", "d", "s", 1_700_000_000_000),
        Err(AuthError::TimestampOutsideWindow)
    );
    assert_eq!(verify_hmac_checked_at(RFC4231_TAG, "5", "what do ya want for nothing?", "Jefe", 7), Ok(()));
}

#[test]
fn signed_query_at_a_given_clock() {
    let sig = sign("q", "42.a=1&b=2");
    let params = HmacQueryParams::new("42".into(), sig, vec![("a".into(), "1".into()), ("b".into(), "2".into())]).unwrap();
    assert_eq!(check_signed_query_at(&params, "q", 42), Ok("a=1&b=2".to_string()));
    assert_eq!(check_signed_query_at(&params, "q", 400_000), Err(AuthError::TimestampOutsideWindow));
    assert_eq!(params.x_timestamp(), "42");
    assert_eq!(params.extra().len(), 2);
    let (ts, _, extra) = params.into_parts();
    assert_eq!(ts, "42");
    assert_eq!(extra[1].0, "b");
}

#[test]
fn query_parameters_must_be_in_key_order() {
    let p = |pairs: &[(&str, &str)]| {
        HmacQueryParams::new(
            "1".into(),
            "s".into(),
            pairs.iter().map(|(k, v)| (k.to_string(), v.to_string())).collect(),
        )
    };
    assert!(p(&[]).is_some());
    assert!(p(&[("a", "1"), ("b", "2"), ("ba", "3")]).is_some());
    assert!(p(&[("b", "1"), ("a", "2")]).is_none());
    assert!(p(&[("a", "1"), ("a", "2")]).is_none());
    assert!(p(&[("Z", "1"), ("a", "2"), ("é", "3")]).is_some());
}

#[test]
fn key_order_matches_str_order() {
    let keys = ["", "a", "ab", "b", "B", "é", "z", "zz", "\u{10000}", "a\u{0}"];
    for x in keys {
        for y in keys {
            assert_eq!(key_precedes(x, y), x < y, "{x:?} {y:?}");
        }
    }
}

#[test]
fn query_signing_ignores_arrival_order() {
    let mut m1 = BTreeMap::new();
    m1.insert("size".to_string(), "10".to_string());
    m1.insert("page".to_string(), "2".to_string());
    let mut m2 = BTreeMap::new();
    m2.insert("page".to_string(), "2".to_string());
    m2.insert("size".to_string(), "10".to_string());
    let sig = sign("q", "9.page=2&size=10");
    let a = HmacQueryParams::new("9".into(), sig.clone(), m1.into_iter().collect()).unwrap();
    let b = HmacQueryParams::new("9".into(), sig, m2.into_iter().collect()).unwrap();
    assert_eq!(check_signed_query_at(&a, "q", 9), check_signed_query_at(&b, "q", 9));
    assert_eq!(check_signed_query_at(&a, "q", 9), Ok("page=2&size=10".to_string()));
}
