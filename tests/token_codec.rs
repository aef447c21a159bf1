use gamehub_auth::claims::Claims;
use gamehub_auth::error::AuthError;
use gamehub_auth::token::{claims_from_payload, decode, encode, expiry_after, TOKEN_LIFETIME_SECS};

fn sample(exp: u64) -> Claims {
    Claims {
        sub: "6f1c2a9e-3b1d-4c52-9a77-0d1e2f3a4b5c".to_string(),
        email: "a@x.com".to_string(),
        role: "creator".to_string(),
        exp,
    }
}

fn same(a: &Claims, b: &Claims) -> bool {
    a.sub == b.sub && a.email == b.email && a.role == b.role && a.exp == b.exp
}

#[test]
fn payload_layout_is_exact() {
    let c = Claims {
        sub: "abc".to_string(),
        email: "a@x.com".to_string(),
        role: "creator".to_string(),
        exp: 1700000000,
    };
    assert_eq!(
        c.to_json(),
        "{\"sub\":\"abc\",\"email\":\"a@x.com\",\"role\":\"creator\",\"exp\":1700000000}"
    );
}

#[test]
fn payload_escapes_as_serde_json_does() {
    let c = Claims {
        sub: "q\"b\\n\nt\u{1}".to_string(),
        email: "é@x.com".to_string(),
        role: "".to_string(),
        exp: 0,
    };
    let text = c.to_json();
    assert_eq!(
        text,
        "{\"sub\":\"q\\\"b\\\\n\\nt\\u0001\",\"email\":\"é@x.com\",\"role\":\"\",\"exp\":0}"
    );
    let back = Claims::from_json(&text).unwrap();
    assert!(same(&back, &c));
}

#[test]
fn payload_reading_accepts_any_object_layout() {
    let c = Claims::from_json(
        " { \"exp\" : 7, \"iat\": 1, \"role\":\"r\", \"email\":\"e\", \"sub\":\"s\\n\" } ",
    )
    .unwrap();
    assert_eq!(c.sub, "s\n");
    assert_eq!(c.email, "e");
    assert_eq!(c.role, "r");
    assert_eq!(c.exp, 7);
}

#[test]
fn payload_reading_rejects_malformed_claims() {
    assert!(Claims::from_json("").is_none());
    assert!(Claims::from_json("[1]").is_none());
    assert!(Claims::from_json("{\"sub\":\"a\",\"email\":\"b\",\"role\":\"c\"}").is_none());
    assert!(Claims::from_json("{\"sub\":1,\"email\":\"b\",\"role\":\"c\",\"exp\":1}").is_none());
    assert!(Claims::from_json("{\"sub\":\"a\",\"email\":\"b\",\"role\":\"c\",\"exp\":-1}").is_none());
    assert!(Claims::from_json("{\"sub\":\"a\",\"email\":\"b\",\"role\":\"c\",\"exp\":1.5}").is_none());
    assert!(Claims::from_json("{\"sub\":\"a\",\"email\":\"b\",\"role\":\"c\",\"exp\":18446744073709551616}").is_none());
    let max = Claims::from_json("{\"sub\":\"a\",\"email\":\"b\",\"role\":\"c\",\"exp\":18446744073709551615}").unwrap();
    assert_eq!(max.exp, u64::MAX);
}

#[test]
fn round_trip_gives_back_the_claims() {
    let secret = b"top-secret";
    let c = sample(2_000_000_000);
    let token = encode(&c, secret).unwrap();
    let back = decode(&token, secret, 1_700_000_000).unwrap();
    assert!(same(&back, &c));
}

#[test]
fn encoding_is_deterministic() {
    let c = sample(2_000_000_000);
    assert_eq!(encode(&c, b"k").unwrap(), encode(&c, b"k").unwrap());
    assert_ne!(encode(&c, b"k").unwrap(), encode(&c, b"j").unwrap());
}

#[test]
fn wrong_secret_is_invalid_token() {
    let c = sample(2_000_000_000);
    let token = encode(&c, b"secret-one").unwrap();
    assert_eq!(decode(&token, b"secret-two", 1_700_000_000).unwrap_err(), AuthError::InvalidToken);
}

#[test]
fn expiry_boundary() {
    let secret = b"s";
    let exp: u64 = 1_700_000_000;
    let token = encode(&sample(exp), secret).unwrap();
    assert!(decode(&token, secret, exp as i64 - 1).is_ok());
    assert_eq!(decode(&token, secret, exp as i64).unwrap_err(), AuthError::InvalidToken);
    assert_eq!(decode(&token, secret, exp as i64 + 1).unwrap_err(), AuthError::InvalidToken);
    let payload = sample(exp).to_json();
    assert!(claims_from_payload(&payload, exp as i64 - 1).is_ok());
    assert_eq!(claims_from_payload(&payload, exp as i64).unwrap_err(), AuthError::InvalidToken);
    assert_eq!(claims_from_payload(&payload, exp as i64 + 1).unwrap_err(), AuthError::InvalidToken);
}

#[test]
fn malformed_tokens_are_invalid() {
    assert_eq!(decode("", b"s", 0).unwrap_err(), AuthError::InvalidToken);
    assert_eq!(decode("a.b.c", b"s", 0).unwrap_err(), AuthError::InvalidToken);
    assert_eq!(claims_from_payload("{}", 0).unwrap_err(), AuthError::InvalidToken);
}

#[test]
fn tampered_token_is_invalid() {
    let secret = b"s";
    let token = encode(&sample(2_000_000_000), secret).unwrap();
    let mut chars: Vec<char> = token.chars().collect();
    let mid = chars.len() / 2;
    chars[mid] = if chars[mid] == 'A' { 'B' } else { 'A' };
    let tampered: String = chars.into_iter().collect();
    assert_eq!(decode(&tampered, secret, 1_700_000_000).unwrap_err(), AuthError::InvalidToken);
}

#[test]
fn expiry_is_a_day_later() {
    assert_eq!(TOKEN_LIFETIME_SECS, 86400);
    assert_eq!(expiry_after(0), Some(86400));
    assert_eq!(expiry_after(1_700_000_000), Some(1_700_086_400));
    assert_eq!(expiry_after(-86400), Some(0));
    assert_eq!(expiry_after(-86401), None);
}

#[test]
fn secrets_differing_by_trailing_zero_bytes_sign_alike() {
    // HMAC pads short keys with zero bytes, so these two secrets are one key.
    let c = sample(2_000_000_000);
    let token = encode(&c, b"k").unwrap();
    assert_eq!(token, encode(&c, b"k\0").unwrap());
    assert!(decode(&token, b"k\0", 1_700_000_000).is_ok());
}

#[test]
fn foreign_layout_token_decodes() {
    let secret = b"shared";
    let value: serde_json::Value = serde_json::from_str(
        "{\"iat\":1,\"exp\":2000000000,\"role\":\"admin\",\"email\":\"e@x.com\",\"sub\":\"s\"}",
    )
    .unwrap();
    let token = jsonwebtoken::encode(
        &jsonwebtoken::Header::default(),
        &value,
        &jsonwebtoken::EncodingKey::from_secret(secret),
    )
    .unwrap();
    let c = decode(&token, secret, 1_700_000_000).unwrap();
    assert_eq!(c.sub, "s");
    assert_eq!(c.email, "e@x.com");
    assert_eq!(c.role, "admin");
    assert_eq!(c.exp, 2_000_000_000);
}
