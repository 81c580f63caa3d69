use social_graph::auth::{
    create_token, create_token_at, expiry_in_range, token_from_library, validate_decoded,
    validate_token, validate_token_at, AuthError, AuthErrorKind, JwtConfig,
};
use social_graph::claims::{Claims, Decoded, RawClaims};

const T0: i64 = 1_700_000_000;

fn config(hours: i64) -> JwtConfig {
    JwtConfig { secret: String::from("secret"), expiration_hours: hours }
}

fn ann() -> u128 {
    0x1234_5678_9abc_4def_8123_4567_89ab_cdef
}

// Signs an arbitrary payload the way the token library does.
fn signed(members: Vec<(&str, serde_json::Value)>, secret: &str) -> String {
    let mut payload = serde_json::Map::new();
    for (name, value) in members {
        payload.insert(name.to_string(), value);
    }
    jsonwebtoken::encode(
        &jsonwebtoken::Header::default(),
        &payload,
        &jsonwebtoken::EncodingKey::from_secret(secret.as_bytes()),
    )
    .unwrap()
}

fn kind(result: Result<Claims, AuthError>) -> AuthErrorKind {
    result.unwrap_err().kind
}

#[test]
fn issued_token_validates_to_its_subject() {
    let config = config(24);
    let token = create_token_at(ann(), "ann", &config, T0).unwrap();
    let claims = validate_token_at(&token, &config, T0).unwrap();
    assert_eq!(claims.sub, ann());
    assert_eq!(claims.username, "ann");
    assert_eq!(claims.iat, T0);
    assert_eq!(claims.exp, T0 + 24 * 3600);
}

#[test]
fn one_hour_token_is_valid_after_30_minutes_and_expired_after_61() {
    let config = config(1);
    let token = create_token_at(ann(), "ann", &config, T0).unwrap();
    let claims = validate_token_at(&token, &config, T0 + 30 * 60).unwrap();
    assert_eq!(claims.sub, ann());
    assert_eq!(claims.username, "ann");
    let late = validate_token_at(&token, &config, T0 + 61 * 60).unwrap_err();
    assert_eq!(late.kind, AuthErrorKind::TokenExpired);
    assert_eq!(late.message, "JWT error: ExpiredSignature");
}

#[test]
fn token_expires_at_its_expiry_time() {
    let config = config(1);
    let token = create_token_at(ann(), "ann", &config, T0).unwrap();
    assert!(validate_token_at(&token, &config, T0 + 3599).is_ok());
    assert_eq!(kind(validate_token_at(&token, &config, T0 + 3600)), AuthErrorKind::TokenExpired);
    assert_eq!(kind(validate_token_at(&token, &config, T0 + 3601)), AuthErrorKind::TokenExpired);
    assert_eq!(kind(validate_token_at(&token, &config, i64::MAX)), AuthErrorKind::TokenExpired);
}

#[test]
fn token_without_lifetime_is_expired_at_once() {
    for hours in [0, -1] {
        let config = config(hours);
        let token = create_token_at(ann(), "ann", &config, T0).unwrap();
        assert_eq!(kind(validate_token_at(&token, &config, T0)), AuthErrorKind::TokenExpired);
    }
}

#[test]
fn token_has_the_expected_text() {
    let token = create_token_at(7, "ann", &config(1), 1000).unwrap();
    let parts: Vec<&str> = token.split('.').collect();
    assert_eq!(parts.len(), 3);
    // {"typ":"JWT","alg":"HS256"}
    assert_eq!(parts[0], "eyJ0eXAiOiJKV1QiLCJhbGciOiJIUzI1NiJ9");
    // {"sub":"00000000-0000-0000-0000-000000000007","username":"ann","exp":4600,"iat":1000}
    assert_eq!(
        parts[1],
        "eyJzdWIiOiIwMDAwMDAwMC0wMDAwLTAwMDAtMDAwMC0wMDAwMDAwMDAwMDciLCJ1c2VybmFtZSI6ImFubiIsImV4cCI6NDYwMCwiaWF0IjoxMDAwfQ"
    );
    // HMAC-SHA256 of the two parts under the key "secret"
    assert_eq!(parts[2], "msfpy325HmlgMRNtPjeJsao4m_i5yjwDcetLbXRL62U");
}

#[test]
fn issuing_is_deterministic_for_one_time() {
    let config = config(2);
    let one = create_token_at(ann(), "ann", &config, T0).unwrap();
    let two = create_token_at(ann(), "ann", &config, T0).unwrap();
    let later = create_token_at(ann(), "ann", &config, T0 + 1).unwrap();
    assert_eq!(one, two);
    assert_ne!(one, later);
}

#[test]
fn token_is_read_by_the_token_library() {
    let token = create_token_at(ann(), "ann", &config(1), T0).unwrap();
    let mut rules = jsonwebtoken::Validation::new(jsonwebtoken::Algorithm::HS256);
    rules.validate_exp = false;
    let data = jsonwebtoken::decode::<serde_json::Value>(
        &token,
        &jsonwebtoken::DecodingKey::from_secret(b"secret"),
        &rules,
    )
    .unwrap();
    assert_eq!(data.header.alg, jsonwebtoken::Algorithm::HS256);
    assert_eq!(data.claims["sub"], "12345678-9abc-4def-8123-456789abcdef");
    assert_eq!(data.claims["username"], "ann");
    assert_eq!(data.claims["exp"], T0 + 3600);
    assert_eq!(data.claims["iat"], T0);
}

#[test]
fn token_from_the_token_library_is_read() {
    let token = signed(
        vec![
            ("sub", serde_json::Value::from(uuid::Uuid::from_u128(ann()).to_string())),
            ("username", serde_json::Value::from("ann")),
            ("exp", serde_json::Value::from(T0 + 10)),
            ("iat", serde_json::Value::from(T0)),
            ("role", serde_json::Value::from("admin")),
        ],
        "secret",
    );
    let claims = validate_token_at(&token, &config(1), T0).unwrap();
    assert_eq!(claims.sub, ann());
    assert_eq!(claims.username, "ann");
    assert_eq!(claims.exp, T0 + 10);
    assert_eq!(claims.iat, T0);
}

#[test]
fn names_of_any_script_survive() {
    let config = config(1);
    for name in ["", "Ünïcødé \"quoted\" \\ name", "名前\n\t", "a.b.c"] {
        let token = create_token_at(ann(), name, &config, T0).unwrap();
        assert_eq!(validate_token_at(&token, &config, T0).unwrap().username, name);
    }
}

#[test]
fn extreme_ids_and_times_survive() {
    let config = config(1);
    for (id, now) in [(0u128, 0i64), (u128::MAX, -1_000_000), (1, i64::MAX - 3600), (2, i64::MIN)] {
        let token = create_token_at(id, "ann", &config, now).unwrap();
        let decoded = validate_token_at(&token, &config, now).unwrap();
        assert_eq!(decoded.sub, id);
        assert_eq!(decoded.iat, now);
        assert_eq!(decoded.exp, now + 3600);
    }
}

#[test]
fn other_key_is_an_invalid_signature() {
    let token = create_token_at(ann(), "ann", &config(1), T0).unwrap();
    let other = JwtConfig { secret: String::from("Secret"), expiration_hours: 1 };
    let error = validate_token_at(&token, &other, T0).unwrap_err();
    assert_eq!(error.kind, AuthErrorKind::InvalidSignature);
    assert_eq!(error.message, "JWT error: InvalidSignature");
}

#[test]
fn altered_signature_is_an_invalid_signature() {
    let config = config(1);
    let token = create_token_at(ann(), "ann", &config, T0).unwrap();
    let last = token.chars().last().unwrap();
    let mut altered = String::from(&token[..token.len() - 1]);
    altered.push(if last == 'A' { 'B' } else { 'A' });
    assert_eq!(kind(validate_token_at(&altered, &config, T0)), AuthErrorKind::InvalidSignature);
}

#[test]
fn altered_payload_is_an_invalid_signature() {
    let config = config(1);
    let genuine = create_token_at(ann(), "ann", &config, T0).unwrap();
    let forged = create_token_at(ann(), "bob", &config, T0).unwrap();
    let genuine_parts: Vec<&str> = genuine.split('.').collect();
    let forged_parts: Vec<&str> = forged.split('.').collect();
    let mixed = format!("{}.{}.{}", genuine_parts[0], forged_parts[1], genuine_parts[2]);
    assert_eq!(kind(validate_token_at(&mixed, &config, T0)), AuthErrorKind::InvalidSignature);
}

#[test]
fn every_altered_character_is_refused() {
    let config = config(1);
    let token = create_token_at(ann(), "ann", &config, T0).unwrap();
    for at in 0..token.len() {
        let old = token.as_bytes()[at] as char;
        let new = if old == 'x' { 'y' } else { 'x' };
        let mut altered = String::new();
        altered.push_str(&token[..at]);
        altered.push(new);
        altered.push_str(&token[at + 1..]);
        let refused = kind(validate_token_at(&altered, &config, T0));
        assert!(
            refused == AuthErrorKind::InvalidSignature || refused == AuthErrorKind::Malformed,
            "{at}"
        );
    }
}

#[test]
fn signature_is_judged_before_expiry() {
    let token = create_token_at(ann(), "ann", &config(1), T0).unwrap();
    let other = JwtConfig { secret: String::from("other"), expiration_hours: 1 };
    assert_eq!(
        kind(validate_token_at(&token, &other, T0 + 7200)),
        AuthErrorKind::InvalidSignature
    );
    assert_eq!(
        kind(validate_token_at(&token, &config(1), T0 + 7200)),
        AuthErrorKind::TokenExpired
    );
}

#[test]
fn text_that_is_no_token_is_malformed() {
    let config = config(1);
    for text in ["", "abc", "a.b", "a.b.c", "...", "a.b.c.d"] {
        let error = validate_token_at(text, &config, T0).unwrap_err();
        assert_eq!(error.kind, AuthErrorKind::Malformed, "{text}");
        assert!(error.message.starts_with("JWT error: "));
        assert!(error.message.len() > "JWT error: ".len());
    }
    assert_eq!(
        validate_token_at("abc", &config, T0).unwrap_err().message,
        "JWT error: InvalidToken"
    );
}

#[test]
fn token_signed_with_another_algorithm_is_malformed() {
    let mut payload = serde_json::Map::new();
    payload.insert("exp".to_string(), serde_json::Value::from(T0 + 10));
    let token = jsonwebtoken::encode(
        &jsonwebtoken::Header::new(jsonwebtoken::Algorithm::HS512),
        &payload,
        &jsonwebtoken::EncodingKey::from_secret(b"secret"),
    )
    .unwrap();
    assert_eq!(kind(validate_token_at(&token, &config(1), T0)), AuthErrorKind::Malformed);
}

#[test]
fn incomplete_claims_are_malformed() {
    let sub = serde_json::Value::from(uuid::Uuid::from_u128(ann()).to_string());
    let name = serde_json::Value::from("ann");
    let exp = serde_json::Value::from(T0 + 10);
    let iat = serde_json::Value::from(T0);
    let all = vec![("sub", sub), ("username", name), ("exp", exp), ("iat", iat)];
    for left_out in 0..4 {
        let mut members = all.clone();
        members.remove(left_out);
        let token = signed(members, "secret");
        let error = validate_token_at(&token, &config(1), T0).unwrap_err();
        assert_eq!(error.kind, AuthErrorKind::Malformed);
        assert_eq!(error.message, "JWT error: incomplete claims");
    }
}

#[test]
fn claims_of_another_type_are_malformed() {
    let token = signed(
        vec![
            ("sub", serde_json::Value::from("seven")),
            ("username", serde_json::Value::from("ann")),
            ("exp", serde_json::Value::from(T0 + 10)),
            ("iat", serde_json::Value::from(T0)),
        ],
        "secret",
    );
    assert_eq!(kind(validate_token_at(&token, &config(1), T0)), AuthErrorKind::Malformed);
    let token = signed(
        vec![
            ("sub", serde_json::Value::from(uuid::Uuid::from_u128(ann()).to_string())),
            ("username", serde_json::Value::from(5)),
            ("exp", serde_json::Value::from("later")),
            ("iat", serde_json::Value::from(T0)),
        ],
        "secret",
    );
    assert_eq!(kind(validate_token_at(&token, &config(1), T0)), AuthErrorKind::Malformed);
}

#[test]
fn expiry_has_to_be_a_timestamp() {
    assert!(expiry_in_range(0, 1));
    assert!(expiry_in_range(i64::MAX - 3600, 1));
    assert!(!expiry_in_range(i64::MAX - 3599, 1));
    assert!(expiry_in_range(i64::MIN + 3600, -1));
    assert!(!expiry_in_range(i64::MIN + 3599, -1));
    assert!(!expiry_in_range(0, i64::MAX));
    assert!(!expiry_in_range(0, i64::MIN));
    assert!(expiry_in_range(i64::MAX, 0));
    assert!(expiry_in_range(-3600 * 5, i64::MAX / 3600));
    assert!(create_token_at(ann(), "ann", &config(1), i64::MAX - 3600).is_ok());
    assert!(create_token_at(ann(), "ann", &config(-1), i64::MIN + 3600).is_ok());
}

#[test]
fn lifetime_has_to_fit_every_clock_reading() {
    for hours in [1, 24, 876_000, 0, -1, -24, 2_000_000_000_000_000, -2_000_000_000_000_000] {
        assert!(config(hours).can_issue(), "{hours}");
    }
    for hours in [i64::MAX, i64::MIN, 3_000_000_000_000_000, -3_000_000_000_000_000] {
        assert!(!config(hours).can_issue(), "{hours}");
    }
    // the last lifetime that fits the last clock reading, and the first that does not
    let last = (i64::MAX - 185_542_587_187_199) / 3600;
    assert!(config(last).can_issue());
    assert!(!config(last + 1).can_issue());
    assert!(config(i64::MIN / 3600).can_issue());
    assert!(!config(i64::MIN / 3600 - 1).can_issue());
}

#[test]
fn token_for_a_day_expires_a_day_later() {
    let config = JwtConfig { secret: String::from("k"), expiration_hours: 24 };
    let token = create_token_at(1, "alice", &config, 1_700_000_000).unwrap();
    let claims = validate_token_at(&token, &config, 1_700_000_000).unwrap();
    assert_eq!(claims.sub, 1);
    assert_eq!(claims.username, "alice");
    assert_eq!(claims.iat, 1_700_000_000);
    assert_eq!(claims.exp, 1_700_086_400);
}

#[test]
fn token_is_issued_for_every_ordinary_lifetime() {
    for hours in [1, 2, 24, 720, 8_760, 876_000] {
        for now in [0, 1, T0, 4_102_444_800] {
            for (name, secret) in [("", ""), ("ann", "secret"), ("Ünï", "ключ")] {
                let config = JwtConfig { secret: String::from(secret), expiration_hours: hours };
                let token = create_token_at(ann(), name, &config, now).unwrap();
                let claims = validate_token_at(&token, &config, now).unwrap();
                assert_eq!(claims.sub, ann());
                assert_eq!(claims.username, name);
                assert_eq!(claims.iat, now);
                assert_eq!(claims.exp, now + 3600 * hours);
                assert!(claims.exp > claims.iat);
            }
        }
    }
}

#[test]
fn claims_are_issued_with_expiry_after_lifetime() {
    let claims = Claims::issue(ann(), "ann", 1000, 2).unwrap();
    assert_eq!(claims.sub, ann());
    assert_eq!(claims.username, "ann");
    assert_eq!(claims.iat, 1000);
    assert_eq!(claims.exp, 8200);
    assert!(Claims::issue(ann(), "ann", i64::MAX, 1).is_none());
    assert_eq!(Claims::issue(1, "", i64::MAX, 0).unwrap().exp, i64::MAX);
    assert_eq!(Claims::issue(1, "", i64::MAX, -1).unwrap().exp, i64::MAX - 3600);
}

#[test]
fn decoded_token_is_judged_by_its_parts() {
    let full = |exp: i64| {
        Decoded::Payload(RawClaims {
            sub: Some(9),
            username: Some(String::from("bob")),
            exp: Some(exp),
            iat: Some(5),
        })
    };
    let claims = validate_decoded(full(11), 10).unwrap();
    assert_eq!((claims.sub, claims.username.as_str(), claims.exp, claims.iat), (9, "bob", 11, 5));
    assert_eq!(kind(validate_decoded(full(10), 10)), AuthErrorKind::TokenExpired);
    assert_eq!(kind(validate_decoded(full(9), 10)), AuthErrorKind::TokenExpired);
    assert_eq!(kind(validate_decoded(Decoded::BadSignature, 10)), AuthErrorKind::InvalidSignature);
    let unreadable = validate_decoded(Decoded::Unreadable(String::from("torn")), 10).unwrap_err();
    assert_eq!(unreadable.kind, AuthErrorKind::Malformed);
    assert_eq!(unreadable.message, "JWT error: torn");
    let partial = Decoded::Payload(RawClaims { sub: Some(9), username: None, exp: Some(1), iat: None });
    let error = validate_decoded(partial, 10).unwrap_err();
    assert_eq!(error.kind, AuthErrorKind::Malformed);
    assert_eq!(error.message, "JWT error: incomplete claims");
}

#[test]
fn library_token_is_handed_on() {
    assert_eq!(token_from_library(Ok(String::from("a.b.c"))).unwrap(), "a.b.c");
}

#[test]
fn library_failure_becomes_a_hashing_failure() {
    let error = token_from_library(Err(String::from("InvalidAlgorithm"))).unwrap_err();
    assert_eq!(error.kind, AuthErrorKind::HashingFailure);
    assert_eq!(error.message, "JWT error: InvalidAlgorithm");
}

#[test]
fn token_issued_now_validates_now() {
    let config = config(1);
    let before = chrono::Utc::now().timestamp();
    let token = create_token(ann(), "ann", &config).unwrap();
    let claims = validate_token(&token, &config).unwrap();
    let after = chrono::Utc::now().timestamp();
    assert_eq!(claims.sub, ann());
    assert_eq!(claims.username, "ann");
    assert!(before <= claims.iat && claims.iat <= after);
    assert_eq!(claims.exp, claims.iat + 3600);
}

#[test]
fn token_issued_long_ago_is_expired_now() {
    let config = config(1);
    let token = create_token_at(ann(), "ann", &config, 1_000_000).unwrap();
    assert_eq!(kind(validate_token(&token, &config)), AuthErrorKind::TokenExpired);
}

#[test]
fn configuration_reads_the_lifetime_setting() {
    assert_eq!(JwtConfig::new(String::from("k"), Some("48")).expiration_hours, 48);
    assert_eq!(JwtConfig::new(String::from("k"), Some("-2")).expiration_hours, -2);
    assert_eq!(JwtConfig::new(String::from("k"), None).expiration_hours, 24);
    assert_eq!(JwtConfig::new(String::from("k"), Some("")).expiration_hours, 24);
    assert_eq!(JwtConfig::new(String::from("k"), Some("two")).expiration_hours, 24);
    assert_eq!(JwtConfig::new(String::from("k"), Some(" 48")).expiration_hours, 24);
    assert_eq!(JwtConfig::new(String::from("k"), Some("4.5")).expiration_hours, 24);
    assert_eq!(JwtConfig::new(String::from("key"), Some("1")).secret, "key");
}

#[test]
fn error_is_shown_with_its_prefix() {
    let error = AuthError { kind: AuthErrorKind::Malformed, message: String::from("torn") };
    assert_eq!(error.to_string(), "AuthError: torn");
    let error = AuthError::jwt(AuthErrorKind::TokenExpired, "ExpiredSignature");
    assert_eq!(error.to_string(), "AuthError: JWT error: ExpiredSignature");
    let error = AuthError::bcrypt(AuthErrorKind::Malformed, "Invalid hash");
    assert_eq!(error.message, "Bcrypt error: Invalid hash");
}
