use task_api::auth::jwt::{
    claims_entries, claims_from_decoded, claims_from_payload, create_token, token_from_encoding,
    token_signature,
    verify_token, Claims, SigningSecret, TokenError, DEFAULT_TOKEN_LIFETIME,
};
use task_api::auth::payload::{find_claim, ClaimEntry, ClaimValue};
use task_api::auth::signing::DecodeFault;
use task_api::auth::{AuthErrorKind, AuthError};

const NOW: usize = 1_700_000_000;

fn secret() -> SigningSecret {
    SigningSecret::new(String::from("a-test-secret"))
}

fn admin_claims() -> Claims {
    Claims::new(String::from("u1"), String::from("a@b.com"), 0, NOW, DEFAULT_TOKEN_LIFETIME)
}

fn entry(name: &str, value: ClaimValue) -> ClaimEntry {
    ClaimEntry { name: String::from(name), value }
}

fn text(value: &str) -> ClaimValue {
    ClaimValue::Text(String::from(value))
}

#[test]
fn new_claims_expire_after_the_lifetime() {
    let claims = Claims::new(String::from("u1"), String::from("a@b.com"), 2, 1000, 3600);
    assert_eq!(claims.user_id, "u1");
    assert_eq!(claims.email, "a@b.com");
    assert_eq!(claims.role, 2);
    assert_eq!(claims.exp, 4600);
}

#[test]
fn new_claims_saturate_the_expiry() {
    let claims = Claims::new(String::from("u1"), String::from("a@b.com"), 2, usize::MAX - 5, 3600);
    assert_eq!(claims.exp, usize::MAX);
}

#[test]
fn default_lifetime_is_one_hour() {
    assert_eq!(DEFAULT_TOKEN_LIFETIME, 3600);
    assert_eq!(admin_claims().exp, NOW + 3600);
}

#[test]
fn issued_token_round_trips() {
    let claims = admin_claims();
    let token = create_token(claims.clone(), &secret()).unwrap();
    assert_eq!(verify_token(&token, &secret(), NOW), Ok(claims));
}

#[test]
fn round_trip_keeps_unusual_claims() {
    let claims = Claims {
        user_id: String::from("id with \"quotes\" \\ and \u{e9}\u{4e16}\n"),
        email: String::new(),
        role: i16::MIN,
        exp: usize::MAX,
    };
    let token = create_token(claims.clone(), &secret()).unwrap();
    assert_eq!(verify_token(&token, &secret(), usize::MAX - 1), Ok(claims.clone()));
    let claims = Claims { role: i16::MAX, exp: 1, ..claims };
    let token = create_token(claims.clone(), &secret()).unwrap();
    assert_eq!(verify_token(&token, &secret(), 0), Ok(claims));
}

#[test]
fn token_is_valid_strictly_before_its_expiry() {
    let claims = admin_claims();
    let token = create_token(claims.clone(), &secret()).unwrap();
    assert_eq!(verify_token(&token, &secret(), claims.exp - 1), Ok(claims.clone()));
    assert_eq!(verify_token(&token, &secret(), claims.exp), Err(TokenError::Expired));
    assert_eq!(verify_token(&token, &secret(), claims.exp + 1), Err(TokenError::Expired));
}

#[test]
fn token_issued_in_the_past_is_expired() {
    let claims = Claims::new(String::from("u1"), String::from("a@b.com"), 0, NOW - 7200, 3600);
    let token = create_token(claims, &secret()).unwrap();
    assert_eq!(verify_token(&token, &secret(), NOW), Err(TokenError::Expired));
}

#[test]
fn end_to_end_issue_verify_expire() {
    let claims = Claims::new(String::from("u1"), String::from("a@b.com"), 0, NOW, 3600);
    let token = create_token(claims, &secret()).unwrap();
    let verified = verify_token(&token, &secret(), NOW).unwrap();
    assert_eq!(verified.user_id, "u1");
    assert_eq!(verified.email, "a@b.com");
    assert_eq!(verified.role, 0);
    let later = verify_token(&token, &secret(), NOW + 3601);
    assert_eq!(later, Err(TokenError::Expired));
}

#[test]
fn token_has_three_segments_and_the_hs256_header() {
    let token = create_token(admin_claims(), &secret()).unwrap();
    let segments: Vec<&str> = token.split('.').collect();
    assert_eq!(segments.len(), 3);
    assert_eq!(segments[0], "eyJ0eXAiOiJKV1QiLCJhbGciOiJIUzI1NiJ9");
    assert!(!segments[1].is_empty());
    assert_eq!(segments[2].len(), 43);
}

#[test]
fn issuing_is_deterministic() {
    let a = create_token(admin_claims(), &secret()).unwrap();
    let b = create_token(admin_claims(), &secret()).unwrap();
    assert_eq!(a, b);
    let other = SigningSecret::new(String::from("another-secret"));
    let c = create_token(admin_claims(), &other).unwrap();
    assert_ne!(a, c);
}

#[test]
fn token_carries_the_claims_under_their_names() {
    let token = create_token(admin_claims(), &secret()).unwrap();
    let mut validation = jsonwebtoken::Validation::new(jsonwebtoken::Algorithm::HS256);
    validation.validate_exp = false;
    let key = jsonwebtoken::DecodingKey::from_secret(b"a-test-secret");
    let data = jsonwebtoken::decode::<serde_json::Value>(&token, &key, &validation).unwrap();
    let object = data.claims.as_object().unwrap();
    assert_eq!(object.len(), 4);
    assert_eq!(object.get("user_id").unwrap().as_str(), Some("u1"));
    assert_eq!(object.get("email").unwrap().as_str(), Some("a@b.com"));
    assert_eq!(object.get("role").unwrap().as_i64(), Some(0));
    assert_eq!(object.get("exp").unwrap().as_u64(), Some((NOW + 3600) as u64));
}

#[test]
fn token_of_another_issuer_with_the_same_secret_is_accepted() {
    let mut object = serde_json::Map::new();
    object.insert(String::from("exp"), serde_json::Value::from(NOW as u64 + 10));
    object.insert(String::from("role"), serde_json::Value::from(3));
    object.insert(String::from("email"), serde_json::Value::from("c@d.org"));
    object.insert(String::from("user_id"), serde_json::Value::from("u7"));
    object.insert(String::from("extra"), serde_json::Value::Bool(true));
    let key = jsonwebtoken::EncodingKey::from_secret(b"a-test-secret");
    let token = jsonwebtoken::encode(&jsonwebtoken::Header::default(), &object, &key).unwrap();
    let claims = verify_token(&token, &secret(), NOW).unwrap();
    assert_eq!(
        claims,
        Claims { user_id: String::from("u7"), email: String::from("c@d.org"), role: 3, exp: NOW + 10 }
    );
}

#[test]
fn altered_signature_is_rejected() {
    let token = create_token(admin_claims(), &secret()).unwrap();
    let dot = token.rfind('.').unwrap();
    let signature = &token[dot + 1..];
    for position in 0..signature.len() {
        let mut altered: Vec<char> = signature.chars().collect();
        altered[position] = if altered[position] == 'A' { 'B' } else { 'A' };
        let altered: String = altered.into_iter().collect();
        let forged = format!("{}.{}", &token[..dot], altered);
        assert_eq!(verify_token(&forged, &secret(), NOW), Err(TokenError::InvalidSignature));
    }
    let shortened = &token[..token.len() - 1];
    assert_eq!(verify_token(shortened, &secret(), NOW), Err(TokenError::InvalidSignature));
    let extended = format!("{}A", token);
    assert_eq!(verify_token(&extended, &secret(), NOW), Err(TokenError::InvalidSignature));
    let dotted = format!("{}.A", token);
    assert!(verify_token(&dotted, &secret(), NOW).is_err());
}

#[test]
fn altered_payload_is_rejected() {
    let token = create_token(admin_claims(), &secret()).unwrap();
    let other = Claims { role: 5, ..admin_claims() };
    let other_token = create_token(other, &secret()).unwrap();
    let own: Vec<&str> = token.split('.').collect();
    let foreign: Vec<&str> = other_token.split('.').collect();
    let forged = format!("{}.{}.{}", own[0], own[1], foreign[2]);
    assert_eq!(verify_token(&forged, &secret(), NOW), Err(TokenError::InvalidSignature));
}

#[test]
fn token_signed_with_another_secret_is_rejected() {
    let other = SigningSecret::new(String::from("another-secret"));
    let token = create_token(admin_claims(), &other).unwrap();
    assert_eq!(verify_token(&token, &secret(), NOW), Err(TokenError::InvalidSignature));
}

#[test]
fn text_that_is_no_token_is_malformed() {
    for text in ["", "abc", "a.b", "a.b.c", "a.b.c.d", "..", "Bearer x"] {
        assert_eq!(verify_token(text, &secret(), NOW), Err(TokenError::Malformed), "{:?}", text);
    }
}

#[test]
fn signed_token_without_the_claims_is_malformed() {
    let mut object = serde_json::Map::new();
    object.insert(String::from("exp"), serde_json::Value::from(NOW as u64 + 10));
    object.insert(String::from("user_id"), serde_json::Value::from("u7"));
    let key = jsonwebtoken::EncodingKey::from_secret(b"a-test-secret");
    let token = jsonwebtoken::encode(&jsonwebtoken::Header::default(), &object, &key).unwrap();
    assert_eq!(verify_token(&token, &secret(), NOW), Err(TokenError::Malformed));
}

#[test]
fn signed_token_without_expiry_is_malformed() {
    let mut object = serde_json::Map::new();
    object.insert(String::from("role"), serde_json::Value::from(3));
    object.insert(String::from("email"), serde_json::Value::from("c@d.org"));
    object.insert(String::from("user_id"), serde_json::Value::from("u7"));
    let key = jsonwebtoken::EncodingKey::from_secret(b"a-test-secret");
    let token = jsonwebtoken::encode(&jsonwebtoken::Header::default(), &object, &key).unwrap();
    assert_eq!(verify_token(&token, &secret(), NOW), Err(TokenError::Malformed));
}

#[test]
fn decoding_faults_keep_their_kind() {
    assert_eq!(
        claims_from_decoded(Err(DecodeFault::BadSignature), NOW),
        Err(TokenError::InvalidSignature)
    );
    assert_eq!(claims_from_decoded(Err(DecodeFault::Unreadable), NOW), Err(TokenError::Malformed));
}

#[test]
fn decoded_payload_gives_claims_until_expiry() {
    let payload = || {
        vec![
            entry("exp", ClaimValue::Integer(500)),
            entry("role", ClaimValue::Integer(-2)),
            entry("other", ClaimValue::Other),
            entry("email", text("a@b.com")),
            entry("user_id", text("u1")),
        ]
    };
    let claims =
        Claims { user_id: String::from("u1"), email: String::from("a@b.com"), role: -2, exp: 500 };
    assert_eq!(claims_from_decoded(Ok(payload()), 0), Ok(claims.clone()));
    assert_eq!(claims_from_decoded(Ok(payload()), 499), Ok(claims));
    assert_eq!(claims_from_decoded(Ok(payload()), 500), Err(TokenError::Expired));
    assert_eq!(claims_from_decoded(Ok(payload()), 501), Err(TokenError::Expired));
    assert_eq!(claims_from_decoded(Ok(Vec::new()), 0), Err(TokenError::Malformed));
}

#[test]
fn payload_with_a_claim_of_the_wrong_kind_gives_none() {
    let full = |role: ClaimValue, exp: ClaimValue, user_id: ClaimValue, email: ClaimValue| {
        vec![entry("user_id", user_id), entry("email", email), entry("role", role), entry("exp", exp)]
    };
    let ok = full(ClaimValue::Integer(1), ClaimValue::Integer(9), text("u"), text("e"));
    assert!(claims_from_payload(&ok).is_some());
    let cases = vec![
        full(ClaimValue::Integer(32768), ClaimValue::Integer(9), text("u"), text("e")),
        full(ClaimValue::Integer(-32769), ClaimValue::Integer(9), text("u"), text("e")),
        full(text("1"), ClaimValue::Integer(9), text("u"), text("e")),
        full(ClaimValue::Other, ClaimValue::Integer(9), text("u"), text("e")),
        full(ClaimValue::Integer(1), ClaimValue::Integer(-1), text("u"), text("e")),
        full(ClaimValue::Integer(1), ClaimValue::Integer(usize::MAX as i128 + 1), text("u"), text("e")),
        full(ClaimValue::Integer(1), ClaimValue::Other, text("u"), text("e")),
        full(ClaimValue::Integer(1), ClaimValue::Integer(9), ClaimValue::Integer(4), text("e")),
        full(ClaimValue::Integer(1), ClaimValue::Integer(9), text("u"), ClaimValue::Other),
    ];
    for payload in cases {
        assert_eq!(claims_from_payload(&payload), None, "{:?}", payload);
    }
    let bounds = full(
        ClaimValue::Integer(32767),
        ClaimValue::Integer(usize::MAX as i128),
        text("u"),
        text("e"),
    );
    let claims = claims_from_payload(&bounds).unwrap();
    assert_eq!(claims.role, i16::MAX);
    assert_eq!(claims.exp, usize::MAX);
}

#[test]
fn first_entry_of_a_name_counts() {
    let payload = vec![
        entry("role", ClaimValue::Integer(1)),
        entry("role", ClaimValue::Integer(2)),
        entry("Role", ClaimValue::Integer(3)),
    ];
    assert_eq!(find_claim(&payload, "role"), Some(&ClaimValue::Integer(1)));
    assert_eq!(find_claim(&payload, "Role"), Some(&ClaimValue::Integer(3)));
    assert_eq!(find_claim(&payload, "rol"), None);
    assert_eq!(find_claim(&payload, "roles"), None);
    assert_eq!(find_claim(&Vec::new(), "role"), None);
}

#[test]
fn claims_are_written_out_in_four_entries() {
    let claims =
        Claims { user_id: String::from("u1"), email: String::from("a@b.com"), role: 7, exp: 99 };
    assert_eq!(
        claims_entries(&claims),
        vec![
            entry("user_id", text("u1")),
            entry("email", text("a@b.com")),
            entry("role", ClaimValue::Integer(7)),
            entry("exp", ClaimValue::Integer(99)),
        ]
    );
    assert_eq!(claims_from_payload(&claims_entries(&claims)), Some(claims));
}

#[test]
fn failed_encoding_is_a_signing_error() {
    let failure = jsonwebtoken::errors::Error::from(jsonwebtoken::errors::ErrorKind::InvalidKeyFormat);
    assert_eq!(token_from_encoding(Err(failure)), Err(TokenError::Signing));
    assert_eq!(token_from_encoding(Ok(String::from("a.b.c"))), Ok(String::from("a.b.c")));
}

#[test]
fn missing_secret_is_a_configuration_error() {
    let missing = SigningSecret::from_config(None);
    match missing {
        Err(AuthError { kind, message, cause }) => {
            assert_eq!(cause, None);
            assert_eq!(kind, AuthErrorKind::ConfigurationError);
            assert_eq!(message, "JWT_SECRET must be set");
            assert_eq!(kind.status(), None);
        },
        Ok(_) => panic!("a missing secret was accepted"),
    }
    let present = SigningSecret::from_config(Some(String::from("a-test-secret")));
    match present {
        Ok(configured) => {
            assert_eq!(configured.as_bytes(), b"a-test-secret");
            let token = create_token(admin_claims(), &configured).unwrap();
            assert_eq!(verify_token(&token, &secret(), NOW), Ok(admin_claims()));
        },
        Err(_) => panic!("a configured secret was refused"),
    }
}

#[test]
fn issuing_succeeds_whatever_the_claims_hold() {
    let is_base64url =
        |segment: &str| segment.chars().all(|c| c.is_ascii_alphanumeric() || c == '-' || c == '_');
    for (user_id, email, role, exp) in [
        ("", "", 0, 0),
        ("u1", "a@b.com", -7, 1),
        ("u1", "", i16::MIN, NOW - 1),
        ("a.b.c", "dots.in@the.claims", i16::MAX, usize::MAX),
    ] {
        let claims =
            Claims { user_id: String::from(user_id), email: String::from(email), role, exp };
        let token = create_token(claims, &secret()).unwrap();
        let segments: Vec<&str> = token.split('.').collect();
        assert_eq!(segments.len(), 3);
        for segment in segments {
            assert!(!segment.is_empty());
            assert!(is_base64url(segment), "{:?}", segment);
        }
    }
}

#[test]
fn third_segment_is_the_signature_of_the_first_two() {
    let token = create_token(admin_claims(), &secret()).unwrap();
    let segments: Vec<&str> = token.split('.').collect();
    let signature = token_signature(segments[0], segments[1], &secret()).unwrap();
    assert_eq!(signature, segments[2]);
    assert_ne!(signature, format!("{}.{}", segments[0], segments[1]));
    let other = SigningSecret::new(String::from("another-secret"));
    assert_ne!(token_signature(segments[0], segments[1], &other).unwrap(), segments[2]);
    assert_ne!(token_signature(segments[1], segments[0], &secret()).unwrap(), segments[2]);
}

#[test]
fn signature_of_a_known_message() {
    let key = SigningSecret::new(String::from("secret"));
    let signature = token_signature(
        "eyJhbGciOiJIUzI1NiIsInR5cCI6IkpXVCJ9",
        "eyJzdWIiOiIxMjM0NTY3ODkwIiwibmFtZSI6IkpvaG4gRG9lIiwiaWF0IjoxNTE2MjM5MDIyfQ",
        &key,
    );
    assert_eq!(signature, Ok(String::from("XbPfbIHMI6arZ3Y922BhjWgQzWXcXNrz0ogtVhfEd2o")));
}
