use guest_place::auth::token::{authenticate, extract_token, session_outcome, subject_from_claims, token_user, user_from_subject, AuthOutcome, AuthVerdict, SessionLookup};
use guest_place::auth::utils::{get_user_from_token, TokenError};

fn signed_token(sub: &str, secret: &str, valid_for: i64) -> String {
    let now = std::time::SystemTime::now()
        .duration_since(std::time::UNIX_EPOCH)
        .unwrap()
        .as_secs() as i64;
    let mut claims = serde_json::Map::new();
    claims.insert("sub".to_string(), serde_json::Value::String(sub.to_string()));
    claims.insert("exp".to_string(), serde_json::Value::from(now + valid_for));
    jsonwebtoken::encode(
        &jsonwebtoken::Header::new(jsonwebtoken::Algorithm::HS256),
        &serde_json::Value::Object(claims),
        &jsonwebtoken::EncodingKey::from_secret(secret.as_bytes()),
    )
    .unwrap()
}

const USER: &str = "67e55044-10b1-426f-9247-bb680e5fe0c8";
const USER_ID: u128 = 0x67e55044_10b1_426f_9247_bb680e5fe0c8;

#[test]
fn token_from_bearer_header() {
    assert_eq!(extract_token(Some("Bearer abc.def"), Some("token=zzz")), Some("abc.def".to_string()));
    assert_eq!(extract_token(Some("Basic abc"), Some("token=zzz")), None);
    assert_eq!(extract_token(Some("Bearer "), None), Some(String::new()));
}

#[test]
fn token_from_query_string() {
    assert_eq!(extract_token(None, Some("token=abc")), Some("abc".to_string()));
    assert_eq!(extract_token(None, Some("x=1&token=abc&y=2")), Some("abc".to_string()));
    assert_eq!(extract_token(None, Some("x=1&tok=abc")), None);
    assert_eq!(extract_token(None, None), None);
}

#[test]
fn subject_must_be_a_uuid() {
    assert_eq!(user_from_subject(Some(USER.to_string())), Some(USER_ID));
    assert_eq!(user_from_subject(Some("admin".to_string())), None);
    assert_eq!(user_from_subject(None), None);
}

#[test]
fn valid_token_names_its_user() {
    let t = signed_token(USER, "secret", 3600);
    assert_eq!(token_user(&t, "secret"), Some(USER_ID));
    assert!(matches!(get_user_from_token(&t, "secret"), Ok(u) if u == USER_ID));
}

#[test]
fn forged_or_expired_token_is_refused() {
    let t = signed_token(USER, "secret", 3600);
    assert_eq!(token_user(&t, "other"), None);
    let old = signed_token(USER, "secret", -7200);
    assert_eq!(token_user(&old, "secret"), None);
    assert!(matches!(get_user_from_token("garbage", "secret"), Err(TokenError::Unauthorized)));
    let odd = signed_token("admin", "secret", 3600);
    assert_eq!(token_user(&odd, "secret"), None);
}

#[test]
fn authenticate_orders_its_checks() {
    assert!(matches!(authenticate(None, None, Some("s")), AuthVerdict::Unauthorized));
    assert!(matches!(authenticate(Some("Bearer x"), None, None), AuthVerdict::MissingSecret));
    assert!(matches!(authenticate(Some("Bearer x"), None, Some("s")), AuthVerdict::Unauthorized));
    let t = signed_token(USER, "s", 3600);
    let header = format!("Bearer {t}");
    assert!(matches!(authenticate(Some(&header), None, Some("s")), AuthVerdict::CheckSession(u) if u == USER_ID));
    let q = format!("token={t}");
    assert!(matches!(authenticate(None, Some(&q), Some("s")), AuthVerdict::CheckSession(u) if u == USER_ID));
}

#[test]
fn session_decides_the_outcome() {
    assert!(matches!(session_outcome(7, SessionLookup::Found), AuthOutcome::Authorized(7)));
    assert!(matches!(session_outcome(7, SessionLookup::NotFound), AuthOutcome::Unauthorized));
    assert!(matches!(session_outcome(7, SessionLookup::Failed), AuthOutcome::ServerError));
}

#[test]
fn token_without_jwt_shape_is_refused() {
    assert!(matches!(get_user_from_token("not-a-jwt", "secret"), Err(TokenError::Unauthorized)));
    assert_eq!(token_user("a.b", "secret"), None);
    assert!(matches!(authenticate(Some("Bearer not-a-jwt"), None, Some("s")), AuthVerdict::Unauthorized));
    let t = signed_token(USER, "secret", 3600);
    assert!(matches!(authenticate(Some(&format!("Bearer {t}")), None, Some("other")), AuthVerdict::Unauthorized));
}

fn token_with_claims(sub: serde_json::Value, exp: serde_json::Value, secret: &str) -> String {
    let mut claims = serde_json::Map::new();
    claims.insert("sub".to_string(), sub);
    claims.insert("exp".to_string(), exp);
    jsonwebtoken::encode(
        &jsonwebtoken::Header::new(jsonwebtoken::Algorithm::HS256),
        &serde_json::Value::Object(claims),
        &jsonwebtoken::EncodingKey::from_secret(secret.as_bytes()),
    )
    .unwrap()
}

#[test]
fn claims_must_have_their_types() {
    let far = 32_000_000_000_u64;
    let good = token_with_claims(serde_json::Value::from(USER), serde_json::Value::from(far), "secret");
    assert_eq!(token_user(&good, "secret"), Some(USER_ID));
    let float_exp = token_with_claims(serde_json::Value::from(USER), serde_json::Value::from(3.2e10_f64), "secret");
    assert_eq!(token_user(&float_exp, "secret"), None);
    let text_exp = token_with_claims(serde_json::Value::from(USER), serde_json::Value::from("32000000000"), "secret");
    assert_eq!(token_user(&text_exp, "secret"), None);
    let number_sub = token_with_claims(serde_json::Value::from(7), serde_json::Value::from(far), "secret");
    assert_eq!(token_user(&number_sub, "secret"), None);
}

#[test]
fn subject_needs_an_integer_expiry() {
    assert_eq!(subject_from_claims(Some((Some("a".to_string()), Some(5)))), Some("a".to_string()));
    assert_eq!(subject_from_claims(Some((Some("a".to_string()), None))), None);
    assert_eq!(subject_from_claims(Some((None, Some(5)))), None);
    assert_eq!(subject_from_claims(None), None);
}

fn base64url(bytes: &[u8]) -> String {
    const ALPHABET: &[u8] = b"ABCDEFGHIJKLMNOPQRSTUVWXYZabcdefghijklmnopqrstuvwxyz0123456789-_";
    let mut out = String::new();
    for chunk in bytes.chunks(3) {
        let b = [chunk[0], *chunk.get(1).unwrap_or(&0), *chunk.get(2).unwrap_or(&0)];
        let n = ((b[0] as u32) << 16) | ((b[1] as u32) << 8) | b[2] as u32;
        let digits = chunk.len() + 1;
        for k in 0..digits {
            out.push(ALPHABET[((n >> (18 - 6 * k)) & 63) as usize] as char);
        }
    }
    out
}

fn token_with_payload(payload: &str, secret: &str) -> String {
    let message = format!("{}.{}", base64url(br#"{"alg":"HS256","typ":"JWT"}"#), base64url(payload.as_bytes()));
    let key = jsonwebtoken::EncodingKey::from_secret(secret.as_bytes());
    let signature = jsonwebtoken::crypto::sign(message.as_bytes(), &key, jsonwebtoken::Algorithm::HS256).unwrap();
    format!("{}.{}", message, signature)
}

#[test]
fn repeated_claims_are_refused() {
    let single = format!(r#"{{"sub":"{}","exp":32000000000}}"#, USER);
    assert_eq!(token_user(&token_with_payload(&single, "secret"), "secret"), Some(USER_ID));
    let twice = format!(r#"{{"sub":"{}","sub":"{}","exp":32000000000}}"#, USER, USER);
    assert_eq!(token_user(&token_with_payload(&twice, "secret"), "secret"), None);
    let two_exp = format!(r#"{{"sub":"{}","exp":32000000000,"exp":32000000001}}"#, USER);
    assert_eq!(token_user(&token_with_payload(&two_exp, "secret"), "secret"), None);
}
