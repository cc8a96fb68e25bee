use base64::Engine;
use rsa::pkcs1::EncodeRsaPrivateKey;
use rsa::traits::PublicKeyParts;

use convshare::keys::{KeyCache, SigningKey, KEY_TTL_SECONDS};
use convshare::token::{
    check_claims, validate_bearer_access_token, validate_bearer_identity_token,
    validate_identity_token, Claims, TokenError, ValidatorConfig, CLOCK_SKEW_SECONDS,
};

const ISSUER: &str = "https://accounts.google.com";
const AUDIENCE: &str = "project-1";
const NOW: u64 = 1_700_000_000;

fn config() -> ValidatorConfig {
    ValidatorConfig { audience: AUDIENCE.to_string(), issuer: ISSUER.to_string() }
}

struct TestKey {
    encoding: jsonwebtoken::EncodingKey,
    published: SigningKey,
}

fn generate_key(kid: &str) -> TestKey {
    let private = rsa::RsaPrivateKey::new(&mut rand::thread_rng(), 1024).expect("generate key");
    let der = private.to_pkcs1_der().expect("encode key");
    let encoding = jsonwebtoken::EncodingKey::from_rsa_der(der.as_bytes());
    let public = private.to_public_key();
    let b64 = base64::engine::general_purpose::URL_SAFE_NO_PAD;
    let published = SigningKey {
        kid: kid.to_string(),
        alg: "RS256".to_string(),
        n: b64.encode(public.n().to_bytes_be()),
        e: b64.encode(public.e().to_bytes_be()),
    };
    TestKey { encoding, published }
}

fn cache_with(keys: Vec<SigningKey>) -> KeyCache {
    let mut cache = KeyCache::new();
    cache.install(keys, NOW);
    cache
}

fn claims_value(iss: &str, aud: &str, sub: &str, nbf: u64, exp: u64) -> serde_json::Value {
    let mut map = serde_json::Map::new();
    map.insert("iss".to_string(), serde_json::Value::String(iss.to_string()));
    map.insert("aud".to_string(), serde_json::Value::String(aud.to_string()));
    map.insert("sub".to_string(), serde_json::Value::String(sub.to_string()));
    map.insert("nbf".to_string(), serde_json::Value::Number(serde_json::Number::from(nbf)));
    map.insert("exp".to_string(), serde_json::Value::Number(serde_json::Number::from(exp)));
    serde_json::Value::Object(map)
}

fn sign(key: &TestKey, claims: &serde_json::Value) -> String {
    let mut header = jsonwebtoken::Header::new(jsonwebtoken::Algorithm::RS256);
    header.kid = Some(key.published.kid.clone());
    jsonwebtoken::encode(&header, claims, &key.encoding).expect("sign token")
}

#[test]
fn valid_token_yields_its_subject() {
    let key = generate_key("k1");
    let cache = cache_with(vec![key.published.clone()]);
    let token = sign(&key, &claims_value(ISSUER, AUDIENCE, "user-7", NOW - 10, NOW + 600));
    let got = validate_identity_token(&cache, &token, NOW, &config());
    assert_eq!(got, Ok("user-7".to_string()));
}

#[test]
fn garbage_is_malformed() {
    let key = generate_key("k1");
    let cache = cache_with(vec![key.published]);
    let got = validate_identity_token(&cache, &"not-a-token".to_string(), NOW, &config());
    assert_eq!(got, Err(TokenError::Malformed));
}

#[test]
fn missing_claim_is_malformed() {
    let key = generate_key("k1");
    let cache = cache_with(vec![key.published.clone()]);
    // A properly signed token whose claims set lacks `nbf`.
    let mut map = serde_json::Map::new();
    map.insert("iss".to_string(), serde_json::Value::String(ISSUER.to_string()));
    map.insert("aud".to_string(), serde_json::Value::String(AUDIENCE.to_string()));
    map.insert("sub".to_string(), serde_json::Value::String("user-7".to_string()));
    map.insert("exp".to_string(), serde_json::Value::Number(serde_json::Number::from(NOW + 600)));
    let token = sign(&key, &serde_json::Value::Object(map));
    let got = validate_identity_token(&cache, &token, NOW, &config());
    assert_eq!(got, Err(TokenError::Malformed));
}

#[test]
fn unknown_key_id_cannot_be_trusted() {
    let key = generate_key("k1");
    let other = generate_key("elsewhere");
    let cache = cache_with(vec![other.published]);
    let token = sign(&key, &claims_value(ISSUER, AUDIENCE, "user-7", NOW - 10, NOW + 600));
    let got = validate_identity_token(&cache, &token, NOW, &config());
    assert_eq!(got, Err(TokenError::UnknownKey));
}

#[test]
fn tampered_token_fails_the_signature_check() {
    let key = generate_key("k1");
    let cache = cache_with(vec![key.published.clone()]);
    let token = sign(&key, &claims_value(ISSUER, AUDIENCE, "user-7", NOW - 10, NOW + 600));
    // Flip the last character of the signature part.
    let mut tampered = token.clone();
    let last = tampered.pop().expect("nonempty");
    tampered.push(if last == 'A' { 'B' } else { 'A' });
    let got = validate_identity_token(&cache, &tampered, NOW, &config());
    assert_eq!(got, Err(TokenError::BadSignature));
}

#[test]
fn bad_signature_wins_over_expiry() {
    // A token that is both wrongly signed and long expired fails the
    // signature check, not the expiry check: the signature comes first.
    let key = generate_key("k1");
    let stranger = generate_key("k1");
    let cache = cache_with(vec![key.published.clone()]);
    let token = sign(&stranger, &claims_value(ISSUER, AUDIENCE, "user-7", NOW - 600, NOW - 300));
    let got = validate_identity_token(&cache, &token, NOW, &config());
    assert_eq!(got, Err(TokenError::BadSignature));
}

#[test]
fn expired_token_with_good_signature_is_expired() {
    let key = generate_key("k1");
    let cache = cache_with(vec![key.published.clone()]);
    let token = sign(&key, &claims_value(ISSUER, AUDIENCE, "user-7", NOW - 600, NOW - 1));
    let got = validate_identity_token(&cache, &token, NOW, &config());
    assert_eq!(got, Err(TokenError::Expired));
}

#[test]
fn not_yet_valid_wins_over_expiry() {
    // nbf beyond the skew allowance and exp in the past: nbf is checked
    // first.
    let key = generate_key("k1");
    let cache = cache_with(vec![key.published.clone()]);
    let token =
        sign(&key, &claims_value(ISSUER, AUDIENCE, "user-7", NOW + CLOCK_SKEW_SECONDS + 1, NOW - 1));
    let got = validate_identity_token(&cache, &token, NOW, &config());
    assert_eq!(got, Err(TokenError::NotYetValid));
}

#[test]
fn audience_and_issuer_are_checked_in_order() {
    let key = generate_key("k1");
    let cache = cache_with(vec![key.published.clone()]);
    let token = sign(&key, &claims_value(ISSUER, "someone-else", "user-7", NOW - 10, NOW + 600));
    let got = validate_identity_token(&cache, &token, NOW, &config());
    assert_eq!(got, Err(TokenError::AudienceMismatch));

    let token2 =
        sign(&key, &claims_value("https://impostor.example", AUDIENCE, "user-7", NOW - 10, NOW + 600));
    let got2 = validate_identity_token(&cache, &token2, NOW, &config());
    assert_eq!(got2, Err(TokenError::IssuerMismatch));

    // Wrong audience and wrong issuer at once: audience is reported.
    let token3 = sign(
        &key,
        &claims_value("https://impostor.example", "someone-else", "user-7", NOW - 10, NOW + 600),
    );
    let got3 = validate_identity_token(&cache, &token3, NOW, &config());
    assert_eq!(got3, Err(TokenError::AudienceMismatch));
}

#[test]
fn clock_skew_tolerates_a_barely_future_nbf() {
    let claims = Claims {
        iss: ISSUER.to_string(),
        aud: AUDIENCE.to_string(),
        sub: "user-7".to_string(),
        nbf: NOW + CLOCK_SKEW_SECONDS,
        exp: NOW + 600,
    };
    assert_eq!(check_claims(&claims, NOW, &config()), Ok("user-7".to_string()));
    let claims_late = Claims { nbf: NOW + CLOCK_SKEW_SECONDS + 1, ..claims };
    assert_eq!(check_claims(&claims_late, NOW, &config()), Err(TokenError::NotYetValid));
}

#[test]
fn expiry_is_inclusive() {
    let claims = Claims {
        iss: ISSUER.to_string(),
        aud: AUDIENCE.to_string(),
        sub: "user-7".to_string(),
        nbf: 0,
        exp: NOW,
    };
    // A token expiring exactly now is still accepted; one second later not.
    assert_eq!(check_claims(&claims, NOW, &config()), Ok("user-7".to_string()));
    let claims2 = Claims { exp: NOW - 1, ..claims };
    assert_eq!(check_claims(&claims2, NOW, &config()), Err(TokenError::Expired));
}

#[test]
fn validation_refreshes_an_expired_cache_once() {
    let key = generate_key("k1");
    let mut cache = KeyCache::new();
    cache.install(Vec::new(), 0);
    let now = KEY_TTL_SECONDS + 60;
    assert!(cache.needs_refresh(now));
    let token = sign(&key, &claims_value(ISSUER, AUDIENCE, "user-7", now - 10, now + 600));
    let got = validate_bearer_identity_token(
        &mut cache,
        &token,
        now,
        &config(),
        Some(vec![key.published.clone()]),
    );
    assert_eq!(got, Ok("user-7".to_string()));
    // The fetched set is installed: the next validation needs no fetch.
    assert!(!cache.needs_refresh(now + 1));
    let got2 = validate_bearer_identity_token(&mut cache, &token, now + 1, &config(), None);
    assert_eq!(got2, Ok("user-7".to_string()));
}

#[test]
fn access_token_introspection_is_taken_verbatim() {
    assert_eq!(
        validate_bearer_access_token(Some("user-9".to_string())),
        Ok("user-9".to_string())
    );
    assert_eq!(validate_bearer_access_token(None), Err(TokenError::Invalid));
}
