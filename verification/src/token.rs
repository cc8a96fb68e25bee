//! Bearer-token validation.
//!
//! A self-contained identity token is validated in a fixed order: parse the
//! header for a key id, resolve the key, verify the RS256 signature, then
//! check the claims — not-before (with a small clock-skew allowance), expiry,
//! audience, issuer. The order is part of the contract: a token that fails
//! several checks fails with the kind of the earliest one. Signature
//! verification and token parsing are delegated to the `jsonwebtoken` crate
//! behind trusted wrappers; every decision made on their results is verified.

use vstd::prelude::*;

use crate::keys::{spec_get_key, spec_lookup, KeyCache, SigningKey, SigningKeyView,
    KEY_TTL_SECONDS};

verus! {

/// Seconds of clock skew tolerated when checking `nbf`.
pub const CLOCK_SKEW_SECONDS: u64 = 2;

/// The claims this service reads from an identity token. All five are
/// required; a token missing any of them is malformed.
pub struct Claims {
    pub iss: String,
    pub aud: String,
    pub sub: String,
    pub nbf: u64,
    pub exp: u64,
}

/// Mathematical image of a [`Claims`] set.
pub struct ClaimsView {
    pub iss: Seq<char>,
    pub aud: Seq<char>,
    pub sub: Seq<char>,
    pub nbf: u64,
    pub exp: u64,
}

impl View for Claims {
    type V = ClaimsView;

    open spec fn view(&self) -> ClaimsView {
        ClaimsView {
            iss: self.iss@,
            aud: self.aud@,
            sub: self.sub@,
            nbf: self.nbf,
            exp: self.exp,
        }
    }
}

/// Why a bearer token was rejected. Every kind is terminal for the request;
/// none calls for a retry inside this core.
#[derive(Clone, Copy, Debug, PartialEq, Eq, Structural)]
pub enum TokenError {
    /// The token, its header, or its claims set cannot be read as required.
    Malformed,
    /// The key id the token names cannot be resolved from the key cache.
    UnknownKey,
    /// The signature does not verify under the named key.
    BadSignature,
    /// The token's `nbf` lies in the future, beyond the skew allowance.
    NotYetValid,
    /// The token's `exp` lies in the past.
    Expired,
    /// The token's `aud` is not the configured audience.
    AudienceMismatch,
    /// The token's `iss` is not the configured trusted issuer.
    IssuerMismatch,
    /// An opaque access token the identity provider did not vouch for.
    Invalid,
}

/// What the validator is configured to accept.
pub struct ValidatorConfig {
    pub audience: String,
    pub issuer: String,
}

/// Mathematical image of a [`ValidatorConfig`].
pub struct ValidatorConfigView {
    pub audience: Seq<char>,
    pub issuer: Seq<char>,
}

impl View for ValidatorConfig {
    type V = ValidatorConfigView;

    open spec fn view(&self) -> ValidatorConfigView {
        ValidatorConfigView { audience: self.audience@, issuer: self.issuer@ }
    }
}

/// The image of a validation result: the subject as a character sequence.
pub open spec fn res_view(r: Result<String, TokenError>) -> Result<Seq<char>, TokenError> {
    match r {
        Ok(s) => Ok(s@),
        Err(e) => Err(e),
    }
}

/// The key id named by a token's header, if the header parses at all.
pub uninterp spec fn header_kid_of(token: Seq<char>) -> Option<Seq<char>>;

/// Whether a token's RS256 signature verifies under the RSA public key with
/// the given textual modulus and exponent.
pub uninterp spec fn rs256_sig_ok(token: Seq<char>, modulus: Seq<char>, exponent: Seq<char>) -> bool;

/// The five required claims carried by a token, if its payload parses and
/// holds all of them. Read without any trust: pure parsing.
pub uninterp spec fn claims_of(token: Seq<char>) -> Option<ClaimsView>;

/// Relies on `jsonwebtoken::decode_header`: reads the unverified header and
/// hands back its `kid` field. Deterministic in the token text.
#[verifier::external_body]
fn header_kid(token: &String) -> (r: Option<String>)
    ensures
        match r {
            Some(k) => header_kid_of(token@) == Some(k@),
            None => header_kid_of(token@) is None,
        },
{
    match jsonwebtoken::decode_header(token.as_str()) {
        Ok(h) => h.kid,
        Err(_) => None,
    }
}

/// Relies on `jsonwebtoken::DecodingKey::from_rsa_components` and
/// `jsonwebtoken::crypto::verify`: true exactly when the text before the last
/// dot is RS256-signed by the key with the given components, which is
/// deterministic in the token and the key material. Unusable key material or
/// a token without a signature part verifies as false.
#[verifier::external_body]
fn rs256_signature_valid(token: &String, modulus: &String, exponent: &String) -> (r: bool)
    ensures
        r == rs256_sig_ok(token@, modulus@, exponent@),
{
    let key = match jsonwebtoken::DecodingKey::from_rsa_components(modulus, exponent) {
        Ok(k) => k,
        Err(_) => return false,
    };
    let (message, signature) = match token.rsplit_once('.') {
        Some(parts) => parts,
        None => return false,
    };
    jsonwebtoken::crypto::verify(signature, message.as_bytes(), &key, jsonwebtoken::Algorithm::RS256)
        .unwrap_or(false)
}

/// Relies on `jsonwebtoken::insecure_decode_claims` and `serde_json` value
/// accessors: parses the token's payload without any verification and moves
/// the five required claims out, `None` when the payload does not parse or
/// any of them is missing or of the wrong type. Deterministic in the token.
#[verifier::external_body]
fn token_claims(token: &String) -> (r: Option<Claims>)
    ensures
        match r {
            Some(c) => claims_of(token@) == Some(c@),
            None => claims_of(token@) is None,
        },
{
    let v: serde_json::Value = match jsonwebtoken::dangerous::insecure_decode_claims(token.as_str()) {
        Ok(v) => v,
        Err(_) => return None,
    };
    match (v["iss"].as_str(), v["aud"].as_str(), v["sub"].as_str(), v["nbf"].as_u64(),
        v["exp"].as_u64()) {
        (Some(iss), Some(aud), Some(sub), Some(nbf), Some(exp)) => Some(Claims {
            iss: iss.to_owned(),
            aud: aud.to_owned(),
            sub: sub.to_owned(),
            nbf,
            exp,
        }),
        _ => None,
    }
}

/// The claim checks, in their fixed order: not-before with skew, expiry,
/// audience, issuer; a token passing all four yields its subject.
pub open spec fn spec_check_claims(
    c: ClaimsView,
    now: u64,
    audience: Seq<char>,
    issuer: Seq<char>,
) -> Result<Seq<char>, TokenError> {
    if now + CLOCK_SKEW_SECONDS < c.nbf {
        Err(TokenError::NotYetValid)
    } else if now > c.exp {
        Err(TokenError::Expired)
    } else if c.aud != audience {
        Err(TokenError::AudienceMismatch)
    } else if c.iss != issuer {
        Err(TokenError::IssuerMismatch)
    } else {
        Ok(c.sub)
    }
}

/// Check a decoded, signature-verified claims set against the clock and the
/// configured audience and issuer.
pub fn check_claims(claims: &Claims, now: u64, config: &ValidatorConfig) -> (r: Result<
    String,
    TokenError,
>)
    ensures
        res_view(r) == spec_check_claims(claims@, now, config@.audience, config@.issuer),
{
    if claims.nbf > CLOCK_SKEW_SECONDS && now < claims.nbf - CLOCK_SKEW_SECONDS {
        Err(TokenError::NotYetValid)
    } else if now > claims.exp {
        Err(TokenError::Expired)
    } else if claims.aud != config.audience {
        Err(TokenError::AudienceMismatch)
    } else if claims.iss != config.issuer {
        Err(TokenError::IssuerMismatch)
    } else {
        Ok(claims.sub.clone())
    }
}

/// Validation of a token against one resolved key: signature first, then the
/// claims checks.
pub open spec fn spec_validate_with_key(
    key: SigningKeyView,
    token: Seq<char>,
    now: u64,
    audience: Seq<char>,
    issuer: Seq<char>,
) -> Result<Seq<char>, TokenError> {
    if !rs256_sig_ok(token, key.n, key.e) {
        Err(TokenError::BadSignature)
    } else {
        match claims_of(token) {
            None => Err(TokenError::Malformed),
            Some(c) => spec_check_claims(c, now, audience, issuer),
        }
    }
}

/// Validation of a token against a key set: header, key resolution,
/// signature, claims — in that order.
pub open spec fn spec_validate(
    keys: Seq<SigningKeyView>,
    token: Seq<char>,
    now: u64,
    audience: Seq<char>,
    issuer: Seq<char>,
) -> Result<Seq<char>, TokenError> {
    match header_kid_of(token) {
        None => Err(TokenError::Malformed),
        Some(kid) => match spec_lookup(keys, kid) {
            None => Err(TokenError::UnknownKey),
            Some(key) => spec_validate_with_key(key, token, now, audience, issuer),
        },
    }
}

/// Validate an identity token against the keys currently cached, without
/// refreshing the cache. Returns the verified subject, or the kind of the
/// earliest failed check.
pub fn validate_identity_token(
    cache: &KeyCache,
    token: &String,
    now: u64,
    config: &ValidatorConfig,
) -> (r: Result<String, TokenError>)
    ensures
        res_view(r) == spec_validate(cache@.keys, token@, now, config@.audience, config@.issuer),
{
    let kid = match header_kid(token) {
        Some(k) => k,
        None => return Err(TokenError::Malformed),
    };
    let key = match cache.lookup(&kid) {
        Some(k) => k,
        None => return Err(TokenError::UnknownKey),
    };
    if !rs256_signature_valid(token, &key.n, &key.e) {
        return Err(TokenError::BadSignature);
    }
    let claims = match token_claims(token) {
        Some(c) => c,
        None => return Err(TokenError::Malformed),
    };
    check_claims(&claims, now, config)
}

/// Validation of a token with a refresh of the key cache where one is due:
/// the cache afterwards, and the result. `fetched` is the outcome of the
/// provider fetch the caller performed; as in [`spec_get_key`], it is
/// consulted only when a refresh is due, and any failure to resolve the key
/// surfaces as `UnknownKey`.
pub open spec fn spec_validate_refreshing(
    cache: crate::keys::KeyCacheView,
    token: Seq<char>,
    now: u64,
    audience: Seq<char>,
    issuer: Seq<char>,
    fetched: Option<Seq<SigningKeyView>>,
) -> (crate::keys::KeyCacheView, Result<Seq<char>, TokenError>) {
    match header_kid_of(token) {
        None => (cache, Err(TokenError::Malformed)),
        Some(kid) => {
            let (cache2, kres) = spec_get_key(cache, kid, now, fetched);
            match kres {
                Err(_) => (cache2, Err(TokenError::UnknownKey)),
                Ok(key) => (cache2, spec_validate_with_key(key, token, now, audience, issuer)),
            }
        },
    }
}

/// Validate an identity token, refreshing the key cache first when it is
/// due. `fetched` is the outcome of the provider fetch the caller performed
/// (`None` for a network or parse failure); as in [`KeyCache::get_key`], it
/// is consulted only when a refresh is due, and any failure to resolve the
/// key surfaces as `UnknownKey`.
pub fn validate_bearer_identity_token(
    cache: &mut KeyCache,
    token: &String,
    now: u64,
    config: &ValidatorConfig,
    fetched: Option<Vec<SigningKey>>,
) -> (r: Result<String, TokenError>)
    requires
        now + KEY_TTL_SECONDS <= u64::MAX,
    ensures
        ({
            let (cache2, vres) = spec_validate_refreshing(
                old(cache)@,
                token@,
                now,
                config@.audience,
                config@.issuer,
                fetched.deep_view(),
            );
            final(cache)@ == cache2 && res_view(r) == vres
        }),
{
    let kid = match header_kid(token) {
        Some(k) => k,
        None => return Err(TokenError::Malformed),
    };
    let key = match cache.get_key(&kid, now, fetched) {
        Ok(k) => k,
        Err(_) => return Err(TokenError::UnknownKey),
    };
    if !rs256_signature_valid(token, &key.n, &key.e) {
        return Err(TokenError::BadSignature);
    }
    let claims = match token_claims(token) {
        Some(c) => c,
        None => return Err(TokenError::Malformed),
    };
    check_claims(&claims, now, config)
}

/// The looser access-token path: the identity provider's introspection
/// endpoint was asked about the token, and its answer — the subject, or a
/// refusal — is trusted verbatim. The caller performs the network call and
/// hands in what came back.
pub fn validate_bearer_access_token(introspection: Option<String>) -> (r: Result<
    String,
    TokenError,
>)
    ensures
        res_view(r) == match introspection {
            Some(sub) => Ok::<Seq<char>, TokenError>(sub@),
            None => Err(TokenError::Invalid),
        },
{
    match introspection {
        Some(sub) => Ok(sub),
        None => Err(TokenError::Invalid),
    }
}

/// An unverifiable signature decides alone: whenever the token's key resolves
/// but its signature does not verify, validation fails `BadSignature` — never
/// `Expired` or any later kind, whatever the claims would say.
pub proof fn lemma_bad_signature_checked_first(
    keys: Seq<SigningKeyView>,
    token: Seq<char>,
    now: u64,
    audience: Seq<char>,
    issuer: Seq<char>,
    kid: Seq<char>,
    key: SigningKeyView,
)
    requires
        header_kid_of(token) == Some(kid),
        spec_lookup(keys, kid) == Some(key),
        !rs256_sig_ok(token, key.n, key.e),
    ensures
        spec_validate(keys, token, now, audience, issuer) == Err::<Seq<char>, TokenError>(
            TokenError::BadSignature,
        ),
{
}

/// Once the signature verifies, the temporal checks run in order: a token
/// both not-yet-valid and expired fails `NotYetValid`, and an expired token
/// with a bad audience fails `Expired`.
pub proof fn lemma_claim_check_order(c: ClaimsView, now: u64, audience: Seq<char>, issuer: Seq<char>)
    ensures
        now + CLOCK_SKEW_SECONDS < c.nbf ==> spec_check_claims(c, now, audience, issuer) == Err::<
            Seq<char>,
            TokenError,
        >(TokenError::NotYetValid),
        !(now + CLOCK_SKEW_SECONDS < c.nbf) && now > c.exp ==> spec_check_claims(
            c,
            now,
            audience,
            issuer,
        ) == Err::<Seq<char>, TokenError>(TokenError::Expired),
{
}

} // verus!
