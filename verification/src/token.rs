//! Bearer-token validation: parse the token header, resolve the signing key
//! by `kid`, check the declared algorithm, verify the RS256 signature, then
//! check expiry and audience. Each step short-circuits with its own error;
//! claims are only ever produced by a fully successful run.

use vstd::prelude::*;
use vstd::string::StringExecFns;
use crate::keys::{spec_find_key, JWK, JWKS};

verus! {

/// Claims carried by a verified token: the subject (used downstream as the
/// tenant identifier), the expiry as seconds since the Unix epoch, and the
/// audience the token was issued for.
#[derive(Clone, Debug)]
pub struct Claims {
    pub sub: String,
    pub exp: u64,
    pub aud: Option<String>,
}

/// Why a token was rejected. Collapsed to one uniform response at the HTTP
/// boundary; the distinction exists for internal logging and for callers of
/// the validator itself.
#[derive(Clone, Copy, Debug, PartialEq, Eq, Structural)]
pub enum AuthError {
    MalformedToken,
    UnknownKey,
    AlgorithmMismatch,
    BadSignature,
    Expired,
    AudienceMismatch,
}

/// The view of an optional string.
pub open spec fn view_opt_str(o: Option<String>) -> Option<Seq<char>> {
    match o {
        Some(s) => Some(s@),
        None => None,
    }
}

/// What parsing a token's protected header yields: its `kid`, if present,
/// and whether the declared algorithm is RS256. `None` when the token is
/// not three dot-separated parts with a well-formed header.
pub uninterp spec fn jwt_header_of(t: Seq<char>) -> Option<(Option<Seq<char>>, bool)>;

/// What decoding a token's payload yields: the `sub`, `exp` and `aud`
/// claims. `None` when the payload is not a JSON object carrying a string
/// `sub` and an integer `exp`.
pub uninterp spec fn jwt_claims_of(t: Seq<char>) -> Option<(Seq<char>, u64, Option<Seq<char>>)>;

/// Whether a token's signature verifies as RS256 under the RSA public key
/// with base64url modulus `n` and exponent `e`.
pub uninterp spec fn rs256_sig_of(t: Seq<char>, n: Seq<char>, e: Seq<char>) -> bool;

/// Relies on jsonwebtoken::decode_header: parses the header part of the
/// token without verifying anything; the result is a function of the token
/// text alone. A header whose algorithm name is unknown to jsonwebtoken
/// fails to parse and yields `None` here.
#[verifier::external_body]
fn parse_header(token: &str) -> (r: Option<(Option<String>, bool)>)
    ensures
        r matches Some(h) ==> jwt_header_of(token@) == Some((view_opt_str(h.0), h.1)),
        r is None ==> jwt_header_of(token@) is None,
{
    match jsonwebtoken::decode_header(token) {
        Ok(h) => Some((h.kid, matches!(h.alg, jsonwebtoken::Algorithm::RS256))),
        Err(_) => None,
    }
}

/// Relies on jsonwebtoken::insecure_decode_claims: decodes the payload part
/// of the token with no validation at all; the result is a function of the
/// token text alone. A non-string `aud` is treated as absent.
#[verifier::external_body]
fn parse_claims(token: &str) -> (r: Option<Claims>)
    ensures
        r matches Some(c) ==> jwt_claims_of(token@) == Some((c.sub@, c.exp, view_opt_str(c.aud))),
        r is None ==> jwt_claims_of(token@) is None,
{
    let data: serde_json::Value = jsonwebtoken::dangerous::insecure_decode_claims(token).ok()?;
    let sub = data.get("sub")?.as_str()?.to_owned();
    let exp = data.get("exp")?.as_u64()?;
    let aud = data.get("aud").and_then(|a| a.as_str()).map(|s| s.to_owned());
    Some(Claims { sub, exp, aud })
}

/// Relies on jsonwebtoken::decode over a key built by
/// DecodingKey::from_rsa_components, with expiry and audience checks
/// disabled: true exactly when the token is well-formed, declares RS256,
/// carries a JSON payload, and its signature verifies under the key
/// material — a function of the arguments alone. Unusable key material
/// (modulus or exponent that is not base64url) verifies nothing.
#[verifier::external_body]
fn verify_rs256(token: &str, n: &str, e: &str) -> (r: bool)
    ensures
        r == rs256_sig_of(token@, n@, e@),
{
    let key = match jsonwebtoken::DecodingKey::from_rsa_components(n, e) {
        Ok(k) => k,
        Err(_) => return false,
    };
    let mut validation = jsonwebtoken::Validation::new(jsonwebtoken::Algorithm::RS256);
    validation.validate_exp = false;
    validation.validate_aud = false;
    validation.required_spec_claims = std::collections::HashSet::new();
    jsonwebtoken::decode::<serde_json::Value>(token, &key, &validation).is_ok()
}

/// The whole validation pipeline as a function: what `check_token` returns
/// for a given key set, audience configuration, token and clock reading.
pub open spec fn spec_check_token(
    keys: Seq<JWK>,
    expected_aud: Option<Seq<char>>,
    token: Seq<char>,
    now: u64,
) -> Result<(Seq<char>, u64, Option<Seq<char>>), AuthError> {
    match jwt_header_of(token) {
        None => Err(AuthError::MalformedToken),
        Some(header) => match header.0 {
            None => Err(AuthError::MalformedToken),
            Some(kid) => match spec_find_key(keys, kid) {
                None => Err(AuthError::UnknownKey),
                Some(jwk) => if !(header.1 && jwk.alg@ == "RS256"@) {
                    Err(AuthError::AlgorithmMismatch)
                } else if !rs256_sig_of(token, jwk.n@, jwk.e@) {
                    Err(AuthError::BadSignature)
                } else {
                    match jwt_claims_of(token) {
                        None => Err(AuthError::MalformedToken),
                        Some(claims) => if claims.1 <= now {
                            Err(AuthError::Expired)
                        } else if expected_aud is Some && claims.2 != expected_aud {
                            Err(AuthError::AudienceMismatch)
                        } else {
                            Ok(claims)
                        },
                    }
                },
            },
        },
    }
}

/// Validates a bearer token against the published key set, in order: header
/// parse, `kid` lookup, algorithm check, RS256 signature, expiry (`exp`
/// strictly after `now`), then audience when one is configured. Read-only
/// against shared state; the caller supplies the clock reading.
pub fn check_token(
    token: &str,
    keys: &JWKS,
    expected_aud: &Option<String>,
    now: u64,
) -> (r: Result<Claims, AuthError>)
    ensures
        match r {
            Ok(c) => spec_check_token(keys.keys@, view_opt_str(*expected_aud), token@, now)
                == Ok::<_, AuthError>((c.sub@, c.exp, view_opt_str(c.aud))),
            Err(e) => spec_check_token(keys.keys@, view_opt_str(*expected_aud), token@, now)
                == Err::<(Seq<char>, u64, Option<Seq<char>>), _>(e),
        },
{
    let header = match parse_header(token) {
        Some(h) => h,
        None => return Err(AuthError::MalformedToken),
    };
    let kid = match header.0 {
        Some(k) => k,
        None => return Err(AuthError::MalformedToken),
    };
    let jwk = match keys.find_key(&kid) {
        Some(j) => j,
        None => return Err(AuthError::UnknownKey),
    };
    let rs256 = String::from_str("RS256");
    proof {
        reveal_strlit("RS256");
    }
    if !(header.1 && jwk.alg.eq(&rs256)) {
        return Err(AuthError::AlgorithmMismatch);
    }
    if !verify_rs256(token, jwk.n.as_str(), jwk.e.as_str()) {
        return Err(AuthError::BadSignature);
    }
    let claims = match parse_claims(token) {
        Some(c) => c,
        None => return Err(AuthError::MalformedToken),
    };
    if claims.exp <= now {
        return Err(AuthError::Expired);
    }
    match expected_aud {
        Some(ea) => match &claims.aud {
            Some(a) => if !a.eq(ea) {
                return Err(AuthError::AudienceMismatch);
            },
            None => return Err(AuthError::AudienceMismatch),
        },
        None => {},
    }
    Ok(claims)
}

/// Law: a token signed with a key present in the key set, declared RS256
/// against an RS256 key, whose claims parse, whose expiry lies strictly
/// after the clock reading, and whose audience matches the configured one,
/// validates successfully and yields exactly the token's own subject,
/// expiry and audience.
pub proof fn lemma_valid_token_accepted(
    keys: Seq<JWK>,
    expected_aud: Option<Seq<char>>,
    token: Seq<char>,
    now: u64,
    kid: Seq<char>,
    jwk: JWK,
    claims: (Seq<char>, u64, Option<Seq<char>>),
)
    requires
        jwt_header_of(token) == Some((Some(kid), true)),
        spec_find_key(keys, kid) == Some(jwk),
        jwk.alg@ == "RS256"@,
        rs256_sig_of(token, jwk.n@, jwk.e@),
        jwt_claims_of(token) == Some(claims),
        claims.1 > now,
        expected_aud is Some ==> claims.2 == expected_aud,
    ensures
        spec_check_token(keys, expected_aud, token, now) == Ok::<_, AuthError>(claims),
{
}

/// Law: a token whose `kid` is absent from the key set is rejected as
/// `UnknownKey`, whatever its signature, claims or expiry.
pub proof fn lemma_unknown_key_rejected(
    keys: Seq<JWK>,
    expected_aud: Option<Seq<char>>,
    token: Seq<char>,
    now: u64,
    kid: Seq<char>,
    is_rs256: bool,
)
    requires
        jwt_header_of(token) == Some((Some(kid), is_rs256)),
        spec_find_key(keys, kid) is None,
    ensures
        spec_check_token(keys, expected_aud, token, now) == Err::<(Seq<char>, u64, Option<Seq<char>>), _>(AuthError::UnknownKey),
{
}

/// Law: a token whose `exp` does not lie strictly after the clock reading
/// is rejected as `Expired`, even when its signature is valid under the
/// resolved key.
pub proof fn lemma_expired_token_rejected(
    keys: Seq<JWK>,
    expected_aud: Option<Seq<char>>,
    token: Seq<char>,
    now: u64,
    kid: Seq<char>,
    jwk: JWK,
    claims: (Seq<char>, u64, Option<Seq<char>>),
)
    requires
        jwt_header_of(token) == Some((Some(kid), true)),
        spec_find_key(keys, kid) == Some(jwk),
        jwk.alg@ == "RS256"@,
        rs256_sig_of(token, jwk.n@, jwk.e@),
        jwt_claims_of(token) == Some(claims),
        claims.1 <= now,
    ensures
        spec_check_token(keys, expected_aud, token, now) == Err::<(Seq<char>, u64, Option<Seq<char>>), _>(AuthError::Expired),
{
}

} // verus!
