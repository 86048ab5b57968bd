//! The HTTP-layer gate in front of every transport: extract the bearer
//! token from the `Authorization` header, validate it, and either produce
//! an authenticated context carrying the verified subject or reject with a
//! uniform, detail-free refusal.

use vstd::prelude::*;
use vstd::string::{StringExecFns, StrSliceExecFns};
use crate::keys::JWKS;
use crate::token::{check_token, spec_check_token, view_opt_str};

verus! {

/// Per-request context created only by successful authentication; carries
/// the verified subject, used downstream as the tenant identifier.
#[derive(Clone, Debug)]
pub struct AuthenticatedContext {
    pub subject: String,
}

/// The uniform rejection at the boundary. Deliberately carries nothing, so
/// no validation detail can leak to the client; the step that failed is
/// known only to the caller that logs it.
#[derive(Clone, Copy, Debug, PartialEq, Eq, Structural)]
pub struct Unauthorized;

/// The token part of an `Authorization` header value: what follows the
/// literal, case-sensitive prefix `Bearer `; absent when the header does
/// not start with that prefix.
pub open spec fn spec_bearer_token(h: Seq<char>) -> Option<Seq<char>> {
    if h.len() >= 7 && h.subrange(0, 7) == "Bearer "@ {
        Some(h.skip(7))
    } else {
        None
    }
}

/// Strips the `Bearer ` prefix from an `Authorization` header value.
pub fn bearer_token<'a>(header: &'a str) -> (r: Option<&'a str>)
    ensures
        match r {
            Some(t) => spec_bearer_token(header@) == Some(t@),
            None => spec_bearer_token(header@) is None,
        },
{
    let n = header.unicode_len();
    if n < 7 {
        return None;
    }
    let prefix = String::from_str(header.substring_char(0, 7));
    let expect = String::from_str("Bearer ");
    if prefix.eq(&expect) {
        let rest = header.substring_char(7, n);
        proof {
            assert(header@.skip(7) =~= header@.subrange(7, header@.len() as int));
        }
        Some(rest)
    } else {
        None
    }
}

/// What the middleware decides for a request: the verified subject when the
/// `Authorization` header is present, carries a `Bearer ` token, and that
/// token validates; nothing otherwise.
pub open spec fn spec_authenticate(
    keys: Seq<crate::keys::JWK>,
    expected_aud: Option<Seq<char>>,
    header: Option<Seq<char>>,
    now: u64,
) -> Option<Seq<char>> {
    match header {
        None => None,
        Some(h) => match spec_bearer_token(h) {
            None => None,
            Some(tok) => match spec_check_token(keys, expected_aud, tok, now) {
                Ok(claims) => Some(claims.0),
                Err(_) => None,
            },
        },
    }
}

/// The middleware's decision for one request: reject when the header is
/// absent or lacks the `Bearer ` prefix, otherwise validate the token and,
/// on success, attach the verified subject to a fresh context. Both
/// transports run exactly this function, so policy cannot drift between
/// them.
pub fn authenticate(
    header: Option<&String>,
    keys: &JWKS,
    expected_aud: &Option<String>,
    now: u64,
) -> (r: Result<AuthenticatedContext, Unauthorized>)
    ensures
        match r {
            Ok(ctx) => spec_authenticate(
                keys.keys@,
                view_opt_str(*expected_aud),
                spec_header_view(header),
                now,
            ) == Some(ctx.subject@),
            Err(_) => spec_authenticate(
                keys.keys@,
                view_opt_str(*expected_aud),
                spec_header_view(header),
                now,
            ) is None,
        },
{
    let h = match header {
        Some(h) => h,
        None => return Err(Unauthorized),
    };
    let tok = match bearer_token(h.as_str()) {
        Some(t) => t,
        None => return Err(Unauthorized),
    };
    match check_token(tok, keys, expected_aud, now) {
        Ok(claims) => Ok(AuthenticatedContext { subject: claims.sub }),
        Err(_) => Err(Unauthorized),
    }
}

/// The view of an optional borrowed header value.
pub open spec fn spec_header_view(header: Option<&String>) -> Option<Seq<char>> {
    match header {
        Some(h) => Some(h@),
        None => None,
    }
}

/// Law: a request with no `Authorization` header, or one whose value does
/// not begin with `Bearer `, is rejected outright — for every key set,
/// audience configuration and clock reading alike, so the token validator
/// can play no part in the outcome.
pub proof fn lemma_no_bearer_rejected(
    keys: Seq<crate::keys::JWK>,
    expected_aud: Option<Seq<char>>,
    header: Option<Seq<char>>,
    now: u64,
)
    requires
        match header {
            None => true,
            Some(h) => spec_bearer_token(h) is None,
        },
    ensures
        spec_authenticate(keys, expected_aud, header, now) is None,
{
}

} // verus!
