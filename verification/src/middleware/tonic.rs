use vstd::prelude::*;

use crate::jwt::{JwtDecoder, claims_match_payload, payload_accepted, payload_of};
use crate::middleware::http::{AuthHeader, has_bearer_prefix, strip_bearer};
use crate::token::{Claims, claims_valid_at};

verus! {

/// Why an intercepted call was turned away, or what a handler's own
/// accessor reports: every kind but the last surfaces as "unauthenticated",
/// the last as "permission denied".
#[derive(Debug, Clone, Copy)]
pub enum RpcAuthError {
    MissingHeader,
    InvalidHeader,
    InvalidToken,
    MissingClaims,
    PermissionDenied,
}

impl RpcAuthError {
    /// The status message for this failure.
    pub fn message(&self) -> (r: &'static str)
        ensures
            self is MissingHeader ==> r@ == "missing authorization header"@,
            self is InvalidHeader ==> r@ == "invalid authorization header"@,
            self is InvalidToken ==> r@ == "invalid token"@,
            self is MissingClaims ==> r@ == "missing authentication token"@,
            self is PermissionDenied ==> r@ == "insufficient permissions"@,
    {
        match self {
            RpcAuthError::MissingHeader => "missing authorization header",
            RpcAuthError::InvalidHeader => "invalid authorization header",
            RpcAuthError::InvalidToken => "invalid token",
            RpcAuthError::MissingClaims => "missing authentication token",
            RpcAuthError::PermissionDenied => "insufficient permissions",
        }
    }

    /// Whether this failure is a permission denial rather than a missing
    /// or unusable credential.
    pub fn is_permission_denied(&self) -> (r: bool)
        ensures
            r == (self is PermissionDenied),
    {
        match self {
            RpcAuthError::PermissionDenied => true,
            _ => false,
        }
    }
}

/// Decides one intercepted call: the metadata entry keyed "authorization"
/// must exist, be text, and carry the bearer prefix; the remainder must
/// validate. A success hands back exactly the validated token's claims for
/// the call's context; every failure is turned away with its own kind.
pub fn intercept_metadata(decoder: &JwtDecoder, header: AuthHeader, now: i64) -> (r: Result<
    Claims,
    RpcAuthError,
>)
    ensures
        match header {
            AuthHeader::Missing => r == Err::<Claims, RpcAuthError>(RpcAuthError::MissingHeader),
            AuthHeader::NotText => r == Err::<Claims, RpcAuthError>(RpcAuthError::InvalidHeader),
            AuthHeader::Text(h) => (match r {
                Ok(c) => has_bearer_prefix(h@) && claims_valid_at(
                    c,
                    now as int,
                    decoder.issuer_names(),
                    decoder.audience_names(),
                ),
                Err(e) => e is InvalidToken,
            }),
        },
        header matches AuthHeader::Text(h) ==> (!has_bearer_prefix(h@) ==> r == Err::<
            Claims,
            RpcAuthError,
        >(RpcAuthError::InvalidToken)),
        header matches AuthHeader::Text(h) ==> (has_bearer_prefix(h@) ==> {
            &&& (r is Ok <==> decoder.decode_ok_spec(h@.skip(7), now as int))
            &&& (r matches Ok(c) ==> (payload_of(h@.skip(7)) matches Some(m)
                && claims_match_payload(c, m) && payload_accepted(
                m,
                now as int,
                decoder.issuer_names(),
                decoder.audience_names(),
            )))
            &&& ((payload_of(h@.skip(7)) matches Some(m) && !payload_accepted(
                m,
                now as int,
                decoder.issuer_names(),
                decoder.audience_names(),
            )) ==> r is Err)
        }),
{
    let text = match header {
        AuthHeader::Missing => {
            return Err(RpcAuthError::MissingHeader);
        },
        AuthHeader::NotText => {
            return Err(RpcAuthError::InvalidHeader);
        },
        AuthHeader::Text(h) => h,
    };
    let token = match strip_bearer(text.as_str()) {
        Some(t) => t,
        None => {
            return Err(RpcAuthError::InvalidToken);
        },
    };
    match decoder.decode_at(token, now) {
        Ok(td) => Ok(td.claims),
        Err(_) => Err(RpcAuthError::InvalidToken),
    }
}

/// A handler's accessor for the claims attached to its call: absent claims
/// fail as "unauthenticated".
pub fn context_authenticate<'a>(claims: Option<&'a Claims>) -> (r: Result<&'a Claims, RpcAuthError>)
    ensures
        claims matches Some(c) ==> r == Ok::<&'a Claims, RpcAuthError>(c),
        claims is None ==> r == Err::<&'a Claims, RpcAuthError>(RpcAuthError::MissingClaims),
{
    match claims {
        Some(c) => Ok(c),
        None => Err(RpcAuthError::MissingClaims),
    }
}

/// The companion accessor: absent claims fail as "unauthenticated", and
/// claims the caller's predicate rejects fail as "permission denied".
pub fn context_authorize<'a, F: FnOnce(&Claims) -> bool>(
    claims: Option<&'a Claims>,
    pred: F,
) -> (r: Result<&'a Claims, RpcAuthError>)
    requires
        claims matches Some(c) ==> call_requires(pred, (c,)),
    ensures
        claims is None ==> r == Err::<&'a Claims, RpcAuthError>(RpcAuthError::MissingClaims),
        r matches Ok(c) ==> claims == Some(c) && call_ensures(pred, (c,), true),
        claims matches Some(c) ==> (r is Err ==> r == Err::<&'a Claims, RpcAuthError>(
            RpcAuthError::PermissionDenied,
        ) && call_ensures(pred, (c,), false)),
{
    let c = match claims {
        Some(c) => c,
        None => {
            return Err(RpcAuthError::MissingClaims);
        },
    };
    if pred(c) {
        Ok(c)
    } else {
        Err(RpcAuthError::PermissionDenied)
    }
}

} // verus!
