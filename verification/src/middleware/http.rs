use vstd::prelude::*;

use crate::error::Error;
use crate::jwt::{JwtDecoder, claims_match_payload, payload_accepted, payload_of};
use crate::token::{Claims, claims_valid_at};

verus! {

/// The marker of the middleware that guards incoming requests.
pub struct ServerMode;

/// The marker of the middleware that authenticates outgoing requests.
pub struct ClientMode;

/// Why an incoming request was turned away. The kinds stay apart for
/// logging; at the boundary they all surface as "unauthenticated".
#[derive(Debug, Clone, Copy)]
pub enum ServerAuthError {
    MissingHeader,
    InvalidHeader,
    InvalidToken,
}

impl ServerAuthError {
    /// The log line for this rejection.
    pub fn message(&self) -> (r: &'static str)
        ensures
            self is MissingHeader ==> r@ == "missing authorization header"@,
            self is InvalidHeader ==> r@ == "invalid authorization header"@,
            self is InvalidToken ==> r@ == "invalid token"@,
    {
        match self {
            ServerAuthError::MissingHeader => "missing authorization header",
            ServerAuthError::InvalidHeader => "invalid authorization header",
            ServerAuthError::InvalidToken => "invalid token",
        }
    }
}

/// An authorization header as the transport saw it: absent, present but
/// not representable as text, or its text.
#[derive(Debug, Clone)]
pub enum AuthHeader {
    Missing,
    NotText,
    Text(String),
}

/// What successful inbound authentication attaches to a request: the
/// validated claims and the raw authorization value they came from.
#[derive(Debug, Clone)]
pub struct RequestAuthorization {
    claims: Claims,
    auth_header: String,
}

impl RequestAuthorization {
    /// The attached claims.
    pub closed spec fn claims_spec(self) -> Claims {
        self.claims
    }

    /// The raw authorization text the claims were validated from.
    pub closed spec fn header_spec(self) -> Seq<char> {
        self.auth_header@
    }

    pub fn claims(&self) -> (r: &Claims)
        ensures
            *r == self.claims_spec(),
    {
        &self.claims
    }

    pub fn authorization_header(&self) -> (r: &str)
        ensures
            r@ == self.header_spec(),
    {
        self.auth_header.as_str()
    }
}

/// The text that announces a bearer credential.
pub open spec fn bearer_prefix() -> Seq<char> {
    seq!['B', 'e', 'a', 'r', 'e', 'r', ' ']
}

/// Whether `s` starts with the bearer prefix.
pub open spec fn has_bearer_prefix(s: Seq<char>) -> bool {
    s.len() >= 7 && s.subrange(0, 7) == bearer_prefix()
}

/// The remainder of `s` after the bearer prefix, if `s` carries it.
pub fn strip_bearer(s: &str) -> (r: Option<&str>)
    ensures
        r is Some <==> has_bearer_prefix(s@),
        r matches Some(t) ==> t@ == s@.skip(7),
{
    let len = s.unicode_len();
    if len < 7 {
        return None;
    }
    if s.get_char(0) == 'B' && s.get_char(1) == 'e' && s.get_char(2) == 'a' && s.get_char(3) == 'r'
        && s.get_char(4) == 'e' && s.get_char(5) == 'r' && s.get_char(6) == ' ' {
        proof {
            assert(s@.subrange(0, 7) =~= bearer_prefix());
            assert(s@.skip(7) =~= s@.subrange(7, s@.len() as int));
        }
        Some(s.substring_char(7, len))
    } else {
        proof {
            if s@.subrange(0, 7) == bearer_prefix() {
                assert(s@[0] == 'B' && s@[1] == 'e' && s@[2] == 'a' && s@[3] == 'r' && s@[4] == 'e'
                    && s@[5] == 'r' && s@[6] == ' ') by {
                    assert(forall|i: int| 0 <= i < 7 ==> s@.subrange(0, 7)[i] == s@[i]);
                }
            }
        }
        None
    }
}

/// Decides one incoming request. A request already carrying claims passes
/// through untouched; otherwise the authorization header must exist, be
/// text, and carry a bearer token that validates — each failure is turned
/// away with its own kind, and the inner handler sees nothing of it.
pub fn authorize_inbound(
    decoder: &JwtDecoder,
    already_authorized: bool,
    header: AuthHeader,
    now: i64,
) -> (r: Result<Option<RequestAuthorization>, ServerAuthError>)
    ensures
        already_authorized ==> r == Ok::<Option<RequestAuthorization>, ServerAuthError>(None),
        !already_authorized ==> match header {
            AuthHeader::Missing => r == Err::<Option<RequestAuthorization>, ServerAuthError>(
                ServerAuthError::MissingHeader,
            ),
            AuthHeader::NotText => r == Err::<Option<RequestAuthorization>, ServerAuthError>(
                ServerAuthError::InvalidHeader,
            ),
            AuthHeader::Text(h) => (match r {
                Ok(Some(ra)) => has_bearer_prefix(h@) && ra.header_spec() == h@ && claims_valid_at(
                    ra.claims_spec(),
                    now as int,
                    decoder.issuer_names(),
                    decoder.audience_names(),
                ),
                Ok(None) => false,
                Err(e) => e is InvalidToken,
            }),
        },
        !already_authorized && (header matches AuthHeader::Text(h) && !has_bearer_prefix(h@)) ==> r
            == Err::<Option<RequestAuthorization>, ServerAuthError>(ServerAuthError::InvalidToken),
        !already_authorized ==> (header matches AuthHeader::Text(h) ==> (has_bearer_prefix(h@)
            ==> {
            &&& (r is Ok <==> decoder.decode_ok_spec(h@.skip(7), now as int))
            &&& (r matches Ok(Some(ra)) ==> (payload_of(h@.skip(7)) matches Some(m)
                && claims_match_payload(ra.claims_spec(), m) && payload_accepted(
                m,
                now as int,
                decoder.issuer_names(),
                decoder.audience_names(),
            )))
            &&& ((payload_of(h@.skip(7)) matches Some(m) && !payload_accepted(
                m,
                now as int,
                decoder.issuer_names(),
                decoder.audience_names(),
            )) ==> r is Err)
        })),
{
    if already_authorized {
        return Ok(None);
    }
    let text = match header {
        AuthHeader::Missing => {
            return Err(ServerAuthError::MissingHeader);
        },
        AuthHeader::NotText => {
            return Err(ServerAuthError::InvalidHeader);
        },
        AuthHeader::Text(h) => h,
    };
    let bearer = match strip_bearer(text.as_str()) {
        Some(b) => b,
        None => {
            return Err(ServerAuthError::InvalidToken);
        },
    };
    match decoder.decode_at(bearer, now) {
        Ok(td) => Ok(Some(RequestAuthorization { claims: td.claims, auth_header: text })),
        Err(_) => Err(ServerAuthError::InvalidToken),
    }
}

/// The authorization value announcing `token` as a bearer credential.
pub open spec fn bearer_value_spec(token: Seq<char>) -> Seq<char> {
    bearer_prefix() + token
}

/// Writes the authorization value for a bearer token.
pub fn bearer_header_value(token: &str) -> (r: String)
    ensures
        r@ == bearer_value_spec(token@),
{
    let mut s = "Bearer ".to_owned();
    proof {
        reveal_strlit("Bearer ");
        assert("Bearer "@ =~= bearer_prefix());
    }
    s.append(token);
    s
}

/// What the outbound path must do before anything is sent.
pub enum OutboundAction {
    /// The request already carries authentication context: forward it
    /// unchanged, asking the lifecycle manager for nothing.
    Forward,
    /// A bare request: ask the lifecycle manager for a token first.
    Authenticate,
}

/// The outbound re-entry guard: a request that an upstream layer already
/// authenticated passes through untouched; only a bare request asks for a
/// credential.
pub fn plan_outbound(already_authorized: bool) -> (r: OutboundAction)
    ensures
        already_authorized <==> r is Forward,
        !already_authorized <==> r is Authenticate,
{
    if already_authorized {
        OutboundAction::Forward
    } else {
        OutboundAction::Authenticate
    }
}

/// Decides one outgoing request from the outcome of authentication: a
/// token is attached as a bearer credential; a failure degrades to sending
/// the request unchanged — fail open — and is never propagated into the
/// request's own result.
pub fn outbound_authorization(auth: Result<String, Error>) -> (r: Option<String>)
    ensures
        auth matches Ok(tok) ==> r matches Some(h) && h@ == bearer_value_spec(tok@),
        auth is Err ==> r is None,
{
    match auth {
        Ok(token) => Some(bearer_header_value(token.as_str())),
        Err(_) => None,
    }
}

} // verus!
