use vstd::prelude::*;

use crate::error::Error;
use crate::json::{JsonModel, as_int, as_str, get_i64_field, get_string_field, int_field,
    json_as_i64, json_as_string, json_get, json_model, json_of_text, json_parse, obj_field,
    str_field};
use crate::strs::str_eq;

verus! {

/// The kind of token the provider hands out.
#[derive(Debug, Clone, Copy)]
pub enum TokenType {
    Bearer,
}

/// One successful answer of the token endpoint, stamped locally with the
/// moment it was received.
#[derive(Debug, Clone)]
pub struct TokenResponse {
    pub token_type: Option<TokenType>,
    pub access_token: String,
    /// The access token's lifetime in seconds.
    pub expires_in: i64,
    pub refresh_token: Option<String>,
    /// The refresh token's lifetime in seconds, when the provider declares one.
    pub refresh_expires_in: Option<i64>,
    /// Seconds since the epoch at the moment the response was received.
    pub issued_at: i64,
}

/// The request shapes sent to the token endpoint.
#[derive(Debug, Clone, Copy)]
pub enum ClientGrant<'a> {
    ClientCredentials { id: &'a str, secret: &'a str },
    RefreshToken { refresh_token: &'a str },
}

/// What a call for a currently valid token must do next.
#[derive(Debug, Clone)]
pub enum AuthAction {
    /// The cached access token is still valid; no network call is owed.
    UseCached(String),
    /// The access token lapsed but a usable refresh token exists: perform a
    /// refresh grant with it.
    Refresh(String),
    /// No usable credential is cached: perform a client-credentials grant.
    Credentials,
}

impl TokenResponse {
    /// The access token has lapsed once its lifetime has fully elapsed.
    pub open spec fn access_expired(self, now: int) -> bool {
        self.issued_at + self.expires_in <= now
    }

    /// A refresh token is usable while it exists and its declared lifetime,
    /// if any, has not elapsed; an undeclared lifetime never elapses.
    pub open spec fn refresh_usable(self, now: int) -> bool {
        &&& self.refresh_token is Some
        &&& match self.refresh_expires_in {
            None => true,
            Some(d) => self.issued_at + d > now,
        }
    }

    /// Whether the access token has expired at `now`.
    pub fn is_access_expired(&self, now: i64) -> (r: bool)
        ensures
            r == self.access_expired(now as int),
    {
        match self.issued_at.checked_add(self.expires_in) {
            Some(s) => s <= now,
            None => self.expires_in < 0,
        }
    }

    /// The refresh token, if it is still usable at `now`.
    pub fn valid_refresh_token(&self, now: i64) -> (r: Option<&String>)
        ensures
            r is Some <==> self.refresh_usable(now as int),
            r matches Some(rt) ==> *rt == self.refresh_token->0,
    {
        match (&self.refresh_token, &self.refresh_expires_in) {
            (Some(rt), None) => Some(rt),
            (Some(rt), Some(d)) => match self.issued_at.checked_add(*d) {
                Some(s) => if s > now {
                    Some(rt)
                } else {
                    None
                },
                None => if *d >= 0 {
                    Some(rt)
                } else {
                    None
                },
            },
            (None, _) => None,
        }
    }
}

/// The action owed for a given cache state at a given moment: a cached,
/// unexpired token is reused; an expired one with a usable refresh token
/// is refreshed; anything else calls for a fresh client-credentials grant.
pub open spec fn plan_spec(cached: Option<TokenResponse>, now: int) -> AuthAction {
    match cached {
        None => AuthAction::Credentials,
        Some(t) => if !t.access_expired(now) {
            AuthAction::UseCached(t.access_token)
        } else if t.refresh_usable(now) {
            AuthAction::Refresh(t.refresh_token->0)
        } else {
            AuthAction::Credentials
        },
    }
}

/// Decides what a call for a valid token must do, from the shared cache
/// state and the current moment. A token known to be expired is never handed
/// out.
pub fn plan_authentication(cached: &Option<TokenResponse>, now: i64) -> (a: AuthAction)
    ensures
        a == plan_spec(*cached, now as int),
{
    match cached {
        Some(t) => {
            if !t.is_access_expired(now) {
                AuthAction::UseCached(t.access_token.clone())
            } else {
                match t.valid_refresh_token(now) {
                    Some(rt) => AuthAction::Refresh(rt.clone()),
                    None => AuthAction::Credentials,
                }
            }
        },
        None => AuthAction::Credentials,
    }
}

/// Decides what follows a failed grant: a failed refresh falls back to a
/// fresh client-credentials grant; a failed client-credentials grant ends
/// the attempt, and the cache stays untouched either way.
pub fn plan_after_grant_failure(failed: &AuthAction) -> (r: Option<AuthAction>)
    ensures
        failed is Refresh <==> r == Some(AuthAction::Credentials),
        !(failed is Refresh) ==> r is None,
{
    match failed {
        AuthAction::Refresh(_) => Some(AuthAction::Credentials),
        _ => None,
    }
}

/// Relies on std::time::SystemTime::now, read against the Unix epoch: some
/// moment, in seconds since the epoch, negative for a clock set before it.
/// Nothing is assumed about its value.
#[verifier::external_body]
pub fn now_unix() -> (r: i64) {
    match std::time::SystemTime::now().duration_since(std::time::UNIX_EPOCH) {
        Ok(since) => since.as_secs() as i64,
        Err(before) => -(before.duration().as_secs() as i64),
    }
}

/// The shape of a success body of the token endpoint: a token string, an
/// integral lifetime in seconds, and three optional fields of the right
/// kinds (the token kind, when given, names a bearer token).
pub open spec fn token_body_ok(m: JsonModel) -> bool {
    &&& str_field(m, "access_token"@) is Some
    &&& int_field(m, "expires_in"@) is Some
    &&& match obj_field(m, "token_type"@) {
        None => true,
        Some(j) => as_str(j) == Some("Bearer"@) || as_str(j) == Some("bearer"@),
    }
    &&& match obj_field(m, "refresh_token"@) {
        None => true,
        Some(j) => as_str(j) is Some,
    }
    &&& match obj_field(m, "refresh_expires_in"@) {
        None => true,
        Some(j) => as_int(j) is Some,
    }
}

/// Whether `body` is a well-shaped success reply of the token endpoint.
pub open spec fn token_reply_ok(body: Seq<char>) -> bool {
    json_of_text(body) matches Some(m) && token_body_ok(m)
}

/// How a parsed token response mirrors the body it came from, with the
/// issuance instant stamped locally.
pub open spec fn token_response_matches(t: TokenResponse, m: JsonModel, now: int) -> bool {
    &&& Some(t.access_token@) == str_field(m, "access_token"@)
    &&& Some(t.expires_in) == int_field(m, "expires_in"@)
    &&& (t.token_type is Some <==> obj_field(m, "token_type"@) is Some)
    &&& t.refresh_token.deep_view() == match obj_field(m, "refresh_token"@) {
        Some(j) => as_str(j),
        None => None,
    }
    &&& t.refresh_expires_in == match obj_field(m, "refresh_expires_in"@) {
        Some(j) => as_int(j),
        None => None,
    }
    &&& t.issued_at == now
}

/// Reads a success body of the token endpoint: succeeds exactly on a
/// well-shaped body, whose fields it hands out unchanged. The issuance
/// instant is stamped from `now`, not taken from the provider.
pub fn parse_token_response(body: &str, now: i64) -> (r: Result<TokenResponse, Error>)
    ensures
        r is Ok <==> token_reply_ok(body@),
        r matches Ok(t) ==> (json_of_text(body@) matches Some(m) && token_response_matches(
            t,
            m,
            now as int,
        )),
        r matches Err(e) ==> e is Http,
{
    let v = match json_parse(body) {
        Ok(v) => v,
        Err(e) => {
            return Err(e);
        },
    };
    let access_token = match get_string_field(&v, "access_token") {
        Some(s) => s,
        None => {
            return Err(Error::Http("the body carries no access token".to_owned()));
        },
    };
    let expires_in = match get_i64_field(&v, "expires_in") {
        Some(n) => n,
        None => {
            return Err(Error::Http("the body carries no access lifetime".to_owned()));
        },
    };
    let token_type = match crate::json::json_get(&v, "token_type") {
        Some(tt) => match crate::json::json_as_string(tt) {
            Some(s) => {
                if str_eq(s.as_str(), "Bearer") || str_eq(s.as_str(), "bearer") {
                    Some(TokenType::Bearer)
                } else {
                    return Err(Error::Http("the token kind is unknown".to_owned()));
                }
            },
            None => {
                return Err(Error::Http("the token kind is unknown".to_owned()));
            },
        },
        None => None,
    };
    let refresh_token = match crate::json::json_get(&v, "refresh_token") {
        Some(rt) => match crate::json::json_as_string(rt) {
            Some(s) => Some(s),
            None => {
                return Err(Error::Http("the refresh token is not a string".to_owned()));
            },
        },
        None => None,
    };
    let refresh_expires_in = match crate::json::json_get(&v, "refresh_expires_in") {
        Some(re) => match crate::json::json_as_i64(re) {
            Some(n) => Some(n),
            None => {
                return Err(Error::Http("the refresh lifetime is not an integer".to_owned()));
            },
        },
        None => None,
    };
    Ok(
        TokenResponse {
            token_type,
            access_token,
            expires_in,
            refresh_token,
            refresh_expires_in,
            issued_at: now,
        },
    )
}

/// The shape of an error body of the token endpoint: an error code, and
/// an optional human-readable description.
pub open spec fn error_body_ok(m: JsonModel) -> bool {
    &&& str_field(m, "error"@) is Some
    &&& match obj_field(m, "error_description"@) {
        None => true,
        Some(j) => as_str(j) is Some,
    }
}

/// Whether `body` is a well-shaped error reply of the token endpoint.
pub open spec fn error_reply_ok(body: Seq<char>) -> bool {
    json_of_text(body) matches Some(m) && error_body_ok(m)
}

/// The description an error body carries, if any.
pub open spec fn description_field(m: JsonModel) -> Option<Seq<char>> {
    match obj_field(m, "error_description"@) {
        Some(j) => as_str(j),
        None => None,
    }
}

/// Reads an error body of the token endpoint: succeeds exactly on a
/// well-shaped body, handing its error code and description out unchanged.
pub fn parse_error_payload(body: &str) -> (r: Option<(String, Option<String>)>)
    ensures
        r is Some <==> error_reply_ok(body@),
        r matches Some(p) ==> (json_of_text(body@) matches Some(m) && Some(p.0@) == str_field(
            m,
            "error"@,
        ) && p.1.deep_view() == description_field(m)),
{
    let v = match json_parse(body) {
        Ok(v) => v,
        Err(_) => {
            return None;
        },
    };
    let code = match get_string_field(&v, "error") {
        Some(s) => s,
        None => {
            return None;
        },
    };
    let description = match crate::json::json_get(&v, "error_description") {
        Some(d) => match crate::json::json_as_string(d) {
            Some(s) => Some(s),
            None => {
                return None;
            },
        },
        None => None,
    };
    Some((code, description))
}

/// Classifies one answer of the token endpoint. A success status yields a
/// credential exactly when its body is well-shaped, with the body's fields
/// handed out unchanged; a failure status carrying the provider's error
/// payload surfaces as an authentication error holding that payload's code
/// and description, any other failure as a transport or decoding error.
/// No error path yields a credential.
pub fn interpret_token_reply(success: bool, body: &str, now: i64) -> (r: Result<
    TokenResponse,
    Error,
>)
    ensures
        r matches Ok(t) ==> success && t.issued_at == now,
        success ==> (r is Ok <==> token_reply_ok(body@)),
        r matches Ok(t) ==> (json_of_text(body@) matches Some(m) && token_response_matches(
            t,
            m,
            now as int,
        )),
        !success ==> r is Err,
        !success && error_reply_ok(body@) ==> (r matches Err(e) && e matches Error::Authentication {
            code,
            description,
        } && Some(code@) == str_field(json_of_text(body@)->0, "error"@) && description.deep_view()
            == description_field(json_of_text(body@)->0)),
        !success && !error_reply_ok(body@) ==> (r matches Err(e) && e is Http),
        r matches Err(e) ==> (e is Http || (e is Authentication && !success)),
{
    if success {
        parse_token_response(body, now)
    } else {
        match parse_error_payload(body) {
            Some((code, description)) => Err(Error::Authentication { code, description }),
            None => Err(Error::Http("the error payload could not be decoded".to_owned())),
        }
    }
}

/// Law: a fresh manager answers two immediate calls with one grant. The
/// first call, seeing an empty cache, plans the one client-credentials
/// grant; once its result with a positive lifetime is cached, a call at the
/// same moment reuses exactly that access token and plans no further grant.
pub proof fn lemma_single_grant_for_fresh_manager(resp: TokenResponse, now: int)
    requires
        resp.issued_at == now,
        resp.expires_in > 0,
    ensures
        plan_spec(None::<TokenResponse>, now) is Credentials,
        plan_spec(Some(resp), now) == AuthAction::UseCached(resp.access_token),
{
}

/// Law: an expired access token is never handed out again. Once the access
/// lifetime has elapsed, the plan is a refresh grant when a usable refresh
/// token exists, else a client-credentials grant — never the cached token.
pub proof fn lemma_expired_token_never_reused(t: TokenResponse, now: int)
    requires
        t.access_expired(now),
    ensures
        !(plan_spec(Some(t), now) is UseCached),
        t.refresh_usable(now) ==> plan_spec(Some(t), now) == AuthAction::Refresh(
            t.refresh_token->0,
        ),
        !t.refresh_usable(now) ==> plan_spec(Some(t), now) is Credentials,
{
}

/// Law: a refresh token with no declared lifetime is usable at any moment;
/// one whose declared lifetime has elapsed is not.
pub proof fn lemma_refresh_lifetime(t: TokenResponse, now: int)
    requires
        t.refresh_token is Some,
    ensures
        t.refresh_expires_in is None ==> t.refresh_usable(now),
        t.refresh_expires_in matches Some(d) && t.issued_at + d <= now ==> !t.refresh_usable(now),
{
}

} // verus!
