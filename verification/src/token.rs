use vstd::prelude::*;

use crate::error::Error;
use crate::strs::{str_eq, vec_contains_str};

verus! {

/// A set of role names, as carried by the realm-level and per-resource
/// role claims of a token.
#[derive(Debug, Clone)]
pub struct RolesClaim {
    pub roles: Vec<String>,
}

/// The decoded, verified payload of a token. Values of this type are
/// produced by successful validation; all nine required claims are present.
#[derive(Debug, Clone)]
pub struct Claims {
    /// The `iss` claim.
    pub issuer: String,
    /// The `sub` claim; its text parses as a UUID.
    pub subject: String,
    /// The `aud` claim, normalized to a list (a lone string becomes one entry).
    pub audience: Vec<String>,
    /// The `exp` claim, in seconds since the epoch.
    pub expires_at: i64,
    /// The `iat` claim, in seconds since the epoch.
    pub issued_at: i64,
    /// The `jti` claim; its text parses as a UUID.
    pub id: String,
    /// The `preferred_username` claim.
    pub username: String,
    /// The `realm_access` claim.
    pub realm: RolesClaim,
    /// The `resource_access` claim: role sets keyed by resource name.
    pub resource: Vec<(String, RolesClaim)>,
}

/// The result of decoding a token.
#[derive(Debug, Clone)]
pub struct TokenData {
    pub claims: Claims,
}

/// The payload of a token whose signature has been verified, before any
/// claim checking: each required claim may still be missing.
#[derive(Debug, Clone)]
pub struct RawClaims {
    pub issuer: Option<String>,
    pub subject: Option<String>,
    pub audience: Option<Vec<String>>,
    pub expires_at: Option<i64>,
    pub issued_at: Option<i64>,
    pub id: Option<String>,
    pub username: Option<String>,
    pub realm: Option<RolesClaim>,
    pub resource: Option<Vec<(String, RolesClaim)>>,
}

/// The 128-bit value of the UUID written in `s`, if `s` is a valid UUID text.
pub uninterp spec fn uuid_of(s: Seq<char>) -> Option<u128>;

/// Relies on uuid::Uuid::parse_str and uuid::Uuid::as_u128: the parse reads
/// the characters alone, and equal UUIDs have equal 128-bit values.
#[verifier::external_body]
pub(crate) fn parse_uuid(s: &str) -> (r: Option<u128>)
    ensures
        r == uuid_of(s@),
{
    uuid::Uuid::parse_str(s).ok().map(|u| u.as_u128())
}

/// All nine claims that a token must carry to validate.
pub open spec fn required_claims_present(raw: RawClaims) -> bool {
    &&& raw.issuer is Some
    &&& raw.subject is Some
    &&& raw.audience is Some
    &&& raw.expires_at is Some
    &&& raw.issued_at is Some
    &&& raw.id is Some
    &&& raw.username is Some
    &&& raw.realm is Some
    &&& raw.resource is Some
}

/// When a verified-signature payload is accepted at time `now` against the
/// accepted issuer and audience sets: every required claim is present, the
/// token is not expired and not from the future, the issuer is accepted,
/// some audience entry is accepted, and both identifiers parse as UUIDs.
pub open spec fn claims_accepted(
    raw: RawClaims,
    now: int,
    issuers: Seq<Seq<char>>,
    audiences: Seq<Seq<char>>,
) -> bool {
    &&& required_claims_present(raw)
    &&& raw.expires_at->0 > now
    &&& raw.issued_at->0 <= now
    &&& issuers.contains(raw.issuer->0@)
    &&& exists|i: int|
        0 <= i < raw.audience->0.deep_view().len() && audiences.contains(
            raw.audience->0.deep_view()[i],
        )
    &&& uuid_of(raw.subject->0@) is Some
    &&& uuid_of(raw.id->0@) is Some
}

/// What successful validation at time `now` guarantees of the claims it
/// hands out: the token is current, its issuer and one of its audiences are
/// accepted, and both identifiers are well-formed UUIDs.
pub open spec fn claims_valid_at(
    c: Claims,
    now: int,
    issuers: Seq<Seq<char>>,
    audiences: Seq<Seq<char>>,
) -> bool {
    &&& c.expires_at > now
    &&& c.issued_at <= now
    &&& issuers.contains(c.issuer@)
    &&& exists|i: int|
        0 <= i < c.audience.deep_view().len() && audiences.contains(c.audience.deep_view()[i])
    &&& uuid_of(c.subject@) is Some
    &&& uuid_of(c.id@) is Some
}

/// True iff some entry of `token_aud` is in the accepted set.
fn audiences_intersect(token_aud: &Vec<String>, accepted: &Vec<String>) -> (r: bool)
    ensures
        r == exists|i: int|
            0 <= i < token_aud.deep_view().len() && accepted.deep_view().contains(
                token_aud.deep_view()[i],
            ),
{
    let mut i: usize = 0;
    while i < token_aud.len()
        invariant
            0 <= i <= token_aud.len(),
            forall|j: int| 0 <= j < i ==> !accepted.deep_view().contains(token_aud.deep_view()[j]),
        decreases token_aud.len() - i,
    {
        assert(token_aud.deep_view()[i as int] == token_aud[i as int]@);
        if vec_contains_str(accepted, token_aud[i].as_str()) {
            return true;
        }
        i += 1;
    }
    false
}

/// Checks a verified-signature payload against the current time and the
/// accepted issuer and audience sets. Every failure, whichever check it
/// comes from, surfaces as the same opaque "invalid token" error.
pub fn validate_claims(
    raw: RawClaims,
    now: i64,
    issuers: &Vec<String>,
    audiences: &Vec<String>,
) -> (r: Result<Claims, Error>)
    ensures
        r is Ok <==> claims_accepted(raw, now as int, issuers.deep_view(), audiences.deep_view()),
        r matches Ok(c) ==> {
            &&& c.issuer == raw.issuer->0
            &&& c.subject == raw.subject->0
            &&& c.audience == raw.audience->0
            &&& c.expires_at == raw.expires_at->0
            &&& c.issued_at == raw.issued_at->0
            &&& c.id == raw.id->0
            &&& c.username == raw.username->0
            &&& c.realm == raw.realm->0
            &&& c.resource == raw.resource->0
        },
        r matches Ok(c) ==> claims_valid_at(
            c,
            now as int,
            issuers.deep_view(),
            audiences.deep_view(),
        ),
        r matches Err(e) ==> e matches Error::Jwt(m) && m@ == "invalid token"@,
{
    let ok = match (
        &raw.issuer,
        &raw.subject,
        &raw.audience,
        &raw.expires_at,
        &raw.issued_at,
        &raw.id,
        &raw.username,
        &raw.realm,
        &raw.resource,
    ) {
        (
            Some(issuer),
            Some(subject),
            Some(audience),
            Some(expires_at),
            Some(issued_at),
            Some(id),
            Some(username),
            Some(_),
            Some(_),
        ) => {
            *expires_at > now && *issued_at <= now && vec_contains_str(issuers, issuer.as_str())
                && audiences_intersect(audience, audiences) && parse_uuid(subject.as_str()).is_some()
                && parse_uuid(id.as_str()).is_some()
        },
        _ => false,
    };
    if !ok {
        return Err(Error::Jwt("invalid token".to_owned()));
    }
    match raw {
        RawClaims {
            issuer: Some(issuer),
            subject: Some(subject),
            audience: Some(audience),
            expires_at: Some(expires_at),
            issued_at: Some(issued_at),
            id: Some(id),
            username: Some(username),
            realm: Some(realm),
            resource: Some(resource),
        } => Ok(
            Claims {
                issuer,
                subject,
                audience,
                expires_at,
                issued_at,
                id,
                username,
                realm,
                resource,
            },
        ),
        _ => Err(Error::Jwt("invalid token".to_owned())),
    }
}

/// Law: a payload whose expiration instant is not in the future is never
/// accepted, whatever its signature or its other claims say.
pub proof fn lemma_expired_claims_rejected(
    raw: RawClaims,
    now: int,
    issuers: Seq<Seq<char>>,
    audiences: Seq<Seq<char>>,
)
    requires
        raw.expires_at matches Some(e) ==> e <= now,
    ensures
        !claims_accepted(raw, now, issuers, audiences),
{
}

/// Law: a payload missing any one of the nine required claims is never
/// accepted.
pub proof fn lemma_missing_claim_rejected(
    raw: RawClaims,
    now: int,
    issuers: Seq<Seq<char>>,
    audiences: Seq<Seq<char>>,
)
    requires
        !required_claims_present(raw),
    ensures
        !claims_accepted(raw, now, issuers, audiences),
{
}

/// Pairwise distinct resource names. Claims produced by validation have
/// this, inherited from the JSON object they were read out of, and it
/// makes the first-match resource lookup a map lookup.
pub open spec fn resource_keys_distinct(rs: Seq<(String, RolesClaim)>) -> bool {
    forall|i: int, j: int| 0 <= i < j < rs.len() ==> rs[i].0@ != rs[j].0@
}

/// The role set mapped to `client` by the first matching entry, if any.
pub open spec fn resource_lookup(rs: Seq<(String, RolesClaim)>, client: Seq<char>) -> Option<
    RolesClaim,
>
    decreases rs.len(),
{
    if rs.len() == 0 {
        None
    } else if rs[0].0@ == client {
        Some(rs[0].1)
    } else {
        resource_lookup(rs.skip(1), client)
    }
}

impl Claims {
    /// True iff `rhs_id` is a valid UUID naming the token's subject.
    pub fn is_subject(&self, rhs_id: &str) -> (r: bool)
        ensures
            r == match (uuid_of(self.subject@), uuid_of(rhs_id@)) {
                (Some(a), Some(b)) => a == b,
                _ => false,
            },
    {
        match (parse_uuid(self.subject.as_str()), parse_uuid(rhs_id)) {
            (Some(a), Some(b)) => a == b,
            _ => false,
        }
    }

    /// True iff `username` is the token's preferred username.
    pub fn is_user(&self, username: &str) -> (r: bool)
        ensures
            r == (self.username@ == username@),
    {
        str_eq(self.username.as_str(), username)
    }

    /// True iff `role` appears in the realm-level role set.
    pub fn has_realm_role(&self, role: &str) -> (r: bool)
        ensures
            r == self.realm.roles.deep_view().contains(role@),
    {
        vec_contains_str(&self.realm.roles, role)
    }

    /// True iff the resource entry for `client_id` exists and contains
    /// `role`; an absent entry yields false, not an error.
    pub fn has_role(&self, client_id: &str, role: &str) -> (r: bool)
        ensures
            r == match resource_lookup(self.resource@, client_id@) {
                Some(rc) => rc.roles.deep_view().contains(role@),
                None => false,
            },
    {
        let n = self.resource.len();
        let mut i: usize = 0;
        proof {
            assert(self.resource@.skip(0) =~= self.resource@);
        }
        while i < n
            invariant
                0 <= i <= n,
                n == self.resource@.len(),
                resource_lookup(self.resource@.skip(i as int), client_id@) == resource_lookup(
                    self.resource@,
                    client_id@,
                ),
            decreases n - i,
        {
            proof {
                assert(self.resource@.skip(i as int)[0] == self.resource@[i as int]);
            }
            if str_eq(self.resource[i].0.as_str(), client_id) {
                assert(resource_lookup(self.resource@, client_id@) == Some(
                    self.resource@[i as int].1,
                ));
                return vec_contains_str(&self.resource[i].1.roles, role);
            }
            proof {
                assert(self.resource@.skip(i as int).skip(1) =~= self.resource@.skip(i as int + 1));
            }
            i += 1;
        }
        proof {
            assert(self.resource@.skip(n as int) =~= Seq::<(String, RolesClaim)>::empty());
        }
        false
    }
}

} // verus!
