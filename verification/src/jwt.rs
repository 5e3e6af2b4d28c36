use vstd::prelude::*;

use crate::config::Config;
use crate::error::Error;
use crate::json::{JsonModel, as_string_array, as_string_or_strings, get_i64_field,
    get_string_field, int_field, json_get, json_model, json_object_entries, obj_field,
    one_or_many, str_field, string_items};
use crate::strs::{clone_strings, opt_string_eq};
use crate::token::{Claims, RawClaims, RolesClaim, TokenData, claims_valid_at, uuid_of,
    validate_claims};

verus! {

#[verifier::external_type_specification]
#[verifier::external_body]
pub struct ExJwkSet(jsonwebtoken::jwk::JwkSet);

#[verifier::external_type_specification]
#[verifier::external_body]
pub struct ExJwk(jsonwebtoken::jwk::Jwk);

#[verifier::external_type_specification]
#[verifier::external_body]
pub struct ExDecodingKey(jsonwebtoken::DecodingKey);

#[verifier::external_type_specification]
#[verifier::external_body]
pub struct ExValidation(jsonwebtoken::Validation);

#[verifier::external_type_specification]
#[verifier::external_body]
pub struct ExAlgorithm(jsonwebtoken::Algorithm);

/// The key id declared by the header of `t`: `None` when the header does
/// not parse, `Some(kid)` with the optional id otherwise.
pub uninterp spec fn header_kid_of(t: Seq<char>) -> Option<Option<Seq<char>>>;

/// The payload a token carries, as JSON: what signature verification hands
/// out when it succeeds. It reads the token text alone — which key is
/// offered decides only whether verification succeeds, never what the
/// payload says.
pub uninterp spec fn payload_of(t: Seq<char>) -> Option<JsonModel>;

/// Whether a token's shape and signature verify under this key material
/// and these demands. With every claim check disabled, verification reads
/// nothing else — no clock, no environment.
pub uninterp spec fn sig_ok_of(
    t: Seq<char>,
    k: jsonwebtoken::DecodingKey,
    v: jsonwebtoken::Validation,
) -> bool;

/// Whether a published key's public parameters build decoding key material.
pub uninterp spec fn usable_jwk(j: jsonwebtoken::jwk::Jwk) -> bool;

/// Relies on jsonwebtoken::decode_header: it parses the token's header
/// without verifying the signature, reading the characters alone.
#[verifier::external_body]
fn token_kid(token: &str) -> (r: Result<Option<String>, Error>)
    ensures
        r matches Ok(k) ==> header_kid_of(token@) == Some(k.deep_view()),
        r is Err <==> header_kid_of(token@) is None,
        r matches Err(e) ==> e is Jwt,
{
    match jsonwebtoken::decode_header(token) {
        Ok(h) => Ok(h.kid),
        Err(e) => Err(Error::Jwt(e.to_string())),
    }
}

/// What the published key set holds, key by key in order: the declared
/// algorithm identifier, the key id, and whether the key's public
/// parameters build decoding key material.
pub uninterp spec fn jwk_ids_of(s: jsonwebtoken::jwk::JwkSet) -> Seq<
    (Option<Seq<char>>, Option<Seq<char>>, bool),
>;

/// Relies on the field jsonwebtoken::jwk::JwkSet::keys: the published keys,
/// copied out one for one, in order; the i-th copy is the i-th key the
/// set describes.
#[verifier::external_body]
fn jwk_set_keys(s: &jsonwebtoken::jwk::JwkSet) -> (r: Vec<jsonwebtoken::jwk::Jwk>)
    ensures
        r@.len() == jwk_ids_of(*s).len(),
        forall|i: int| 0 <= i < r@.len() ==> usable_jwk(r@[i]) == jwk_ids_of(*s)[i].2,
{
    s.keys.clone()
}

/// Relies on the fields jsonwebtoken::jwk::CommonParameters::key_algorithm
/// and key_id and on jsonwebtoken::jwk::KeyAlgorithm's text form: each
/// published key's declared algorithm identifier and key id, in order.
#[verifier::external_body]
fn jwk_summaries(s: &jsonwebtoken::jwk::JwkSet) -> (r: Vec<(Option<String>, Option<String>)>)
    ensures
        r@.len() == jwk_ids_of(*s).len(),
        forall|i: int|
            0 <= i < r@.len() ==> r@[i].0.deep_view() == jwk_ids_of(*s)[i].0 && r@[
                i
            ].1.deep_view() == jwk_ids_of(*s)[i].1,
{
    s.keys
        .iter()
        .map(|j| (j.common.key_algorithm.map(|a| a.to_string()), j.common.key_id.clone()))
        .collect()
}

/// The algorithm identifiers that resolve to a signing algorithm.
pub open spec fn recognized_algorithm(name: Seq<char>) -> bool {
    ||| name == "HS256"@
    ||| name == "HS384"@
    ||| name == "HS512"@
    ||| name == "ES256"@
    ||| name == "ES384"@
    ||| name == "RS256"@
    ||| name == "RS384"@
    ||| name == "RS512"@
    ||| name == "PS256"@
    ||| name == "PS384"@
    ||| name == "PS512"@
    ||| name == "EdDSA"@
}

/// Relies on jsonwebtoken::Algorithm::from_str: exactly the twelve
/// identifiers above resolve; anything else is an error.
#[verifier::external_body]
fn algorithm_from_name(name: &str) -> (r: Result<jsonwebtoken::Algorithm, Error>)
    ensures
        r is Ok <==> recognized_algorithm(name@),
        r matches Err(e) ==> e is Jwt,
{
    <jsonwebtoken::Algorithm as core::str::FromStr>::from_str(name).map_err(
        |e| Error::Jwt(e.to_string()),
    )
}

/// Relies on jsonwebtoken::DecodingKey::from_jwk: it builds key material
/// exactly when the key's public parameters are usable, reading the key
/// value alone.
#[verifier::external_body]
fn decoding_key_from_jwk(jwk: &jsonwebtoken::jwk::Jwk) -> (r: Result<
    jsonwebtoken::DecodingKey,
    Error,
>)
    ensures
        r is Ok <==> usable_jwk(*jwk),
        r matches Err(e) ==> e is Jwt,
{
    jsonwebtoken::DecodingKey::from_jwk(jwk).map_err(|e| Error::Jwt(e.to_string()))
}

/// Relies on jsonwebtoken::Validation::new and its public fields: the
/// result demands a signature by `alg` and nothing else, so that every
/// claim check stays with this library's own verified code.
#[verifier::external_body]
fn signature_only_validation(alg: jsonwebtoken::Algorithm) -> (r: jsonwebtoken::Validation) {
    let mut vld = jsonwebtoken::Validation::new(alg);
    vld.required_spec_claims = std::collections::HashSet::new();
    vld.validate_exp = false;
    vld.validate_nbf = false;
    vld.validate_aud = false;
    vld
}

/// Relies on jsonwebtoken::decode::<serde_json::Value>: with every claim
/// check disabled it succeeds exactly when the token's shape and signature
/// verify against the key and the demanded algorithm and its payload is
/// well-formed JSON; on success it hands back the token's own payload,
/// which is a function of the token text alone.
#[verifier::external_body]
fn verify_and_extract(
    token: &str,
    key: &jsonwebtoken::DecodingKey,
    vld: &jsonwebtoken::Validation,
) -> (r: Result<serde_json::Value, Error>)
    ensures
        r is Ok <==> (payload_of(token@) is Some && sig_ok_of(token@, *key, *vld)),
        r matches Ok(v) ==> payload_of(token@) == Some(json_model(v)),
        r matches Err(e) ==> e is Jwt,
{
    match jsonwebtoken::decode::<serde_json::Value>(token, key, vld) {
        Ok(data) => Ok(data.claims),
        Err(e) => Err(Error::Jwt(e.to_string())),
    }
}

/// The `aud` claim of a payload, normalized to a list.
pub open spec fn aud_field(m: JsonModel) -> Option<Seq<Seq<char>>> {
    match obj_field(m, "aud"@) {
        Some(j) => one_or_many(j),
        None => None,
    }
}

/// The role names of a role-set shape: an object carrying a `roles` array
/// of strings.
pub open spec fn roles_model(j: JsonModel) -> Option<Seq<Seq<char>>> {
    match obj_field(j, "roles"@) {
        Some(r) => match r {
            JsonModel::Arr(items) => string_items(items),
            _ => None,
        },
        None => None,
    }
}

/// The `realm_access` role names of a payload.
pub open spec fn realm_field(m: JsonModel) -> Option<Seq<Seq<char>>> {
    match obj_field(m, "realm_access"@) {
        Some(j) => roles_model(j),
        None => None,
    }
}

/// The role names of one resource entry, empty for an ill-shaped one.
pub open spec fn roles_content(j: JsonModel) -> Seq<Seq<char>> {
    match roles_model(j) {
        Some(r) => r,
        None => Seq::empty(),
    }
}

/// The members of a resource-access object: each resource name mapped to
/// its role-set shape, every member well-shaped or nothing.
pub open spec fn resource_entries_model(j: JsonModel) -> Option<
    Seq<(Seq<char>, Seq<Seq<char>>)>,
> {
    match j {
        JsonModel::Obj(entries) => if forall|i: int|
            0 <= i < entries.len() ==> roles_model(entries[i].1) is Some {
            Some(Seq::new(entries.len(), |i: int| (entries[i].0, roles_content(entries[i].1))))
        } else {
            None
        },
        _ => None,
    }
}

/// The `resource_access` role sets of a payload.
pub open spec fn resource_field(m: JsonModel) -> Option<Seq<(Seq<char>, Seq<Seq<char>>)>> {
    match obj_field(m, "resource_access"@) {
        Some(j) => resource_entries_model(j),
        None => None,
    }
}

/// The per-resource role sets of decoded claims, seen as text.
pub open spec fn resource_view(rs: Seq<(String, RolesClaim)>) -> Seq<
    (Seq<char>, Seq<Seq<char>>),
> {
    Seq::new(rs.len(), |i: int| (rs[i].0@, rs[i].1.roles.deep_view()))
}

/// The shape a payload must have to validate, apart from time: all nine
/// required claims present and well-formed, the issuer accepted, and some
/// audience entry accepted.
pub open spec fn payload_wf(m: JsonModel, issuers: Seq<Seq<char>>, audiences: Seq<Seq<char>>) -> bool {
    &&& str_field(m, "iss"@) matches Some(iss) && issuers.contains(iss)
    &&& str_field(m, "sub"@) matches Some(sub) && uuid_of(sub) is Some
    &&& aud_field(m) matches Some(aud) && exists|i: int|
        0 <= i < aud.len() && audiences.contains(aud[i])
    &&& int_field(m, "exp"@) is Some
    &&& int_field(m, "iat"@) is Some
    &&& str_field(m, "jti"@) matches Some(id) && uuid_of(id) is Some
    &&& str_field(m, "preferred_username"@) is Some
    &&& realm_field(m) is Some
    &&& resource_field(m) is Some
}

/// Whether a payload is current at `now`: not expired, not from the future.
pub open spec fn payload_current(m: JsonModel, now: int) -> bool {
    &&& int_field(m, "exp"@) matches Some(e) && e > now
    &&& int_field(m, "iat"@) matches Some(i) && i <= now
}

/// When a token's payload validates at `now` against the accepted issuer
/// and audience sets.
pub open spec fn payload_accepted(
    m: JsonModel,
    now: int,
    issuers: Seq<Seq<char>>,
    audiences: Seq<Seq<char>>,
) -> bool {
    payload_wf(m, issuers, audiences) && payload_current(m, now)
}

/// The claims a successful decode hands out mirror the payload field by
/// field: `iss`, `sub`, `aud` (one or many), `exp`, `iat`, `jti`,
/// `preferred_username`, the realm roles and the per-resource role sets.
pub open spec fn claims_match_payload(c: Claims, m: JsonModel) -> bool {
    &&& Some(c.issuer@) == str_field(m, "iss"@)
    &&& Some(c.subject@) == str_field(m, "sub"@)
    &&& Some(c.audience.deep_view()) == aud_field(m)
    &&& Some(c.expires_at) == int_field(m, "exp"@)
    &&& Some(c.issued_at) == int_field(m, "iat"@)
    &&& Some(c.id@) == str_field(m, "jti"@)
    &&& Some(c.username@) == str_field(m, "preferred_username"@)
    &&& Some(c.realm.roles.deep_view()) == realm_field(m)
    &&& Some(resource_view(c.resource@)) == resource_field(m)
}

/// Reads the realm or resource role-set shape.
fn extract_roles(v: &serde_json::Value) -> (r: Option<RolesClaim>)
    ensures
        r matches Some(rc) ==> roles_model(json_model(*v)) == Some(rc.roles.deep_view()),
        r is None <==> roles_model(json_model(*v)) is None,
{
    match json_get(v, "roles") {
        Some(x) => match as_string_array(x) {
            Some(roles) => Some(RolesClaim { roles }),
            None => None,
        },
        None => None,
    }
}

/// Reads the per-resource role sets: an object mapping each resource name
/// to a role-set shape.
fn extract_resource(v: &serde_json::Value) -> (r: Option<Vec<(String, RolesClaim)>>)
    ensures
        r matches Some(rs) ==> resource_entries_model(json_model(*v)) == Some(resource_view(rs@)),
        r matches Some(rs) ==> crate::token::resource_keys_distinct(rs@),
        r is None <==> resource_entries_model(json_model(*v)) is None,
{
    let entries = match json_object_entries(v) {
        Some(e) => e,
        None => {
            return None;
        },
    };
    let ghost es = json_model(*v)->Obj_0;
    let mut out: Vec<(String, RolesClaim)> = Vec::new();
    let mut i: usize = 0;
    while i < entries.len()
        invariant
            0 <= i <= entries.len(),
            json_model(*v) == JsonModel::Obj(es),
            entries@.len() == es.len(),
            forall|j: int|
                0 <= j < es.len() ==> entries@[j].0@ == es[j].0 && json_model(entries@[j].1)
                    == es[j].1,
            forall|a: int, b: int| 0 <= a < b < es.len() ==> es[a].0 != es[b].0,
            out.len() == i,
            forall|j: int| 0 <= j < i ==> roles_model(es[j].1) is Some,
            forall|j: int|
                0 <= j < i ==> out@[j].0@ == es[j].0 && out@[j].1.roles.deep_view()
                    == roles_content(es[j].1),
        decreases entries.len() - i,
    {
        match extract_roles(&entries[i].1) {
            Some(rc) => {
                let name = entries[i].0.clone();
                proof {
                    assert(roles_model(es[i as int].1) == Some(rc.roles.deep_view()));
                }
                out.push((name, rc));
            },
            None => {
                proof {
                    assert(roles_model(es[i as int].1) is None);
                    assert(!(forall|j: int| 0 <= j < es.len() ==> roles_model(es[j].1) is Some))
                        by {
                        assert(0 <= i < es.len() && !(roles_model(es[i as int].1) is Some));
                    }
                    assert(resource_entries_model(json_model(*v)) is None);
                }
                return None;
            },
        }
        i += 1;
    }
    proof {
        assert(resource_view(out@) =~= Seq::new(
            es.len(),
            |j: int| (es[j].0, roles_content(es[j].1)),
        ));
        assert(resource_entries_model(json_model(*v)) == Some(resource_view(out@)));
        assert forall|a: int, b: int| 0 <= a < b < out@.len() implies out@[a].0@ != out@[b].0@
            by {
            assert(out@[a].0@ == es[a].0);
            assert(out@[b].0@ == es[b].0);
            assert(es[a].0 != es[b].0);
        }
        assert(crate::token::resource_keys_distinct(out@));
    }
    Some(out)
}

/// Reads a verified-signature payload field by field; a claim that is
/// missing or has the wrong shape stays absent, for validation to reject.
pub fn extract_raw_claims(v: &serde_json::Value) -> (r: RawClaims)
    ensures
        r.issuer.deep_view() == str_field(json_model(*v), "iss"@),
        r.subject.deep_view() == str_field(json_model(*v), "sub"@),
        r.audience.deep_view() == aud_field(json_model(*v)),
        r.expires_at == int_field(json_model(*v), "exp"@),
        r.issued_at == int_field(json_model(*v), "iat"@),
        r.id.deep_view() == str_field(json_model(*v), "jti"@),
        r.username.deep_view() == str_field(json_model(*v), "preferred_username"@),
        r.realm matches Some(rc) ==> realm_field(json_model(*v)) == Some(rc.roles.deep_view()),
        r.realm is None <==> realm_field(json_model(*v)) is None,
        r.resource matches Some(rs) ==> resource_field(json_model(*v)) == Some(resource_view(rs@)),
        r.resource matches Some(rs) ==> crate::token::resource_keys_distinct(rs@),
        r.resource is None <==> resource_field(json_model(*v)) is None,
{
    let audience = match json_get(v, "aud") {
        Some(a) => as_string_or_strings(a),
        None => None,
    };
    let realm = match json_get(v, "realm_access") {
        Some(r) => extract_roles(r),
        None => None,
    };
    let resource = match json_get(v, "resource_access") {
        Some(r) => extract_resource(r),
        None => None,
    };
    RawClaims {
        issuer: get_string_field(v, "iss"),
        subject: get_string_field(v, "sub"),
        audience,
        expires_at: get_i64_field(v, "exp"),
        issued_at: get_i64_field(v, "iat"),
        id: get_string_field(v, "jti"),
        username: get_string_field(v, "preferred_username"),
        realm,
        resource,
    }
}

/// One usable signing key: its published id, its key material, and the
/// signature demands for it.
struct SigningKey {
    kid: Option<String>,
    key: jsonwebtoken::DecodingKey,
    vld: jsonwebtoken::Validation,
}

/// The key-set-backed token validator: an ordered collection of signing
/// keys plus the accepted issuer and audience sets, built once and
/// immutable afterwards.
pub struct JwtDecoder {
    keys: Vec<SigningKey>,
    issuers: Vec<String>,
    audiences: Vec<String>,
}

/// Whether one published key is usable: its declared algorithm identifier
/// resolves to a signing algorithm and its public parameters build
/// decoding key material.
pub open spec fn usable_key(e: (Option<Seq<char>>, Option<Seq<char>>, bool)) -> bool {
    (e.0 matches Some(a) && recognized_algorithm(a)) && e.2
}

/// The ids of the usable keys of a published set, in publication order:
/// exactly what a store built from the set holds.
pub open spec fn kept_kids(ids: Seq<(Option<Seq<char>>, Option<Seq<char>>, bool)>) -> Seq<
    Option<Seq<char>>,
>
    decreases ids.len(),
{
    if ids.len() == 0 {
        Seq::empty()
    } else if usable_key(ids[0]) {
        seq![ids[0].1] + kept_kids(ids.skip(1))
    } else {
        kept_kids(ids.skip(1))
    }
}

proof fn lemma_kept_kids_snoc(ids: Seq<(Option<Seq<char>>, Option<Seq<char>>, bool)>)
    requires
        ids.len() > 0,
    ensures
        kept_kids(ids) == if usable_key(ids[ids.len() - 1]) {
            kept_kids(ids.drop_last()).push(ids[ids.len() - 1].1)
        } else {
            kept_kids(ids.drop_last())
        },
    decreases ids.len(),
{
    let last = ids[ids.len() - 1];
    if ids.len() == 1 {
        assert(ids.drop_last() =~= Seq::<(Option<Seq<char>>, Option<Seq<char>>, bool)>::empty());
        assert(ids.skip(1) =~= Seq::<(Option<Seq<char>>, Option<Seq<char>>, bool)>::empty());
        if usable_key(ids[0]) {
            assert(kept_kids(ids) =~= kept_kids(ids.drop_last()).push(last.1));
        }
    } else {
        lemma_kept_kids_snoc(ids.skip(1));
        assert(ids.skip(1).drop_last() =~= ids.drop_last().skip(1));
        assert(ids.skip(1)[ids.skip(1).len() - 1] == last);
        assert(ids.drop_last()[0] == ids[0]);
        if usable_key(last) {
            if usable_key(ids[0]) {
                assert(kept_kids(ids) =~= kept_kids(ids.drop_last()).push(last.1));
            } else {
                assert(kept_kids(ids) =~= kept_kids(ids.drop_last()).push(last.1));
            }
        }
    }
}

/// The first index whose key id equals `kid`, if any.
pub open spec fn matching_key_index(kids: Seq<Option<Seq<char>>>, kid: Option<Seq<char>>) -> Option<
    int,
>
    decreases kids.len(),
{
    if kids.len() == 0 {
        None
    } else if kids[0] == kid {
        Some(0int)
    } else {
        match matching_key_index(kids.skip(1), kid) {
            Some(i) => Some(i + 1),
            None => None,
        }
    }
}

/// Which key a token's declared key id selects: a store with exactly one
/// key uses it whatever the id says; otherwise the id must match a key.
pub open spec fn selection_spec(kids: Seq<Option<Seq<char>>>, kid: Option<Seq<char>>) -> Option<
    int,
> {
    if kids.len() == 1 {
        Some(0int)
    } else {
        matching_key_index(kids, kid)
    }
}

/// Law: with a single-key store, key selection never consults the token's
/// key id — any two ids select that one key.
pub proof fn lemma_single_key_ignores_kid(
    kids: Seq<Option<Seq<char>>>,
    kid_a: Option<Seq<char>>,
    kid_b: Option<Seq<char>>,
)
    requires
        kids.len() == 1,
    ensures
        selection_spec(kids, kid_a) == Some(0int),
        selection_spec(kids, kid_a) == selection_spec(kids, kid_b),
{
}

/// Law: with two or more keys, an id that matches no entry selects nothing.
pub proof fn lemma_unmatched_kid_selects_nothing(
    kids: Seq<Option<Seq<char>>>,
    kid: Option<Seq<char>>,
)
    requires
        kids.len() >= 2,
        forall|i: int| 0 <= i < kids.len() ==> kids[i] != kid,
    ensures
        selection_spec(kids, kid) is None,
    decreases kids.len(),
{
    lemma_unmatched_kid_no_index(kids, kid);
}

proof fn lemma_unmatched_kid_no_index(kids: Seq<Option<Seq<char>>>, kid: Option<Seq<char>>)
    requires
        forall|i: int| 0 <= i < kids.len() ==> kids[i] != kid,
    ensures
        matching_key_index(kids, kid) is None,
    decreases kids.len(),
{
    if kids.len() > 0 {
        assert(forall|i: int| 0 <= i < kids.skip(1).len() ==> kids.skip(1)[i] == kids[i + 1]);
        lemma_unmatched_kid_no_index(kids.skip(1), kid);
    }
}

impl JwtDecoder {
    /// The published key ids, in store order.
    pub closed spec fn kids(self) -> Seq<Option<Seq<char>>> {
        self.keys@.map_values(|k: SigningKey| k.kid.deep_view())
    }

    /// How many usable keys the store holds.
    pub open spec fn key_count(self) -> nat {
        self.kids().len()
    }

    /// The issuer names a token must come from.
    pub closed spec fn issuer_names(self) -> Seq<Seq<char>> {
        self.issuers.deep_view()
    }

    /// The audience names a token must address.
    pub closed spec fn audience_names(self) -> Seq<Seq<char>> {
        self.audiences.deep_view()
    }

    /// The material of the key at a store index.
    pub closed spec fn key_at(self, i: int) -> jsonwebtoken::DecodingKey {
        self.keys@[i].key
    }

    /// The signature demands of the key at a store index.
    pub closed spec fn vld_at(self, i: int) -> jsonwebtoken::Validation {
        self.keys@[i].vld
    }

    /// Exactly when decoding succeeds: the header parses, its key id
    /// selects a key, the token's signature verifies under that key's
    /// material and demands, and the payload validates at `now`.
    pub open spec fn decode_ok_spec(self, t: Seq<char>, now: int) -> bool {
        &&& header_kid_of(t) is Some
        &&& selection_spec(self.kids(), header_kid_of(t)->0) is Some
        &&& sig_ok_of(
            t,
            self.key_at(selection_spec(self.kids(), header_kid_of(t)->0)->0),
            self.vld_at(selection_spec(self.kids(), header_kid_of(t)->0)->0),
        )
        &&& payload_of(t) is Some
        &&& payload_accepted(payload_of(t)->0, now, self.issuer_names(), self.audience_names())
    }

    /// The number of keys the store kept from the published set.
    pub fn len(&self) -> (r: usize)
        ensures
            r == self.key_count(),
    {
        self.keys.len()
    }

    /// Builds the store from a fetched key set: one key per published key
    /// whose declared algorithm identifier resolves and whose public
    /// parameters build material, in publication order; any other key is
    /// dropped silently, never fatally. The accepted issuers default to
    /// the computed issuer URL and the accepted audiences to the client id
    /// when the configuration does not override them; if the default
    /// issuer is needed but no base URL parses, the store keeps no key at
    /// all.
    pub fn new(jwks: jsonwebtoken::jwk::JwkSet, config: &Config) -> (r: Self)
        ensures
            (config.token.issuer is Some || crate::urls::base_url_of(
                config.http.auth_server_url@,
            ) is Some) ==> r.kids() =~= kept_kids(jwk_ids_of(jwks)),
            config.token.issuer matches Some(v) ==> r.issuer_names() == v.deep_view(),
            config.token.issuer is None ==> (crate::urls::base_url_of(
                config.http.auth_server_url@,
            ) matches Some(base) ==> r.issuer_names() =~= seq![
                crate::config::issuer_url_spec(base, config.client.realm@),
            ]),
            config.token.issuer is None && crate::urls::base_url_of(config.http.auth_server_url@)
                is None ==> r.key_count() == 0,
            config.token.audience matches Some(v) ==> r.audience_names() == v.deep_view(),
            config.token.audience is None ==> r.audience_names() =~= seq![config.client.id@],
    {
        let audiences: Vec<String> = match &config.token.audience {
            Some(v) => clone_strings(v),
            None => {
                let mut out: Vec<String> = Vec::new();
                out.push(config.client.id.clone());
                proof {
                    assert(out.deep_view() =~= seq![config.client.id@]);
                }
                out
            },
        };
        let issuers: Option<Vec<String>> = match &config.token.issuer {
            Some(v) => Some(clone_strings(v)),
            None => match config.urls() {
                Ok(endpoints) => {
                    let mut out: Vec<String> = Vec::new();
                    out.push(endpoints.issuer);
                    Some(out)
                },
                Err(_) => None,
            },
        };
        let issuers = match issuers {
            Some(v) => v,
            None => {
                return JwtDecoder { keys: Vec::new(), issuers: Vec::new(), audiences };
            },
        };
        let published = jwk_set_keys(&jwks);
        let summaries = jwk_summaries(&jwks);
        let ghost ids = jwk_ids_of(jwks);
        let mut keys: Vec<SigningKey> = Vec::new();
        let mut i: usize = 0;
        proof {
            assert(ids.subrange(0, 0) =~= Seq::<
                (Option<Seq<char>>, Option<Seq<char>>, bool),
            >::empty());
            assert(keys@.map_values(|k: SigningKey| k.kid.deep_view()) =~= kept_kids(
                ids.subrange(0, 0),
            ));
        }
        while i < published.len()
            invariant
                0 <= i <= published.len(),
                ids == jwk_ids_of(jwks),
                published@.len() == ids.len(),
                summaries@.len() == ids.len(),
                forall|j: int|
                    0 <= j < ids.len() ==> summaries@[j].0.deep_view() == ids[j].0 && summaries@[
                        j
                    ].1.deep_view() == ids[j].1,
                forall|j: int| 0 <= j < ids.len() ==> usable_jwk(published@[j]) == ids[j].2,
                keys@.map_values(|k: SigningKey| k.kid.deep_view()) == kept_kids(
                    ids.subrange(0, i as int),
                ),
            decreases published.len() - i,
        {
            let jwk = &published[i];
            let ghost at = i as int;
            proof {
                assert(ids.subrange(0, at + 1).drop_last() =~= ids.subrange(0, at));
                assert(ids.subrange(0, at + 1)[at] == ids[at]);
                lemma_kept_kids_snoc(ids.subrange(0, at + 1));
            }
            let alg = match &summaries[i].0 {
                Some(name) => match algorithm_from_name(name.as_str()) {
                    Ok(a) => a,
                    Err(_) => {
                        proof {
                            assert(ids[at].0 matches Some(n) && !recognized_algorithm(n));
                            assert(!usable_key(ids[at]));
                        }
                        i += 1;
                        continue ;
                    },
                },
                None => {
                    proof {
                        assert(ids[at].0 is None);
                        assert(!usable_key(ids[at]));
                    }
                    i += 1;
                    continue ;
                },
            };
            let key = match decoding_key_from_jwk(jwk) {
                Ok(k) => k,
                Err(_) => {
                    proof {
                        assert(!usable_jwk(published@[at]));
                        assert(!ids[at].2);
                        assert(!usable_key(ids[at]));
                    }
                    i += 1;
                    continue ;
                },
            };
            let kid: Option<String> = match &summaries[i].1 {
                Some(k) => Some(k.clone()),
                None => None,
            };
            let vld = signature_only_validation(alg);
            let ghost before = keys@;
            proof {
                assert(kid.deep_view() == ids[at].1);
                assert(ids[at].0 matches Some(a) && recognized_algorithm(a));
                assert(usable_jwk(published@[at]) && ids[at].2);
                assert(usable_key(ids[at]));
            }
            keys.push(SigningKey { kid, key, vld });
            proof {
                assert(keys@.map_values(|k: SigningKey| k.kid.deep_view()) =~= before.map_values(
                    |k: SigningKey| k.kid.deep_view(),
                ).push(ids[at].1));
            }
            i += 1;
        }
        proof {
            assert(ids.subrange(0, published@.len() as int) =~= ids);
        }
        JwtDecoder { keys, issuers, audiences }
    }

    /// Picks the key the token's declared id selects.
    fn select_key(&self, kid: &Option<String>) -> (r: Option<usize>)
        ensures
            r matches Some(i) ==> selection_spec(self.kids(), kid.deep_view()) == Some(i as int)
                && i < self.key_count(),
            r is None <==> selection_spec(self.kids(), kid.deep_view()) is None,
    {
        let n = self.keys.len();
        if n == 1 {
            return Some(0);
        }
        let ghost kids = self.kids();
        let ghost target = kid.deep_view();
        let mut i: usize = 0;
        proof {
            assert(kids.skip(0) =~= kids);
        }
        while i < n
            invariant
                0 <= i <= n,
                n == self.keys@.len(),
                n != 1,
                kids == self.kids(),
                target == kid.deep_view(),
                matching_key_index(kids, target) == match matching_key_index(
                    kids.skip(i as int),
                    target,
                ) {
                    Some(j) => Some(i + j),
                    None => None::<int>,
                },
            decreases n - i,
        {
            proof {
                assert(kids.skip(i as int)[0] == kids[i as int]);
                assert(kids[i as int] == self.keys@[i as int].kid.deep_view());
            }
            if opt_string_eq(&self.keys[i].kid, kid) {
                proof {
                    assert(matching_key_index(kids.skip(i as int), target) == Some(0int));
                    assert(matching_key_index(kids, target) == Some(i as int));
                }
                return Some(i);
            }
            proof {
                assert(kids.skip(i as int).skip(1) =~= kids.skip(i as int + 1));
            }
            i += 1;
        }
        proof {
            assert(kids.skip(n as int) =~= Seq::<Option<Seq<char>>>::empty());
        }
        None
    }

    /// Validates and decodes a bearer token against the store at moment
    /// `now`. A success comes exactly when the header parses, its key id
    /// selects a key, the signature verifies under it, and the payload
    /// validates; it hands out exactly the payload's claims. Whatever
    /// check fails, the caller learns one opaque "invalid token" and
    /// nothing of which check it was.
    pub fn decode_at(&self, token: &str, now: i64) -> (r: Result<TokenData, Error>)
        ensures
            r is Ok <==> self.decode_ok_spec(token@, now as int),
            r matches Ok(td) ==> (payload_of(token@) matches Some(m) && claims_match_payload(
                td.claims,
                m,
            ) && payload_accepted(m, now as int, self.issuer_names(), self.audience_names())),
            r matches Ok(td) ==> claims_valid_at(
                td.claims,
                now as int,
                self.issuer_names(),
                self.audience_names(),
            ),
            r matches Ok(td) ==> crate::token::resource_keys_distinct(td.claims.resource@),
            header_kid_of(token@) is None ==> r is Err,
            header_kid_of(token@) matches Some(k) && selection_spec(self.kids(), k) is None
                ==> r is Err,
            self.key_count() == 0 ==> r is Err,
            payload_of(token@) matches Some(m) && !payload_accepted(
                m,
                now as int,
                self.issuer_names(),
                self.audience_names(),
            ) ==> r is Err,
            r matches Err(e) ==> e matches Error::Jwt(msg) && msg@ == "invalid token"@,
    {
        let kid = match token_kid(token) {
            Ok(k) => k,
            Err(_) => {
                return Err(Error::Jwt("invalid token".to_owned()));
            },
        };
        let idx = match self.select_key(&kid) {
            Some(i) => i,
            None => {
                return Err(Error::Jwt("invalid token".to_owned()));
            },
        };
        proof {
            assert(selection_spec(self.kids(), header_kid_of(token@)->0) == Some(idx as int));
        }
        let jwk = &self.keys[idx];
        proof {
            assert(jwk.key == self.key_at(idx as int));
            assert(jwk.vld == self.vld_at(idx as int));
        }
        let payload = match verify_and_extract(token, &jwk.key, &jwk.vld) {
            Ok(v) => v,
            Err(_) => {
                proof {
                    assert(!self.decode_ok_spec(token@, now as int));
                }
                return Err(Error::Jwt("invalid token".to_owned()));
            },
        };
        let raw = extract_raw_claims(&payload);
        let ghost m = json_model(payload);
        let ghost raw_g = raw;
        match validate_claims(raw, now, &self.issuers, &self.audiences) {
            Ok(claims) => {
                proof {
                    lemma_accepted_raw_payload(
                        raw_g,
                        m,
                        now as int,
                        self.issuer_names(),
                        self.audience_names(),
                    );
                    assert(claims_match_payload(claims, m));
                    assert(self.decode_ok_spec(token@, now as int));
                }
                Ok(TokenData { claims })
            },
            Err(_) => {
                proof {
                    if payload_accepted(m, now as int, self.issuer_names(), self.audience_names()) {
                        lemma_payload_accepted_raw(
                            raw_g,
                            m,
                            now as int,
                            self.issuer_names(),
                            self.audience_names(),
                        );
                        assert(false);
                    }
                    assert(!self.decode_ok_spec(token@, now as int));
                }
                Err(Error::Jwt("invalid token".to_owned()))
            },
        }
    }

    /// Validates and decodes a bearer token against the store, at the
    /// current moment.
    pub fn decode(&self, token: &str) -> (r: Result<TokenData, Error>)
        ensures
            r matches Ok(td) ==> (payload_of(token@) matches Some(m) && claims_match_payload(
                td.claims,
                m,
            ) && payload_wf(m, self.issuer_names(), self.audience_names())),
            r matches Ok(td) ==> exists|now: int|
                claims_valid_at(td.claims, now, self.issuer_names(), self.audience_names()),
            r matches Ok(td) ==> exists|now: int| self.decode_ok_spec(token@, now),
            r matches Ok(td) ==> crate::token::resource_keys_distinct(td.claims.resource@),
            header_kid_of(token@) is None ==> r is Err,
            header_kid_of(token@) matches Some(k) && selection_spec(self.kids(), k) is None
                ==> r is Err,
            self.key_count() == 0 ==> r is Err,
            payload_of(token@) matches Some(m) && !payload_wf(
                m,
                self.issuer_names(),
                self.audience_names(),
            ) ==> r is Err,
            r matches Err(e) ==> e matches Error::Jwt(msg) && msg@ == "invalid token"@,
    {
        let now = crate::manager::now_unix();
        match self.decode_at(token, now) {
            Ok(td) => {
                proof {
                    assert(claims_valid_at(
                        td.claims,
                        now as int,
                        self.issuer_names(),
                        self.audience_names(),
                    ));
                    assert(self.decode_ok_spec(token@, now as int));
                }
                Ok(td)
            },
            Err(e) => Err(e),
        }
    }
}

/// A raw payload read out of `m` that the claim checker accepts makes the
/// payload itself accepted.
proof fn lemma_accepted_raw_payload(
    raw: RawClaims,
    m: JsonModel,
    now: int,
    issuers: Seq<Seq<char>>,
    audiences: Seq<Seq<char>>,
)
    requires
        raw.issuer.deep_view() == str_field(m, "iss"@),
        raw.subject.deep_view() == str_field(m, "sub"@),
        raw.audience.deep_view() == aud_field(m),
        raw.expires_at == int_field(m, "exp"@),
        raw.issued_at == int_field(m, "iat"@),
        raw.id.deep_view() == str_field(m, "jti"@),
        raw.username.deep_view() == str_field(m, "preferred_username"@),
        raw.realm is None <==> realm_field(m) is None,
        raw.resource is None <==> resource_field(m) is None,
        crate::token::claims_accepted(raw, now, issuers, audiences),
    ensures
        payload_accepted(m, now, issuers, audiences),
{
    assert(raw.issuer matches Some(x) && str_field(m, "iss"@) == Some(x@));
    assert(raw.subject matches Some(x) && str_field(m, "sub"@) == Some(x@));
    assert(raw.id matches Some(x) && str_field(m, "jti"@) == Some(x@));
    assert(raw.username matches Some(x) && str_field(m, "preferred_username"@) == Some(x@));
    assert(raw.audience matches Some(a) && aud_field(m) == Some(a.deep_view()));
    assert(str_field(m, "iss"@) matches Some(iss) && issuers.contains(iss));
    assert(str_field(m, "sub"@) matches Some(sub) && uuid_of(sub) is Some);
    let a = raw.audience->0;
    assert(aud_field(m) == Some(a.deep_view()));
    let w = choose|i: int| 0 <= i < a.deep_view().len() && audiences.contains(a.deep_view()[i]);
    assert(0 <= w < a.deep_view().len() && audiences.contains(a.deep_view()[w]));
    assert(aud_field(m) matches Some(aud) && exists|i: int|
        0 <= i < aud.len() && audiences.contains(aud[i])) by {
        assert(aud_field(m) matches Some(aud) && 0 <= w < aud.len() && audiences.contains(aud[w]));
    }
    assert(str_field(m, "jti"@) matches Some(id) && uuid_of(id) is Some);
    assert(int_field(m, "exp"@) is Some && int_field(m, "iat"@) is Some);
    assert(realm_field(m) is Some && resource_field(m) is Some);
    assert(payload_wf(m, issuers, audiences));
    assert(payload_current(m, now));
}

/// The converse: a payload accepted at `now` makes any raw reading with
/// the same field ties accepted by the claim checker.
proof fn lemma_payload_accepted_raw(
    raw: RawClaims,
    m: JsonModel,
    now: int,
    issuers: Seq<Seq<char>>,
    audiences: Seq<Seq<char>>,
)
    requires
        raw.issuer.deep_view() == str_field(m, "iss"@),
        raw.subject.deep_view() == str_field(m, "sub"@),
        raw.audience.deep_view() == aud_field(m),
        raw.expires_at == int_field(m, "exp"@),
        raw.issued_at == int_field(m, "iat"@),
        raw.id.deep_view() == str_field(m, "jti"@),
        raw.username.deep_view() == str_field(m, "preferred_username"@),
        raw.realm is None <==> realm_field(m) is None,
        raw.resource is None <==> resource_field(m) is None,
        payload_accepted(m, now, issuers, audiences),
    ensures
        crate::token::claims_accepted(raw, now, issuers, audiences),
{
    assert(raw.issuer is Some && raw.subject is Some && raw.id is Some && raw.username is Some);
    assert(raw.audience is Some && raw.expires_at is Some && raw.issued_at is Some);
    assert(raw.realm is Some && raw.resource is Some);
    assert(raw.issuer matches Some(x) && str_field(m, "iss"@) == Some(x@));
    assert(raw.subject matches Some(x) && str_field(m, "sub"@) == Some(x@));
    assert(raw.id matches Some(x) && str_field(m, "jti"@) == Some(x@));
    assert(issuers.contains(raw.issuer->0@));
    assert(uuid_of(raw.subject->0@) is Some && uuid_of(raw.id->0@) is Some);
    let a = raw.audience->0;
    assert(aud_field(m) == Some(a.deep_view()));
    let aud = aud_field(m)->0;
    let w = choose|i: int| 0 <= i < aud.len() && audiences.contains(aud[i]);
    assert(0 <= w < aud.len() && audiences.contains(aud[w]));
    assert(exists|i: int|
        0 <= i < a.deep_view().len() && audiences.contains(a.deep_view()[i])) by {
        assert(0 <= w < a.deep_view().len() && audiences.contains(a.deep_view()[w]));
    }
}

} // verus!
