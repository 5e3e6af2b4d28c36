use jsonwebtoken::{Algorithm, EncodingKey, Header, encode};
use recloak::{ClientConfig, ClientSecret, Config, Error, HttpConfig, JwtDecoder, TokenConfig};

const ISSUER: &str = "https://kc.example.com/realms/master";
const SUB: &str = "3f2a1b4c-5d6e-4f70-8191-a2b3c4d5e6f7";
const JTI: &str = "00000000-0000-4000-8000-000000000000";
const NOW: i64 = 1_700_000_000;

fn config() -> Config {
    Config {
        client: ClientConfig {
            id: "my-client".to_string(),
            secret: ClientSecret::Basic("hunter2".to_string()),
            realm: "master".to_string(),
        },
        token: TokenConfig {
            issuer: Some(vec![ISSUER.to_string()]),
            audience: Some(vec!["my-client".to_string()]),
        },
        http: HttpConfig {
            auth_server_url: "https://kc.example.com".to_string(),
            user_agent: "recloak/0.1.0".to_string(),
            https_only: false,
        },
    }
}

fn jwk_set(json: &str) -> jsonwebtoken::jwk::JwkSet {
    serde_json::from_str(json).unwrap()
}

/// One HS256 key whose secret is the ASCII text "secret".
fn single_key_set() -> jsonwebtoken::jwk::JwkSet {
    jwk_set(r#"{"keys":[{"kty":"oct","alg":"HS256","kid":"k1","k":"c2VjcmV0"}]}"#)
}

/// Two HS256 keys with distinct ids and secrets "secret" and "secret2".
fn two_key_set() -> jsonwebtoken::jwk::JwkSet {
    jwk_set(
        r#"{"keys":[
            {"kty":"oct","alg":"HS256","kid":"k1","k":"c2VjcmV0"},
            {"kty":"oct","alg":"HS256","kid":"k2","k":"c2VjcmV0Mg"}
        ]}"#,
    )
}

fn full_payload() -> serde_json::Value {
    let mut m = serde_json::Map::new();
    m.insert("iss".to_string(), serde_json::Value::String(ISSUER.to_string()));
    m.insert("sub".to_string(), serde_json::Value::String(SUB.to_string()));
    m.insert("aud".to_string(), serde_json::Value::String("my-client".to_string()));
    m.insert("exp".to_string(), serde_json::Value::from(NOW + 3600));
    m.insert("iat".to_string(), serde_json::Value::from(NOW - 10));
    m.insert("jti".to_string(), serde_json::Value::String(JTI.to_string()));
    m.insert(
        "preferred_username".to_string(),
        serde_json::Value::String("alice".to_string()),
    );
    let mut realm = serde_json::Map::new();
    realm.insert(
        "roles".to_string(),
        serde_json::Value::Array(vec![serde_json::Value::String("admin".to_string())]),
    );
    m.insert("realm_access".to_string(), serde_json::Value::Object(realm));
    let mut roles = serde_json::Map::new();
    roles.insert(
        "roles".to_string(),
        serde_json::Value::Array(vec![serde_json::Value::String("editor".to_string())]),
    );
    let mut resource = serde_json::Map::new();
    resource.insert("my-client".to_string(), serde_json::Value::Object(roles));
    m.insert("resource_access".to_string(), serde_json::Value::Object(resource));
    serde_json::Value::Object(m)
}

fn sign(payload: &serde_json::Value, kid: Option<&str>, secret: &[u8]) -> String {
    let mut header = Header::new(Algorithm::HS256);
    header.kid = kid.map(|s| s.to_string());
    encode(&header, payload, &EncodingKey::from_secret(secret)).unwrap()
}

fn expect_invalid(result: Result<recloak::TokenData, Error>) {
    match result {
        Err(Error::Jwt(_)) => {}
        _ => panic!("the token should have been rejected"),
    }
}

#[test]
fn a_valid_token_decodes_to_its_payload() {
    let decoder = JwtDecoder::new(single_key_set(), &config());
    let token = sign(&full_payload(), Some("k1"), b"secret");
    let claims = decoder.decode_at(&token, NOW).unwrap().claims;
    assert_eq!(claims.issuer, ISSUER);
    assert_eq!(claims.subject, SUB);
    assert_eq!(claims.audience, vec!["my-client".to_string()]);
    assert_eq!(claims.expires_at, NOW + 3600);
    assert_eq!(claims.issued_at, NOW - 10);
    assert_eq!(claims.id, JTI);
    assert_eq!(claims.username, "alice");
    assert!(claims.has_realm_role("admin"));
    assert!(claims.has_role("my-client", "editor"));
}

#[test]
fn an_audience_array_also_validates() {
    let decoder = JwtDecoder::new(single_key_set(), &config());
    let mut payload = full_payload();
    payload["aud"] = serde_json::Value::Array(vec![
        serde_json::Value::String("other".to_string()),
        serde_json::Value::String("my-client".to_string()),
    ]);
    let token = sign(&payload, Some("k1"), b"secret");
    let claims = decoder.decode_at(&token, NOW).unwrap().claims;
    assert_eq!(claims.audience.len(), 2);
}

#[test]
fn a_single_key_store_ignores_the_key_id() {
    let decoder = JwtDecoder::new(single_key_set(), &config());
    // No key id, a matching one, and a foreign one: the one key is used
    // regardless, so only the signature decides.
    for kid in [None, Some("k1"), Some("unknown")] {
        let token = sign(&full_payload(), kid, b"secret");
        assert!(decoder.decode_at(&token, NOW).is_ok());
    }
}

#[test]
fn a_multi_key_store_selects_by_key_id() {
    let decoder = JwtDecoder::new(two_key_set(), &config());
    let token = sign(&full_payload(), Some("k2"), b"secret2");
    assert!(decoder.decode_at(&token, NOW).is_ok());
}

#[test]
fn an_unknown_key_id_is_invalid_in_a_multi_key_store() {
    let decoder = JwtDecoder::new(two_key_set(), &config());
    let token = sign(&full_payload(), Some("k3"), b"secret");
    match decoder.decode_at(&token, NOW) {
        Err(Error::Jwt(m)) => assert_eq!(m, "invalid token"),
        _ => panic!("an unmatched key id should be rejected"),
    }
    // The same signature under a matching id is accepted.
    let token = sign(&full_payload(), Some("k1"), b"secret");
    assert!(decoder.decode_at(&token, NOW).is_ok());
}

#[test]
fn a_bad_signature_is_invalid() {
    let decoder = JwtDecoder::new(single_key_set(), &config());
    let token = sign(&full_payload(), Some("k1"), b"wrong-secret");
    expect_invalid(decoder.decode_at(&token, NOW));
}

#[test]
fn an_expired_token_is_invalid_even_with_a_valid_signature() {
    let decoder = JwtDecoder::new(single_key_set(), &config());
    let mut payload = full_payload();
    payload["exp"] = serde_json::Value::from(NOW - 1);
    let token = sign(&payload, Some("k1"), b"secret");
    expect_invalid(decoder.decode_at(&token, NOW));
}

#[test]
fn each_missing_claim_makes_the_token_invalid() {
    let decoder = JwtDecoder::new(single_key_set(), &config());
    for claim in [
        "iss",
        "sub",
        "aud",
        "exp",
        "iat",
        "jti",
        "preferred_username",
        "realm_access",
        "resource_access",
    ] {
        let mut payload = full_payload();
        payload.as_object_mut().unwrap().remove(claim);
        let token = sign(&payload, Some("k1"), b"secret");
        expect_invalid(decoder.decode_at(&token, NOW));
    }
}

#[test]
fn an_algorithm_mismatch_is_rejected_by_the_signature_check() {
    // The key demands HS256; a token declaring HS384 is rejected even
    // though it is signed with the right secret.
    let decoder = JwtDecoder::new(single_key_set(), &config());
    let mut header = Header::new(Algorithm::HS384);
    header.kid = Some("k1".to_string());
    let token = encode(&header, &full_payload(), &EncodingKey::from_secret(b"secret")).unwrap();
    expect_invalid(decoder.decode_at(&token, NOW));
}

#[test]
fn garbage_tokens_are_invalid() {
    let decoder = JwtDecoder::new(single_key_set(), &config());
    expect_invalid(decoder.decode_at("", NOW));
    expect_invalid(decoder.decode_at("a.b", NOW));
    expect_invalid(decoder.decode_at("not even a token", NOW));
}

#[test]
fn every_rejection_reads_the_same() {
    // Whatever failed — shape, signature, key id, expiry — the caller
    // sees one opaque message.
    let decoder = JwtDecoder::new(two_key_set(), &config());
    let mut expired = full_payload();
    expired["exp"] = serde_json::Value::from(NOW - 1);
    let rejected = [
        decoder.decode_at("not even a token", NOW),
        decoder.decode_at(&sign(&full_payload(), Some("k1"), b"wrong"), NOW),
        decoder.decode_at(&sign(&full_payload(), Some("k9"), b"secret"), NOW),
        decoder.decode_at(&sign(&expired, Some("k1"), b"secret"), NOW),
    ];
    for r in rejected {
        match r {
            Err(Error::Jwt(m)) => assert_eq!(m, "invalid token"),
            _ => panic!("the token should have been rejected"),
        }
    }
}

#[test]
fn a_key_with_an_unusable_algorithm_is_dropped() {
    // RSA-OAEP names no signing algorithm, so the first key is dropped and
    // the store keeps one key.
    let set = jwk_set(
        r#"{"keys":[
            {"kty":"oct","alg":"RSA-OAEP","kid":"bad","k":"c2VjcmV0"},
            {"kty":"oct","alg":"HS256","kid":"k1","k":"c2VjcmV0"}
        ]}"#,
    );
    let decoder = JwtDecoder::new(set, &config());
    assert_eq!(decoder.len(), 1);
    let token = sign(&full_payload(), Some("ignored"), b"secret");
    assert!(decoder.decode_at(&token, NOW).is_ok());
}

#[test]
fn a_key_without_an_algorithm_is_dropped() {
    let set = jwk_set(r#"{"keys":[{"kty":"oct","kid":"k1","k":"c2VjcmV0"}]}"#);
    let decoder = JwtDecoder::new(set, &config());
    assert_eq!(decoder.len(), 0);
}

#[test]
fn an_empty_store_rejects_every_token() {
    let decoder = JwtDecoder::new(jwk_set(r#"{"keys":[]}"#), &config());
    let token = sign(&full_payload(), Some("k1"), b"secret");
    expect_invalid(decoder.decode_at(&token, NOW));
}

#[test]
fn the_issuer_defaults_to_the_computed_issuer_url() {
    let mut cfg = config();
    cfg.token.issuer = None;
    let decoder = JwtDecoder::new(single_key_set(), &cfg);
    let token = sign(&full_payload(), Some("k1"), b"secret");
    assert!(decoder.decode_at(&token, NOW).is_ok());
    // A token from another issuer no longer validates.
    let mut payload = full_payload();
    payload["iss"] = serde_json::Value::String("https://other.example.com".to_string());
    let token = sign(&payload, Some("k1"), b"secret");
    expect_invalid(decoder.decode_at(&token, NOW));
}

#[test]
fn the_audience_defaults_to_the_client_id() {
    let mut cfg = config();
    cfg.token.audience = None;
    let decoder = JwtDecoder::new(single_key_set(), &cfg);
    let token = sign(&full_payload(), Some("k1"), b"secret");
    assert!(decoder.decode_at(&token, NOW).is_ok());
    let mut payload = full_payload();
    payload["aud"] = serde_json::Value::String("someone-else".to_string());
    let token = sign(&payload, Some("k1"), b"secret");
    expect_invalid(decoder.decode_at(&token, NOW));
}
