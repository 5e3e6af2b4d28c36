use recloak::{Claims, Error, RawClaims, RolesClaim, validate_claims};

const SUB: &str = "3f2a1b4c-5d6e-4f70-8191-a2b3c4d5e6f7";
const JTI: &str = "00000000-0000-4000-8000-000000000000";

fn raw() -> RawClaims {
    RawClaims {
        issuer: Some("https://kc.example.com/realms/master".to_string()),
        subject: Some(SUB.to_string()),
        audience: Some(vec!["my-client".to_string(), "other".to_string()]),
        expires_at: Some(2000),
        issued_at: Some(1000),
        id: Some(JTI.to_string()),
        username: Some("alice".to_string()),
        realm: Some(RolesClaim { roles: vec!["admin".to_string()] }),
        resource: Some(vec![(
            "my-client".to_string(),
            RolesClaim { roles: vec!["editor".to_string()] },
        )]),
    }
}

fn issuers() -> Vec<String> {
    vec!["https://kc.example.com/realms/master".to_string()]
}

fn audiences() -> Vec<String> {
    vec!["my-client".to_string()]
}

fn validated() -> Claims {
    validate_claims(raw(), 1500, &issuers(), &audiences()).unwrap()
}

#[test]
fn a_complete_current_payload_validates() {
    let c = validated();
    assert_eq!(c.issuer, "https://kc.example.com/realms/master");
    assert_eq!(c.subject, SUB);
    assert_eq!(c.audience, vec!["my-client".to_string(), "other".to_string()]);
    assert_eq!(c.expires_at, 2000);
    assert_eq!(c.issued_at, 1000);
    assert_eq!(c.id, JTI);
    assert_eq!(c.username, "alice");
    assert_eq!(c.realm.roles, vec!["admin".to_string()]);
}

fn expect_invalid(raw: RawClaims, now: i64) {
    match validate_claims(raw, now, &issuers(), &audiences()) {
        Err(Error::Jwt(m)) => assert_eq!(m, "invalid token"),
        _ => panic!("the payload should have been rejected"),
    }
}

#[test]
fn an_expired_payload_is_rejected() {
    // exp is 2000: the instant itself is already past.
    expect_invalid(raw(), 2000);
    expect_invalid(raw(), 5000);
    assert!(validate_claims(raw(), 1999, &issuers(), &audiences()).is_ok());
}

#[test]
fn a_payload_from_the_future_is_rejected() {
    expect_invalid(raw(), 999);
}

#[test]
fn each_missing_claim_is_rejected() {
    let mut r = raw();
    r.issuer = None;
    expect_invalid(r, 1500);
    let mut r = raw();
    r.subject = None;
    expect_invalid(r, 1500);
    let mut r = raw();
    r.audience = None;
    expect_invalid(r, 1500);
    let mut r = raw();
    r.expires_at = None;
    expect_invalid(r, 1500);
    let mut r = raw();
    r.issued_at = None;
    expect_invalid(r, 1500);
    let mut r = raw();
    r.id = None;
    expect_invalid(r, 1500);
    let mut r = raw();
    r.username = None;
    expect_invalid(r, 1500);
    let mut r = raw();
    r.realm = None;
    expect_invalid(r, 1500);
    let mut r = raw();
    r.resource = None;
    expect_invalid(r, 1500);
}

#[test]
fn a_foreign_issuer_is_rejected() {
    let mut r = raw();
    r.issuer = Some("https://evil.example.com".to_string());
    expect_invalid(r, 1500);
}

#[test]
fn a_disjoint_audience_is_rejected() {
    let mut r = raw();
    r.audience = Some(vec!["someone-else".to_string()]);
    expect_invalid(r, 1500);
}

#[test]
fn malformed_identifiers_are_rejected() {
    let mut r = raw();
    r.subject = Some("not-a-uuid".to_string());
    expect_invalid(r, 1500);
    let mut r = raw();
    r.id = Some("42".to_string());
    expect_invalid(r, 1500);
}

#[test]
fn is_subject_compares_uuid_values() {
    let c = validated();
    assert!(c.is_subject(SUB));
    // A UUID names the same value whatever the case of its digits.
    assert!(c.is_subject(&SUB.to_uppercase()));
    assert!(!c.is_subject(JTI));
    assert!(!c.is_subject("not-a-uuid"));
}

#[test]
fn is_user_compares_the_username() {
    let c = validated();
    assert!(c.is_user("alice"));
    assert!(!c.is_user("bob"));
}

#[test]
fn realm_roles_are_looked_up_exactly() {
    let c = validated();
    assert!(c.has_realm_role("admin"));
    assert!(!c.has_realm_role("editor"));
    assert!(!c.has_realm_role(""));
}

#[test]
fn resource_roles_are_looked_up_per_client() {
    let c = validated();
    assert!(c.has_role("my-client", "editor"));
    assert!(!c.has_role("my-client", "admin"));
    // An absent resource entry yields false, not an error.
    assert!(!c.has_role("unknown-client", "editor"));
}
