use recloak::{AuthAction, Error, TokenResponse, TokenType};
use recloak::{interpret_token_reply, parse_error_payload, parse_token_response,
    plan_after_grant_failure, plan_authentication};

fn response(now: i64) -> TokenResponse {
    TokenResponse {
        token_type: Some(TokenType::Bearer),
        access_token: "tok-1".to_string(),
        expires_in: 300,
        refresh_token: Some("refresh-1".to_string()),
        refresh_expires_in: Some(1800),
        issued_at: now,
    }
}

#[test]
fn fresh_manager_plans_one_credentials_grant() {
    let cache: Option<TokenResponse> = None;
    assert!(matches!(
        plan_authentication(&cache, 1000),
        AuthAction::Credentials
    ));
    // The grant's result is cached; an immediate second call reuses the
    // same access token without planning any further grant.
    let cache = Some(response(1000));
    match plan_authentication(&cache, 1000) {
        AuthAction::UseCached(tok) => assert_eq!(tok, "tok-1"),
        _ => panic!("the cached token should be reused"),
    }
}

#[test]
fn valid_cache_is_reused_until_the_lifetime_elapses() {
    let cache = Some(response(1000));
    assert!(matches!(
        plan_authentication(&cache, 1299),
        AuthAction::UseCached(_)
    ));
    // The access lifetime has fully elapsed at issuance + lifetime.
    match plan_authentication(&cache, 1300) {
        AuthAction::Refresh(rt) => assert_eq!(rt, "refresh-1"),
        _ => panic!("an elapsed access token should be refreshed"),
    }
}

#[test]
fn expired_cache_without_refresh_token_plans_credentials() {
    let mut t = response(1000);
    t.refresh_token = None;
    assert!(matches!(
        plan_authentication(&Some(t), 2000),
        AuthAction::Credentials
    ));
}

#[test]
fn refresh_token_without_declared_lifetime_is_usable_indefinitely() {
    let mut t = response(1000);
    t.refresh_expires_in = None;
    assert!(matches!(
        plan_authentication(&Some(t), i64::MAX),
        AuthAction::Refresh(_)
    ));
}

#[test]
fn refresh_token_with_elapsed_lifetime_is_unusable() {
    let t = response(1000);
    // refresh lifetime elapses at 1000 + 1800 = 2800
    assert!(matches!(
        plan_authentication(&Some(t.clone()), 2799),
        AuthAction::Refresh(_)
    ));
    assert!(matches!(
        plan_authentication(&Some(t), 2800),
        AuthAction::Credentials
    ));
}

#[test]
fn failed_refresh_falls_back_to_credentials() {
    let next = plan_after_grant_failure(&AuthAction::Refresh("r".to_string()));
    assert!(matches!(next, Some(AuthAction::Credentials)));
    assert!(plan_after_grant_failure(&AuthAction::Credentials).is_none());
    assert!(plan_after_grant_failure(&AuthAction::UseCached("t".to_string())).is_none());
}

#[test]
fn expiry_is_inclusive_at_the_boundary() {
    let t = response(1000);
    assert!(!t.is_access_expired(1299));
    assert!(t.is_access_expired(1300));
    assert!(t.is_access_expired(5000));
}

#[test]
fn success_body_parses_and_is_stamped_locally() {
    let body = "{\"token_type\":\"Bearer\",\"access_token\":\"abc\",\"expires_in\":60,\"refresh_token\":\"def\",\"refresh_expires_in\":120}";
    let t = parse_token_response(body, 42).unwrap();
    assert!(matches!(t.token_type, Some(TokenType::Bearer)));
    assert_eq!(t.access_token, "abc");
    assert_eq!(t.expires_in, 60);
    assert_eq!(t.refresh_token.as_deref(), Some("def"));
    assert_eq!(t.refresh_expires_in, Some(120));
    assert_eq!(t.issued_at, 42);
}

#[test]
fn success_body_without_optional_fields_parses() {
    let body = "{\"access_token\":\"abc\",\"expires_in\":60}";
    let t = parse_token_response(body, 7).unwrap();
    assert!(t.token_type.is_none());
    assert!(t.refresh_token.is_none());
    assert!(t.refresh_expires_in.is_none());
}

#[test]
fn success_body_missing_the_token_is_an_error() {
    assert!(matches!(
        parse_token_response("{\"expires_in\":60}", 0),
        Err(Error::Http(_))
    ));
    assert!(matches!(
        parse_token_response("{\"access_token\":\"abc\"}", 0),
        Err(Error::Http(_))
    ));
    assert!(matches!(
        parse_token_response("not json", 0),
        Err(Error::Http(_))
    ));
    assert!(matches!(
        parse_token_response("{\"access_token\":\"a\",\"expires_in\":60,\"token_type\":\"mac\"}", 0),
        Err(Error::Http(_))
    ));
}

#[test]
fn error_payload_parses() {
    let body = "{\"error\":\"invalid_client\",\"error_description\":\"no such client\"}";
    let (code, description) = parse_error_payload(body).unwrap();
    assert_eq!(code, "invalid_client");
    assert_eq!(description.as_deref(), Some("no such client"));
    assert_eq!(
        parse_error_payload("{\"error\":\"x\"}"),
        Some(("x".to_string(), None))
    );
    assert!(parse_error_payload("{}").is_none());
    assert!(parse_error_payload("garbage").is_none());
}

#[test]
fn error_families_have_distinct_labels() {
    assert_eq!(Error::UrlParse(String::new()).kind_label(), "url parse error");
    assert_eq!(Error::Http(String::new()).kind_label(), "http error");
    assert_eq!(Error::Jwt(String::new()).kind_label(), "jwt error");
    assert_eq!(Error::Uuid(String::new()).kind_label(), "uuid error");
    assert_eq!(
        Error::Authentication { code: String::new(), description: None }.kind_label(),
        "authentication error"
    );
}

#[test]
fn token_reply_classification() {
    let ok_body = "{\"access_token\":\"abc\",\"expires_in\":60}";
    let t = interpret_token_reply(true, ok_body, 9).unwrap();
    assert_eq!(t.access_token, "abc");
    assert_eq!(t.issued_at, 9);

    let err_body = "{\"error\":\"invalid_grant\",\"error_description\":\"expired\"}";
    match interpret_token_reply(false, err_body, 9) {
        Err(Error::Authentication { code, description }) => {
            assert_eq!(code, "invalid_grant");
            assert_eq!(description.as_deref(), Some("expired"));
        }
        other => panic!("expected an authentication error, got {:?}", other.is_ok()),
    }

    assert!(matches!(
        interpret_token_reply(false, "not json", 9),
        Err(Error::Http(_))
    ));
}
