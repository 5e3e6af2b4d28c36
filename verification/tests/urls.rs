use recloak::{ClientConfig, ClientSecret, Config, Error, HttpConfig, TokenConfig, UrlBuilder};

fn config(base: &str, realm: &str) -> Config {
    Config {
        client: ClientConfig {
            id: "my-client".to_string(),
            secret: ClientSecret::Basic("hunter2".to_string()),
            realm: realm.to_string(),
        },
        token: TokenConfig { issuer: None, audience: None },
        http: HttpConfig {
            auth_server_url: base.to_string(),
            user_agent: "recloak/0.1.0".to_string(),
            https_only: false,
        },
    }
}

#[test]
fn builder_normalizes_the_base() {
    let b = UrlBuilder::new("HTTP://EXAMPLE.com").unwrap();
    assert_eq!(b.take(), "http://example.com/");
}

#[test]
fn builder_pushes_segments() {
    let b = UrlBuilder::new("http://example.com").unwrap();
    let b = b.push("realms").push("master");
    assert_eq!(b.take(), "http://example.com/realms/master");
}

#[test]
fn builder_percent_encodes_segments() {
    let b = UrlBuilder::new("http://example.com").unwrap();
    let b = b.push("a b/c%d");
    assert_eq!(b.take(), "http://example.com/a%20b%2Fc%25d");
}

#[test]
fn builder_rejects_a_bad_base() {
    assert!(matches!(UrlBuilder::new("not a url"), Err(Error::UrlParse(_))));
    assert!(matches!(
        UrlBuilder::new("mailto:joe@example.com"),
        Err(Error::UrlParse(_))
    ));
}

#[test]
fn urls_derives_every_endpoint() {
    let endpoints = config("http://kc.example.com", "master").urls().unwrap();
    assert_eq!(endpoints.issuer, "http://kc.example.com/realms/master");
    assert_eq!(
        endpoints.auth,
        "http://kc.example.com/realms/master/protocol/openid-connect/auth"
    );
    assert_eq!(
        endpoints.token,
        "http://kc.example.com/realms/master/protocol/openid-connect/token"
    );
    assert_eq!(
        endpoints.introspect,
        "http://kc.example.com/realms/master/protocol/openid-connect/introspect"
    );
    assert_eq!(
        endpoints.userinfo,
        "http://kc.example.com/realms/master/protocol/openid-connect/userinfo"
    );
    assert_eq!(
        endpoints.jwks,
        "http://kc.example.com/realms/master/protocol/openid-connect/certs"
    );
}

#[test]
fn urls_encodes_the_realm_name() {
    let endpoints = config("https://kc.example.com", "my realm").urls().unwrap();
    assert_eq!(endpoints.issuer, "https://kc.example.com/realms/my%20realm");
}

#[test]
fn urls_rejects_a_bad_base() {
    assert!(config("::::", "master").urls().is_err());
}

#[test]
fn segments_are_spliced_ahead_of_a_query() {
    let b = UrlBuilder::new("http://example.com/?tenant=1").unwrap();
    assert_eq!(b.push("a").take(), "http://example.com/a?tenant=1");
    let b = UrlBuilder::new("http://example.com/base#frag").unwrap();
    assert_eq!(b.push("x").take(), "http://example.com/base/x#frag");
}

#[test]
fn urls_keep_the_base_query() {
    let endpoints = config("http://kc.example.com/?x=1", "master").urls().unwrap();
    assert_eq!(endpoints.issuer, "http://kc.example.com/realms/master?x=1");
    assert_eq!(
        endpoints.token,
        "http://kc.example.com/realms/master/protocol/openid-connect/token?x=1"
    );
}
