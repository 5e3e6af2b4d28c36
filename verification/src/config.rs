use vstd::prelude::*;

use crate::error::Error;
use crate::urls::{UrlBuilder, base_url_of, push_spec};

verus! {

/// What the library needs to know about the service's own registration.
pub struct ClientConfig {
    pub id: String,
    pub secret: ClientSecret,
    pub realm: String,
}

/// Overrides for the accepted issuer and audience sets; when absent, the
/// computed issuer URL and the client id stand in.
pub struct TokenConfig {
    pub issuer: Option<Vec<String>>,
    pub audience: Option<Vec<String>>,
}

/// The provider's base authority and the transport settings handed to it.
pub struct HttpConfig {
    pub auth_server_url: String,
    pub user_agent: String,
    pub https_only: bool,
}

/// The secret material a client authenticates with.
pub enum ClientSecret {
    Basic(String),
}

/// The full configuration surface consumed by the library.
pub struct Config {
    pub client: ClientConfig,
    pub token: TokenConfig,
    pub http: HttpConfig,
}

/// The provider's endpoints, derived once from the base authority and realm.
#[derive(Debug, Clone)]
pub struct ServerEndpoints {
    pub issuer: String,
    pub auth: String,
    pub token: String,
    pub introspect: String,
    pub userinfo: String,
    pub jwks: String,
}

/// The issuer URL text computed from a normalized base and a realm name.
pub open spec fn issuer_url_spec(base: Seq<char>, realm: Seq<char>) -> Seq<char> {
    push_spec(push_spec(base, "realms"@), realm)
}

/// The URL text of the OpenID-Connect endpoint `leaf` for a realm.
pub open spec fn endpoint_url_spec(base: Seq<char>, realm: Seq<char>, leaf: Seq<char>) -> Seq<
    char,
> {
    push_spec(
        push_spec(push_spec(issuer_url_spec(base, realm), "protocol"@), "openid-connect"@),
        leaf,
    )
}

impl Config {
    /// Derives every provider endpoint from the configured base authority
    /// and realm; fails exactly when the base authority is no usable base URL.
    pub fn urls(&self) -> (r: Result<ServerEndpoints, Error>)
        ensures
            r is Ok <==> base_url_of(self.http.auth_server_url@) is Some,
            r matches Ok(e) ==> {
                let base = base_url_of(self.http.auth_server_url@)->0;
                let realm = self.client.realm@;
                &&& e.issuer@ == issuer_url_spec(base, realm)
                &&& e.auth@ == endpoint_url_spec(base, realm, "auth"@)
                &&& e.token@ == endpoint_url_spec(base, realm, "token"@)
                &&& e.introspect@ == endpoint_url_spec(base, realm, "introspect"@)
                &&& e.userinfo@ == endpoint_url_spec(base, realm, "userinfo"@)
                &&& e.jwks@ == endpoint_url_spec(base, realm, "certs"@)
            },
            r matches Err(e) ==> e is UrlParse,
    {
        let issuer = UrlBuilder::new(self.http.auth_server_url.as_str())?.push("realms").push(
            self.client.realm.as_str(),
        );
        let oidc = issuer.duplicate().push("protocol").push("openid-connect");
        let auth = oidc.duplicate().push("auth");
        let token = oidc.duplicate().push("token");
        let introspect = oidc.duplicate().push("introspect");
        let userinfo = oidc.duplicate().push("userinfo");
        let jwks = oidc.push("certs");
        Ok(
            ServerEndpoints {
                issuer: issuer.take(),
                auth: auth.take(),
                token: token.take(),
                introspect: introspect.take(),
                userinfo: userinfo.take(),
                jwks: jwks.take(),
            },
        )
    }
}

/// The user-agent header value used when none is configured.
pub fn default_http_user_agent() -> (r: String)
    ensures
        r@ == "recloak/0.1.0"@,
{
    "recloak/0.1.0".to_owned()
}

/// Whether connections are restricted to HTTPS when nothing is configured.
pub fn default_http_https_only() -> (r: bool)
    ensures
        r == false,
{
    false
}

} // verus!
