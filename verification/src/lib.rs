//! A credential-issuance and token-validation client for an OpenID-Connect
//! identity provider. The library owns the verified core: endpoint
//! composition, the key-set-backed token validator, the credential lifecycle
//! state machine, and the middleware decision logic. Transport (HTTP, RPC)
//! lives outside, and hands the library plain values.

mod config;
mod error;
mod json;
mod jwt;
mod manager;
pub mod middleware;
mod strs;
mod token;
mod urls;

pub use config::{ClientConfig, ClientSecret, Config, HttpConfig, ServerEndpoints, TokenConfig};
pub use config::{default_http_https_only, default_http_user_agent, endpoint_url_spec, issuer_url_spec};
pub use error::Error;
pub use json::{JsonModel, as_int, as_str, int_field, json_model, json_of_text, obj_field,
    one_or_many, str_field, string_items};
pub use jwt::{JwtDecoder, extract_raw_claims, header_kid_of, jwk_ids_of, kept_kids,
    matching_key_index, payload_of, recognized_algorithm, selection_spec, sig_ok_of, usable_jwk,
    usable_key};
pub use jwt::{aud_field, claims_match_payload, payload_accepted, payload_current, payload_wf,
    realm_field, resource_entries_model, resource_field, resource_view, roles_content,
    roles_model};
pub use jwt::{lemma_single_key_ignores_kid, lemma_unmatched_kid_selects_nothing};
pub use manager::{AuthAction, ClientGrant, TokenResponse, TokenType};
pub use manager::{description_field, error_body_ok, error_reply_ok, interpret_token_reply,
    now_unix, parse_error_payload, parse_token_response, plan_after_grant_failure,
    plan_authentication, plan_spec, token_body_ok, token_reply_ok, token_response_matches};
pub use manager::{lemma_expired_token_never_reused, lemma_refresh_lifetime,
    lemma_single_grant_for_fresh_manager};
pub use strs::str_eq;
pub use token::{Claims, RawClaims, RolesClaim, TokenData};
pub use token::{claims_accepted, claims_valid_at, required_claims_present, resource_keys_distinct,
    resource_lookup, uuid_of, validate_claims};
pub use token::{lemma_expired_claims_rejected, lemma_missing_claim_rejected};
pub use urls::{UrlBuilder, base_url_of, encode_segment_spec, marker_index, push_spec};
