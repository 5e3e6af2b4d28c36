use vstd::prelude::*;

verus! {

/// The error taxonomy of the library.
///
/// Transport failures and provider-reported failures are kept apart, so that a
/// caller can tell "provider unreachable" from "provider reachable but the
/// credentials were rejected".
#[derive(Debug, Clone)]
pub enum Error {
    /// A base URL could not be parsed or cannot serve as a base for endpoints.
    UrlParse(String),
    /// A transport-level failure, or a response body that fits no expected shape.
    Http(String),
    /// A token failed validation; the message stays opaque to callers.
    Jwt(String),
    /// A string that should have held a UUID did not parse as one.
    Uuid(String),
    /// The provider answered a token request with a structured error payload.
    Authentication { code: String, description: Option<String> },
}

impl Error {
    /// A short label for the error family, usable in logs.
    pub fn kind_label(&self) -> (r: &'static str)
        ensures
            self is UrlParse ==> r@ == "url parse error"@,
            self is Http ==> r@ == "http error"@,
            self is Jwt ==> r@ == "jwt error"@,
            self is Uuid ==> r@ == "uuid error"@,
            self is Authentication ==> r@ == "authentication error"@,
    {
        match self {
            Error::UrlParse(_) => "url parse error",
            Error::Http(_) => "http error",
            Error::Jwt(_) => "jwt error",
            Error::Uuid(_) => "uuid error",
            Error::Authentication { .. } => "authentication error",
        }
    }
}

} // verus!
