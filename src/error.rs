use vstd::prelude::*;

verus! {

#[verifier::external_type_specification]
#[verifier::external_body]
pub struct ExUrlParseError(url::ParseError);

#[verifier::external_type_specification]
#[verifier::external_body]
pub struct ExFormSerError(serde_urlencoded::ser::Error);

#[verifier::external_type_specification]
#[verifier::external_body]
pub struct ExFormDeError(serde::de::value::Error);

#[verifier::external_type_specification]
#[verifier::external_body]
pub struct ExHttpError(http::Error);

/// Everything that can go wrong while starting or checking a sign-in.
#[derive(Debug)]
pub enum AuthError {
    /// The site URL or the return path does not make a valid absolute URL.
    BadUrl(url::ParseError),
    /// The sign-in request could not be form-encoded.
    ParseQueryString(serde_urlencoded::ser::Error),
    /// The provider did not confirm the assertion.
    AuthenticationFailed,
    /// The claimed identity does not end in a numeric Steam ID.
    ParseSteamId,
    /// An HTTP request or response could not be built.
    BuildHttpStruct(http::Error),
    /// The verification form could not be encoded.
    Serialize(serde_urlencoded::ser::Error),
    /// The callback's query string is malformed or lacks a required field.
    Deserialize(serde_urlencoded::de::Error),
}

} // verus!
