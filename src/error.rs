//! The errors of the library.
use vstd::prelude::*;

use crate::api::ResponseMeta;

verus! {

#[verifier::external_type_specification]
#[verifier::external_body]
pub struct ExUrlParseError(url::ParseError);

#[verifier::external_type_specification]
#[verifier::external_body]
pub struct ExFormDeError(serde_urlencoded::de::Error);

/// A field of a credentials response.
#[derive(Debug, Clone, Copy, PartialEq, Eq, Structural)]
pub enum CredentialField {
    Token,
    TokenSecret,
}

/// Why a form-encoded credentials response was refused.
#[derive(Debug)]
pub enum FormError {
    /// The body is not form-encoded text.
    Syntax(serde_urlencoded::de::Error),
    /// The field does not occur.
    MissingField(CredentialField),
    /// The field occurs more than once.
    DuplicateField(CredentialField),
}

/// Everything that can go wrong talking to the API.
#[derive(Debug)]
pub enum ClientError {
    /// The envelope's status was not 200.
    Tumblr(ResponseMeta),
    /// The transport failed; the text describes how.
    Http(String),
    /// An endpoint or redirect URL does not parse.
    UrlParse(url::ParseError),
    /// A JSON response body does not have the expected shape.
    DeserializeJson(String),
    /// A form-encoded response body does not hold credentials.
    DeserializeForm(FormError),
}

/// Shorthand for results of this library.
pub type Result<T> = core::result::Result<T, ClientError>;

} // verus!
