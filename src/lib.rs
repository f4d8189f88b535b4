//! OAuth 1.0a request signing and credential handshake for the Tumblr API.
pub mod api;
pub mod blog;
pub mod client;
pub mod crypto;
pub mod encode;
pub mod error;
pub mod oauth;
pub mod params;
pub mod post;
mod sealed;
mod text;
pub mod wire;

pub use api::ResponseMeta;
pub use error::{ClientError, Result};
pub use oauth::OAuthCredentials;
pub use client::{Authenticated, Client, HttpMethod, SignedRequest, State, Temporary, Unauthenticated};
