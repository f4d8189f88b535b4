//! Blogs: the information the API gives on one, and a handle for its calls.
use vstd::prelude::*;

use vstd::string::StringExecFns;

use crate::client::{api_url, is_nonce, signed_as, Authenticated, Client, HttpMethod, SignedRequest};
use crate::error::ClientError;

verus! {

/// What the API tells anyone about a blog.
#[derive(Debug, Clone, PartialEq)]
pub struct BlogInfo {
    pub title: String,
    pub posts: u64,
    pub name: String,
    /// seconds since the Unix epoch
    pub updated: u64,
    pub description: String,
    /// whether the blog takes asks
    pub ask: bool,
    /// whether the blog takes anonymous asks; absent where `ask` is false
    pub ask_anon: Option<bool>,
    /// only for a primary blog that shares its likes
    pub likes: Option<u8>,
}

/// What the API tells a member about a blog.
#[derive(Debug, Clone, PartialEq)]
pub struct AuthedBlogInfo {
    pub info: BlogInfo,
    pub is_blocked_from_primary: Option<bool>,
    /// time zone as a location, for members of the blog only
    pub timezone: Option<String>,
    /// time zone as an offset from UTC, for members of the blog only
    pub timezpme_offset: Option<String>,
}

/// An authenticated client bound to one blog.
#[derive(Debug, Clone)]
pub struct Blog {
    pub client: Client<Authenticated>,
    pub blog_identifier: String,
}

impl Client<Authenticated> {
    /// A handle on the blog `blog_identifier` that shares this client.
    pub fn blog(&self, blog_identifier: &str) -> (r: Blog)
        ensures
            r.blog_identifier@ == blog_identifier@,
            r.client.consumer_key() == self.consumer_key(),
            r.client.consumer_secret() == self.consumer_secret(),
            r.client.spec_state() == self.spec_state(),
    {
        Blog { client: self.share(), blog_identifier: String::from_str(blog_identifier) }
    }
}

impl Blog {
    /// A signed GET of the blog's information.
    pub fn info(&self, timestamp: u64) -> (r: core::result::Result<SignedRequest, ClientError>)
        ensures
            exists|n: Seq<char>|
                is_nonce(n) && signed_as(
                    r,
                    HttpMethod::Get,
                    api_url("blog/"@ + self.blog_identifier@ + "/info"@),
                    self.client.consumer_key(),
                    self.client.consumer_secret(),
                    self.client.spec_state().0.oauth_token@,
                    self.client.spec_state().0.oauth_token_secret@,
                    seq![],
                    timestamp,
                    n,
                ),
    {
        self.client.blog_info(self.blog_identifier.as_str(), timestamp)
    }
}

} // verus!
