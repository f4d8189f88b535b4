//! The client and its credential states: unauthenticated, temporary, authenticated.
use std::sync::Arc;

use vstd::prelude::*;

use vstd::string::StringExecFns;

use crate::crypto::base64_of;
use crate::error::ClientError;
use crate::oauth::{
    push_decimal,
    authorization_for, authorization_header, credentials_in, decimal, first_value,
    generate_nonce, parse_credentials, protocol_param_list, protocol_params, timestamp_string,
    OAuthCredentials,
};
use crate::params::{params_view, ParamView};
use crate::sealed::ClientStateSealed;
use crate::text::{push_char, push_str};
use crate::wire::{form_pairs_of, split_url, url_parts_of};

verus! {

/// A stage of the handshake; each holds only the credentials valid for it.
pub trait State: ClientStateSealed {}

/// No credentials yet.
#[derive(Debug, Clone)]
pub struct Unauthenticated;

/// Access credentials, with which API calls are signed.
#[derive(Debug, Clone)]
pub struct Authenticated(pub OAuthCredentials);

/// Temporary credentials, good only for finishing the handshake.
#[derive(Debug, Clone)]
pub struct Temporary(pub OAuthCredentials);

impl ClientStateSealed for Unauthenticated {}

impl State for Unauthenticated {}

impl ClientStateSealed for Authenticated {}

impl State for Authenticated {}

impl ClientStateSealed for Temporary {}

impl State for Temporary {}

/// The shared part of a client: the application's keys and the state.
#[derive(Debug)]
pub struct ClientInner<S: State> {
    pub oauth_consumer_key: String,
    pub oauth_client_secret: String,
    pub state: S,
}

/// Relies on `Arc::try_unwrap`: the value when no other `Arc` shares it, else
/// the `Arc` unchanged.
#[verifier::external_body]
fn take_inner<S: State>(a: Arc<ClientInner<S>>) -> (r: core::result::Result<
    ClientInner<S>,
    Arc<ClientInner<S>>,
>)
    ensures
        match r {
            Ok(t) => t == *a,
            Err(e) => e == a,
        },
{
    Arc::try_unwrap(a)
}

/// Relies on `Arc::clone`: another `Arc` to the same value.
#[verifier::external_body]
fn share_inner<S: State>(a: &Arc<ClientInner<S>>) -> (r: Arc<ClientInner<S>>)
    ensures
        *r == **a,
{
    Arc::clone(a)
}

/// A client in state `S`. Clones share one value; a change of state needs the only one.
#[derive(Debug, Clone)]
pub struct Client<S: State> {
    pub(crate) inner: Arc<ClientInner<S>>,
}

/// The HTTP methods that signed requests use.
#[derive(Debug, Clone, Copy, PartialEq, Eq, Structural)]
pub enum HttpMethod {
    Get,
    Post,
}

/// The name of a method, in upper case.
pub open spec fn method_name(m: HttpMethod) -> Seq<char> {
    match m {
        HttpMethod::Get => "GET"@,
        HttpMethod::Post => "POST"@,
    }
}

impl HttpMethod {
    /// The name of the method, in upper case.
    pub fn as_str(&self) -> (r: &'static str)
        ensures
            r@ == method_name(*self),
    {
        match self {
            HttpMethod::Get => "GET",
            HttpMethod::Post => "POST",
        }
    }
}

/// A request ready to send: method, URL and the `Authorization` header value.
#[derive(Debug, Clone)]
pub struct SignedRequest {
    pub method: HttpMethod,
    pub url: String,
    pub authorization: String,
}

/// Whether `r` is the request `url` signed with the given keys, token, extra
/// OAuth parameters, timestamp and nonce; or, where `url` does not parse, the
/// URL error.
pub open spec fn signed_as(
    r: core::result::Result<SignedRequest, ClientError>,
    method: HttpMethod,
    url: Seq<char>,
    consumer_key: Seq<char>,
    consumer_secret: Seq<char>,
    token: Seq<char>,
    token_secret: Seq<char>,
    extra: Seq<ParamView>,
    timestamp: u64,
    nonce: Seq<char>,
) -> bool {
    match url_parts_of(url) {
        None => r matches Err(ClientError::UrlParse(_)),
        Some(parts) => r matches Ok(sr) && sr.method == method && sr.url@ == url
            && sr.authorization@ == authorization_header(
            method_name(method),
            parts.0,
            parts.1,
            protocol_params(consumer_key, token, decimal(timestamp as nat), nonce, extra),
            consumer_secret,
            token_secret,
        ),
    }
}

/// Whether `n` is a nonce as `generate_nonce` makes them.
pub open spec fn is_nonce(n: Seq<char>) -> bool {
    exists|b: Seq<u8>| b.len() == 8 && n == base64_of(b)
}

impl<S: State> Client<S> {
    /// The consumer key.
    pub closed spec fn consumer_key(&self) -> Seq<char> {
        self.inner.oauth_consumer_key@
    }

    /// The consumer secret.
    pub closed spec fn consumer_secret(&self) -> Seq<char> {
        self.inner.oauth_client_secret@
    }

    /// The state.
    pub closed spec fn spec_state(&self) -> S {
        self.inner.state
    }

    /// Another handle on this client, sharing its keys and state.
    pub fn share(&self) -> (r: Self)
        ensures
            r.consumer_key() == self.consumer_key(),
            r.consumer_secret() == self.consumer_secret(),
            r.spec_state() == self.spec_state(),
    {
        Client { inner: share_inner(&self.inner) }
    }

    pub(crate) fn state(&self) -> (r: &S)
        ensures
            *r == self.spec_state(),
    {
        &self.inner.state
    }

    /// Moves the keys into a client in state `state`. Fails, handing back
    /// this client and `state` unchanged, while another clone of this client lives.
    pub(crate) fn try_into_other_state<U: State>(self, state: U) -> (r: core::result::Result<
        Client<U>,
        (Self, U),
    >)
        ensures
            match r {
                Ok(c) => c.consumer_key() == self.consumer_key() && c.consumer_secret()
                    == self.consumer_secret() && c.spec_state() == state,
                Err((c, u)) => c == self && u == state,
            },
    {
        match take_inner(self.inner) {
            Ok(inner) => {
                let ClientInner { oauth_consumer_key, oauth_client_secret, .. } = inner;
                Ok(Client {
                    inner: Arc::new(ClientInner { oauth_consumer_key, oauth_client_secret, state }),
                })
            },
            Err(inner) => Err((Client { inner }, state)),
        }
    }

    /// Signs a request to `url` with this client's keys, the token `token` and
    /// its secret (both empty where there is no token), the extra OAuth
    /// parameters `extra`, the timestamp and the nonce. The URL's query takes
    /// part in the signature and stays on the URL.
    pub(crate) fn sign(
        &self,
        method: HttpMethod,
        url: &str,
        token: &str,
        token_secret: &str,
        extra: &Vec<(String, String)>,
        timestamp: u64,
        nonce: &str,
    ) -> (r: core::result::Result<SignedRequest, ClientError>)
        ensures
            signed_as(
                r,
                method,
                url@,
                self.consumer_key(),
                self.consumer_secret(),
                token@,
                token_secret@,
                params_view(extra@),
                timestamp,
                nonce@,
            ),
    {
        let (base, query) = match split_url(url) {
            Ok(parts) => parts,
            Err(e) => {
                return Err(ClientError::UrlParse(e));
            },
        };
        let ts = timestamp_string(timestamp);
        let oauth = protocol_param_list(
            self.inner.oauth_consumer_key.as_str(),
            token,
            ts.as_str(),
            nonce,
            extra,
        );
        let authorization = authorization_for(
            method.as_str(),
            base.as_str(),
            &query,
            &oauth,
            self.inner.oauth_client_secret.as_str(),
            token_secret,
        );
        Ok(SignedRequest { method, url: String::from_str(url), authorization })
    }

    /// Signs a request as `sign` does, with a fresh nonce.
    pub(crate) fn sign_fresh(
        &self,
        method: HttpMethod,
        url: &str,
        token: &str,
        token_secret: &str,
        extra: &Vec<(String, String)>,
        timestamp: u64,
    ) -> (r: core::result::Result<SignedRequest, ClientError>)
        ensures
            exists|n: Seq<char>|
                is_nonce(n) && signed_as(
                    r,
                    method,
                    url@,
                    self.consumer_key(),
                    self.consumer_secret(),
                    token@,
                    token_secret@,
                    params_view(extra@),
                    timestamp,
                    n,
                ),
    {
        let nonce = generate_nonce();
        let r = self.sign(method, url, token, token_secret, extra, timestamp, nonce.as_str());
        assert(is_nonce(nonce@));
        r
    }
}

/// Where temporary credentials are requested.
pub const REQUEST_TOKEN_URL: &'static str = "https://www.tumblr.com/oauth/request_token";

/// Where temporary credentials are exchanged for access credentials.
pub const ACCESS_TOKEN_URL: &'static str = "https://www.tumblr.com/oauth/access_token";

/// Where the user grants access; the temporary token follows this prefix.
pub const AUTHORIZE_URL_PREFIX: &'static str = "https://www.tumblr.com/oauth/authorize?oauth_token=";

/// The root of the resource API.
pub const API_BASE: &'static str = "https://api.tumblr.com/v2";

impl Client<Unauthenticated> {
    /// Creates a new unauthenticated client with the application's keys.
    pub fn new(oauth_consumer_key: String, oauth_client_secret: String) -> (r: Self)
        ensures
            r.consumer_key() == oauth_consumer_key@,
            r.consumer_secret() == oauth_client_secret@,
    {
        Client {
            inner: Arc::new(
                ClientInner { oauth_consumer_key, oauth_client_secret, state: Unauthenticated },
            ),
        }
    }

    /// Makes an authenticated client of access credentials already at hand.
    /// Fails, handing both back, while another clone of this client lives.
    pub fn with_credentials(self, credentials: OAuthCredentials) -> (r: core::result::Result<
        Client<Authenticated>,
        (Self, OAuthCredentials),
    >)
        ensures
            match r {
                Ok(c) => c.consumer_key() == self.consumer_key() && c.consumer_secret()
                    == self.consumer_secret() && c.spec_state().0 == credentials,
                Err((c, k)) => c == self && k == credentials,
            },
    {
        match self.try_into_other_state(Authenticated(credentials)) {
            Ok(c) => Ok(c),
            Err((c, state)) => Err((c, state.0)),
        }
    }

    /// The signed POST that asks for temporary credentials: no token, empty
    /// token secret, a fresh nonce.
    pub fn create_temporary_credentials(&self, timestamp: u64) -> (r: core::result::Result<
        SignedRequest,
        ClientError,
    >)
        ensures
            exists|n: Seq<char>|
                is_nonce(n) && signed_as(
                    r,
                    HttpMethod::Post,
                    REQUEST_TOKEN_URL@,
                    self.consumer_key(),
                    self.consumer_secret(),
                    ""@,
                    ""@,
                    seq![],
                    timestamp,
                    n,
                ),
    {
        let extra: Vec<(String, String)> = Vec::new();
        proof {
            assert(params_view(extra@) =~= seq![]);
        }
        self.sign_fresh(HttpMethod::Post, REQUEST_TOKEN_URL, "", "", &extra, timestamp)
    }

    /// Moves to the temporary state with the credentials in `response_body`,
    /// the form-encoded answer to `create_temporary_credentials`. A body
    /// without credentials is an error and leaves the client as it is; while
    /// another clone of this client lives, the client and the credentials
    /// come back in `Ok(Err(..))`.
    pub fn try_into_temporary(self, response_body: &str) -> (r: core::result::Result<
        core::result::Result<Client<Temporary>, (Self, OAuthCredentials)>,
        ClientError,
    >)
        ensures
            credentials_in(form_pairs_of(response_body@)) is None ==> r matches Err(
                ClientError::DeserializeForm(_),
            ),
            credentials_in(form_pairs_of(response_body@)) is Some ==> r is Ok,
            r matches Err(e) ==> e is DeserializeForm,
            r matches Ok(Ok(c)) ==> c.consumer_key() == self.consumer_key() && c.consumer_secret()
                == self.consumer_secret() && credentials_in(form_pairs_of(response_body@))
                == Some((c.spec_state().0.oauth_token@, c.spec_state().0.oauth_token_secret@)),
            r matches Ok(Err((c, k))) ==> c == self && credentials_in(
                form_pairs_of(response_body@),
            ) == Some((k.oauth_token@, k.oauth_token_secret@)),
    {
        let credentials = match parse_credentials(response_body) {
            Ok(c) => c,
            Err(e) => {
                return Err(e);
            },
        };
        match self.try_into_other_state(Temporary(credentials)) {
            Ok(c) => Ok(Ok(c)),
            Err((c, state)) => Ok(Err((c, state.0))),
        }
    }
}

impl Client<Temporary> {
    /// The page where the user grants access to the temporary token.
    pub fn generate_callback_url(&self) -> (r: String)
        ensures
            r@ == AUTHORIZE_URL_PREFIX@ + self.spec_state().0.oauth_token@,
    {
        let mut out = String::from_str(AUTHORIZE_URL_PREFIX);
        push_str(&mut out, self.state().0.oauth_token.as_str());
        out
    }

    /// The `oauth_verifier` of the redirect URL `url`: the value of the first
    /// query pair with that key; `None` where there is none or `url` does not parse.
    pub fn parse_redirect_url(url: &str) -> (r: Option<String>)
        ensures
            match url_parts_of(url@) {
                None => r is None,
                Some(parts) => match r {
                    Some(v) => first_value(parts.1, "oauth_verifier"@) == Some(v@),
                    None => first_value(parts.1, "oauth_verifier"@) is None,
                },
            },
    {
        let (_base, query) = match split_url(url) {
            Ok(parts) => parts,
            Err(_) => {
                return None;
            },
        };
        let ghost qv = params_view(query@);
        let key = String::from_str("oauth_verifier");
        let mut i: usize = 0;
        proof {
            assert(qv.take(0) =~= Seq::<ParamView>::empty());
        }
        while i < query.len()
            invariant
                i <= query.len(),
                qv == params_view(query@),
                url_parts_of(url@) matches Some(parts) && parts.1 == qv,
                key@ == "oauth_verifier"@,
                first_value(qv.take(i as int), key@) is None,
            decreases query.len() - i,
        {
            proof {
                assert(qv.take(i + 1).drop_last() =~= qv.take(i as int));
                assert(qv[i as int] == (query@[i as int].0@, query@[i as int].1@));
            }
            if query[i].0 == key {
                proof {
                    lemma_first_value_extends(qv, key@, i as int);
                }
                return Some(query[i].1.clone());
            }
            i += 1;
        }
        proof {
            assert(qv.take(query.len() as int) =~= qv);
        }
        None
    }

    /// The signed POST that exchanges the temporary credentials and the
    /// verifier for access credentials; `oauth_verifier` goes with the OAuth
    /// parameters.
    pub fn access_token_request(&self, oauth_verifier: &str, timestamp: u64) -> (r:
        core::result::Result<SignedRequest, ClientError>)
        ensures
            exists|n: Seq<char>|
                is_nonce(n) && signed_as(
                    r,
                    HttpMethod::Post,
                    ACCESS_TOKEN_URL@,
                    self.consumer_key(),
                    self.consumer_secret(),
                    self.spec_state().0.oauth_token@,
                    self.spec_state().0.oauth_token_secret@,
                    seq![("oauth_verifier"@, oauth_verifier@)],
                    timestamp,
                    n,
                ),
    {
        let mut extra: Vec<(String, String)> = Vec::new();
        extra.push((String::from_str("oauth_verifier"), String::from_str(oauth_verifier)));
        proof {
            assert(params_view(extra@) =~= seq![("oauth_verifier"@, oauth_verifier@)]);
        }
        let credentials = &self.state().0;
        self.sign_fresh(
            HttpMethod::Post,
            ACCESS_TOKEN_URL,
            credentials.oauth_token.as_str(),
            credentials.oauth_token_secret.as_str(),
            &extra,
            timestamp,
        )
    }

    /// Moves to the authenticated state with the credentials in
    /// `response_body`, the form-encoded answer to `access_token_request`. A
    /// body without credentials is an error and leaves the client as it is;
    /// while another clone of this client lives, the client and the
    /// credentials come back in `Ok(Err(..))`.
    pub fn verify_token(self, response_body: &str) -> (r: core::result::Result<
        core::result::Result<Client<Authenticated>, (Self, OAuthCredentials)>,
        ClientError,
    >)
        ensures
            credentials_in(form_pairs_of(response_body@)) is None ==> r matches Err(
                ClientError::DeserializeForm(_),
            ),
            credentials_in(form_pairs_of(response_body@)) is Some ==> r is Ok,
            r matches Err(e) ==> e is DeserializeForm,
            r matches Ok(Ok(c)) ==> c.consumer_key() == self.consumer_key() && c.consumer_secret()
                == self.consumer_secret() && credentials_in(form_pairs_of(response_body@))
                == Some((c.spec_state().0.oauth_token@, c.spec_state().0.oauth_token_secret@)),
            r matches Ok(Err((c, k))) ==> c == self && credentials_in(
                form_pairs_of(response_body@),
            ) == Some((k.oauth_token@, k.oauth_token_secret@)),
    {
        let credentials = match parse_credentials(response_body) {
            Ok(c) => c,
            Err(e) => {
                return Err(e);
            },
        };
        match self.try_into_other_state(Authenticated(credentials)) {
            Ok(c) => Ok(Ok(c)),
            Err((c, state)) => Ok(Err((c, state.0))),
        }
    }
}

proof fn lemma_first_value_extends(ps: Seq<ParamView>, k: Seq<char>, i: int)
    requires
        0 <= i < ps.len(),
        first_value(ps.take(i), k) is None,
        ps[i].0 == k,
    ensures
        first_value(ps, k) == Some(ps[i].1),
    decreases ps.len(),
{
    if i < ps.len() - 1 {
        assert(ps.drop_last().take(i) =~= ps.take(i));
        lemma_first_value_extends(ps.drop_last(), k, i);
    } else {
        assert(ps.drop_last() =~= ps.take(i));
    }
}

/// The URL of the API resource at `path`.
pub open spec fn api_url(path: Seq<char>) -> Seq<char> {
    API_BASE@ + seq!['/'] + path
}

impl Client<Authenticated> {
    /// The signed request for the API resource at `path`, signed with the
    /// access credentials and a fresh nonce.
    pub fn request(&self, method: HttpMethod, path: &str, timestamp: u64) -> (r:
        core::result::Result<SignedRequest, ClientError>)
        ensures
            exists|n: Seq<char>|
                is_nonce(n) && signed_as(
                    r,
                    method,
                    api_url(path@),
                    self.consumer_key(),
                    self.consumer_secret(),
                    self.spec_state().0.oauth_token@,
                    self.spec_state().0.oauth_token_secret@,
                    seq![],
                    timestamp,
                    n,
                ),
    {
        let mut url = String::from_str(API_BASE);
        push_char(&mut url, '/');
        push_str(&mut url, path);
        assert(url@ =~= api_url(path@));
        let extra: Vec<(String, String)> = Vec::new();
        proof {
            assert(params_view(extra@) =~= seq![]);
        }
        let credentials = &self.state().0;
        self.sign_fresh(
            method,
            url.as_str(),
            credentials.oauth_token.as_str(),
            credentials.oauth_token_secret.as_str(),
            &extra,
            timestamp,
        )
    }

    /// A signed GET of the resource at `path`.
    pub fn get(&self, path: &str, timestamp: u64) -> (r: core::result::Result<
        SignedRequest,
        ClientError,
    >)
        ensures
            exists|n: Seq<char>|
                is_nonce(n) && signed_as(
                    r,
                    HttpMethod::Get,
                    api_url(path@),
                    self.consumer_key(),
                    self.consumer_secret(),
                    self.spec_state().0.oauth_token@,
                    self.spec_state().0.oauth_token_secret@,
                    seq![],
                    timestamp,
                    n,
                ),
    {
        self.request(HttpMethod::Get, path, timestamp)
    }

    /// A signed POST to the resource at `path`.
    pub fn post(&self, path: &str, timestamp: u64) -> (r: core::result::Result<
        SignedRequest,
        ClientError,
    >)
        ensures
            exists|n: Seq<char>|
                is_nonce(n) && signed_as(
                    r,
                    HttpMethod::Post,
                    api_url(path@),
                    self.consumer_key(),
                    self.consumer_secret(),
                    self.spec_state().0.oauth_token@,
                    self.spec_state().0.oauth_token_secret@,
                    seq![],
                    timestamp,
                    n,
                ),
    {
        self.request(HttpMethod::Post, path, timestamp)
    }

    /// A signed GET of the information on the blog `blog_identifier`.
    pub fn blog_info(&self, blog_identifier: &str, timestamp: u64) -> (r: core::result::Result<
        SignedRequest,
        ClientError,
    >)
        ensures
            exists|n: Seq<char>|
                is_nonce(n) && signed_as(
                    r,
                    HttpMethod::Get,
                    api_url("blog/"@ + blog_identifier@ + "/info"@),
                    self.consumer_key(),
                    self.consumer_secret(),
                    self.spec_state().0.oauth_token@,
                    self.spec_state().0.oauth_token_secret@,
                    seq![],
                    timestamp,
                    n,
                ),
    {
        let mut path = String::from_str("blog/");
        push_str(&mut path, blog_identifier);
        push_str(&mut path, "/info");
        self.get(path.as_str(), timestamp)
    }

    /// A signed GET of the post `post_id`.
    pub fn get_post(&self, post_id: u64, timestamp: u64) -> (r: core::result::Result<
        SignedRequest,
        ClientError,
    >)
        ensures
            exists|n: Seq<char>|
                is_nonce(n) && signed_as(
                    r,
                    HttpMethod::Get,
                    api_url("posts/"@ + decimal(post_id as nat)),
                    self.consumer_key(),
                    self.consumer_secret(),
                    self.spec_state().0.oauth_token@,
                    self.spec_state().0.oauth_token_secret@,
                    seq![],
                    timestamp,
                    n,
                ),
    {
        let mut path = String::from_str("posts/");
        push_decimal(&mut path, post_id);
        self.get(path.as_str(), timestamp)
    }
}

/// Signing is deterministic: two requests signed from the same method, URL,
/// keys, token, extra parameters, timestamp and nonce either both fail on the
/// URL or carry byte-identical `Authorization` headers.
pub proof fn lemma_signing_deterministic(
    r1: core::result::Result<SignedRequest, ClientError>,
    r2: core::result::Result<SignedRequest, ClientError>,
    method: HttpMethod,
    url: Seq<char>,
    consumer_key: Seq<char>,
    consumer_secret: Seq<char>,
    token: Seq<char>,
    token_secret: Seq<char>,
    extra: Seq<ParamView>,
    timestamp: u64,
    nonce: Seq<char>,
)
    requires
        signed_as(r1, method, url, consumer_key, consumer_secret, token, token_secret, extra, timestamp, nonce),
        signed_as(r2, method, url, consumer_key, consumer_secret, token, token_secret, extra, timestamp, nonce),
    ensures
        r1 is Ok <==> r2 is Ok,
        r1 matches Ok(a) ==> (r2 matches Ok(b) && a.authorization@ == b.authorization@ && a.url@
            == b.url@ && a.method == b.method),
{
}

} // verus!
