use tumblr_api::api::envelope_result;
use tumblr_api::client::{HttpMethod, Temporary, Unauthenticated};
use tumblr_api::error::{CredentialField, FormError};
use tumblr_api::oauth::{credentials_from_pairs, parse_credentials};
use tumblr_api::{Client, ClientError, OAuthCredentials, ResponseMeta};

fn new_client() -> Client<Unauthenticated> {
    Client::new("ckey".to_string(), "csecret".to_string())
}

#[test]
fn extract_verifier_present() {
    assert_eq!(
        Client::<Temporary>::parse_redirect_url("https://cb.example/?oauth_verifier=abc123&x=1"),
        Some("abc123".to_string())
    );
}

#[test]
fn extract_verifier_absent() {
    assert_eq!(Client::<Temporary>::parse_redirect_url("https://cb.example/?x=1"), None);
    assert_eq!(Client::<Temporary>::parse_redirect_url("no url at all"), None);
}

#[test]
fn extract_verifier_first_of_two() {
    assert_eq!(
        Client::<Temporary>::parse_redirect_url(
            "https://cb.example/?oauth_verifier=a%20b&oauth_verifier=c"
        ),
        Some("a b".to_string())
    );
}

#[test]
fn transition_fails_while_shared() {
    let client = new_client();
    let other = client.clone();
    match client.try_into_temporary("oauth_token=tmp&oauth_token_secret=tmps") {
        Ok(Err((back, credentials))) => {
            assert_eq!(credentials.oauth_token, "tmp");
            assert_eq!(credentials.oauth_token_secret, "tmps");
            drop(other);
            let temporary = back
                .try_into_temporary("oauth_token=tmp&oauth_token_secret=tmps")
                .unwrap()
                .unwrap();
            assert_eq!(
                temporary.generate_callback_url(),
                "https://www.tumblr.com/oauth/authorize?oauth_token=tmp"
            );
        },
        other => panic!("expected an ownership conflict, got {other:?}"),
    }
}

#[test]
fn three_legged_flow() {
    let client = new_client();
    let request = client.create_temporary_credentials(1700000000).unwrap();
    assert_eq!(request.method, HttpMethod::Post);
    assert_eq!(request.url, "https://www.tumblr.com/oauth/request_token");
    assert!(request.authorization.starts_with("OAuth oauth_consumer_key=\"ckey\",oauth_token=\"\","));
    assert!(request.authorization.contains("oauth_timestamp=\"1700000000\""));

    let temporary = client
        .try_into_temporary("oauth_token=tmp&oauth_token_secret=tmps")
        .unwrap()
        .unwrap();
    assert_eq!(
        temporary.generate_callback_url(),
        "https://www.tumblr.com/oauth/authorize?oauth_token=tmp"
    );

    let verifier = Client::<Temporary>::parse_redirect_url(
        "https://cb.example/?oauth_token=tmp&oauth_verifier=v1",
    )
    .unwrap();
    assert_eq!(verifier, "v1");
    let request = temporary.access_token_request(&verifier, 1700000001).unwrap();
    assert_eq!(request.url, "https://www.tumblr.com/oauth/access_token");
    assert!(request.authorization.contains("oauth_token=\"tmp\""));
    assert!(request.authorization.contains("oauth_verifier=\"v1\""));

    let authenticated = temporary
        .verify_token("oauth_token=acc&oauth_token_secret=accs")
        .unwrap()
        .unwrap();
    let request = authenticated.get_post(123, 1700000002).unwrap();
    assert_eq!(request.method, HttpMethod::Get);
    assert_eq!(request.url, "https://api.tumblr.com/v2/posts/123");
    assert!(request.authorization.contains("oauth_token=\"acc\""));

    let blog = authenticated.blog("staff");
    let request = blog.info(1700000003).unwrap();
    assert_eq!(request.url, "https://api.tumblr.com/v2/blog/staff/info");
}

#[test]
fn with_credentials_authenticates() {
    let credentials =
        OAuthCredentials { oauth_token: "acc".to_string(), oauth_token_secret: "accs".to_string() };
    let authenticated = new_client().with_credentials(credentials).unwrap();
    let request = authenticated.post("user/follow", 5).unwrap();
    assert_eq!(request.method, HttpMethod::Post);
    assert_eq!(request.url, "https://api.tumblr.com/v2/user/follow");
}

#[test]
fn credentials_response_missing_field() {
    let r = parse_credentials("oauth_token=tmp");
    assert!(matches!(
        r,
        Err(ClientError::DeserializeForm(FormError::MissingField(CredentialField::TokenSecret)))
    ));
    let r = parse_credentials("");
    assert!(matches!(
        r,
        Err(ClientError::DeserializeForm(FormError::MissingField(CredentialField::Token)))
    ));
}

#[test]
fn credentials_response_duplicate_field() {
    let r = parse_credentials("oauth_token=a&oauth_token=b&oauth_token_secret=s");
    assert!(matches!(
        r,
        Err(ClientError::DeserializeForm(FormError::DuplicateField(CredentialField::Token)))
    ));
}

#[test]
fn credentials_ignore_other_keys() {
    let pairs = vec![
        ("oauth_callback_confirmed".to_string(), "true".to_string()),
        ("oauth_token_secret".to_string(), "s".to_string()),
        ("oauth_token".to_string(), "t".to_string()),
    ];
    let c = credentials_from_pairs(&pairs).unwrap();
    assert_eq!(c.oauth_token, "t");
    assert_eq!(c.oauth_token_secret, "s");
}

#[test]
fn failed_transition_keeps_client() {
    let client = new_client();
    let r = client.try_into_temporary("garbage");
    assert!(matches!(r, Err(ClientError::DeserializeForm(_))));
}

#[test]
fn envelope_with_error_status() {
    let meta = ResponseMeta { status: 404, msg: "Not Found".to_string() };
    match envelope_result::<u32>(meta, None) {
        Err(ClientError::Tumblr(m)) => {
            assert_eq!(m.status, 404);
            assert_eq!(m.msg, "Not Found");
        },
        other => panic!("expected an API error, got {other:?}"),
    }
    let meta = ResponseMeta { status: 401, msg: "Unauthorized".to_string() };
    assert!(matches!(envelope_result(meta, Some(1u32)), Err(ClientError::Tumblr(_))));
}

#[test]
fn envelope_with_ok_status() {
    let meta = ResponseMeta { status: 200, msg: "OK".to_string() };
    assert_eq!(envelope_result(meta, Some(7u32)).unwrap(), 7);
}

#[test]
fn envelope_ok_status_without_response() {
    let meta = ResponseMeta { status: 200, msg: "OK".to_string() };
    assert!(matches!(envelope_result::<u32>(meta, None), Err(ClientError::DeserializeJson(_))));
}

#[test]
fn blog_shares_client() {
    let credentials =
        OAuthCredentials { oauth_token: "acc".to_string(), oauth_token_secret: "accs".to_string() };
    let authenticated = new_client().with_credentials(credentials).unwrap();
    let blog = authenticated.blog("staff");
    assert_eq!(blog.blog_identifier, "staff");
    let a = blog.info(9).unwrap();
    assert!(a.authorization.contains("oauth_token=\"acc\""));
    assert!(a.authorization.contains("oauth_consumer_key=\"ckey\""));
}
