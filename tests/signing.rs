use tumblr_api::encode::oauth_encode;
use tumblr_api::oauth::{
    authorization_for, compute_signature, generate_nonce, make_signing_key, signature_base,
    timestamp_string,
};
use tumblr_api::params::normalize_parameters;

const CONSUMER_KEY: &str = "xvz1evFS4wEEPTGEFPHBog";
const CONSUMER_SECRET: &str = "kAcSOqF21Fu85e7zjz7ZN2U4ZRhfV3WpwPAoE3Z7kBw";
const TOKEN: &str = "370773112-GmHxMAgYyLbNEtIKZeRNFsMKPR9EyMZeS9weJAEb";
const TOKEN_SECRET: &str = "LswwdoUaIvS8ltyTt5jkRh4J50vUPVVHtR2YPi5kE";
const NONCE: &str = "kYjzVBB8Y0ZFabxSWbWovY3uYSQ2pTgmZeNu2VS4cg";
const STATUS: &str = "Hello Ladies + Gentlemen, a signed OAuth request!";
const EXPECTED_BASE: &str = "POST&https%3A%2F%2Fapi.twitter.com%2F1.1%2Fstatuses%2Fupdate.json&include_entities%3Dtrue%26oauth_consumer_key%3Dxvz1evFS4wEEPTGEFPHBog%26oauth_nonce%3DkYjzVBB8Y0ZFabxSWbWovY3uYSQ2pTgmZeNu2VS4cg%26oauth_signature_method%3DHMAC-SHA1%26oauth_timestamp%3D1318622958%26oauth_token%3D370773112-GmHxMAgYyLbNEtIKZeRNFsMKPR9EyMZeS9weJAEb%26oauth_version%3D1.0%26status%3DHello%2520Ladies%2520%252B%2520Gentlemen%252C%2520a%2520signed%2520OAuth%2520request%2521";
const EXPECTED_HEADER: &str = "OAuth oauth_consumer_key=\"xvz1evFS4wEEPTGEFPHBog\",oauth_token=\"370773112-GmHxMAgYyLbNEtIKZeRNFsMKPR9EyMZeS9weJAEb\",oauth_signature_method=\"HMAC-SHA1\",oauth_timestamp=\"1318622958\",oauth_nonce=\"kYjzVBB8Y0ZFabxSWbWovY3uYSQ2pTgmZeNu2VS4cg\",oauth_version=\"1.0\",oauth_signature=\"hCtSmYh%2BiHYCEqBWrE7C7hYmtUk%3D\"";

fn pairs(items: &[(&str, &str)]) -> Vec<(String, String)> {
    items.iter().map(|(k, v)| (k.to_string(), v.to_string())).collect()
}

fn reference_oauth_params() -> Vec<(String, String)> {
    pairs(&[
        ("oauth_consumer_key", CONSUMER_KEY),
        ("oauth_token", TOKEN),
        ("oauth_signature_method", "HMAC-SHA1"),
        ("oauth_timestamp", "1318622958"),
        ("oauth_nonce", NONCE),
        ("oauth_version", "1.0"),
    ])
}

#[test]
fn encode_passes_unreserved_through() {
    assert_eq!(oauth_encode("abcXYZ0189-._~"), "abcXYZ0189-._~");
    assert_eq!(oauth_encode(""), "");
}

#[test]
fn encode_escapes_with_uppercase_hex() {
    assert_eq!(
        oauth_encode(STATUS),
        "Hello%20Ladies%20%2B%20Gentlemen%2C%20a%20signed%20OAuth%20request%21"
    );
    assert_eq!(oauth_encode("/"), "%2F");
    assert_eq!(oauth_encode("\u{e9}"), "%C3%A9");
    assert_eq!(oauth_encode("\u{2603}"), "%E2%98%83");
    assert_eq!(oauth_encode("\u{1F600}"), "%F0%9F%98%80");
}

#[test]
fn encode_twice_escapes_percent() {
    assert_eq!(oauth_encode(&oauth_encode("a b")), "a%2520b");
}

#[test]
fn normalize_sorts_by_key_then_value() {
    let ps = pairs(&[("b", "x"), ("a", "2"), ("a", "1"), ("a b", "c")]);
    assert_eq!(normalize_parameters(&ps), "a=1&a=2&a%20b=c&b=x");
}

#[test]
fn normalize_ignores_input_order() {
    let ps = pairs(&[("z", "1"), ("y", "2"), ("x", "3"), ("y", "1")]);
    let mut qs = ps.clone();
    qs.reverse();
    let mut rs = ps.clone();
    rs.swap(0, 2);
    assert_eq!(normalize_parameters(&ps), normalize_parameters(&qs));
    assert_eq!(normalize_parameters(&ps), normalize_parameters(&rs));
    assert_eq!(normalize_parameters(&ps), "x=3&y=1&y=2&z=1");
}

#[test]
fn normalize_empty() {
    assert_eq!(normalize_parameters(&Vec::new()), "");
}

#[test]
fn reference_base_string() {
    let mut all = pairs(&[("include_entities", "true"), ("status", STATUS)]);
    all.extend(reference_oauth_params());
    let normalized = normalize_parameters(&all);
    let base = signature_base("POST", "https://api.twitter.com/1.1/statuses/update.json", &normalized);
    assert_eq!(base, EXPECTED_BASE);
}

#[test]
fn reference_signing_key_and_signature() {
    let key = make_signing_key(CONSUMER_SECRET, TOKEN_SECRET);
    assert_eq!(key, format!("{CONSUMER_SECRET}&{TOKEN_SECRET}"));
    assert_eq!(compute_signature(&key, EXPECTED_BASE), "hCtSmYh%2BiHYCEqBWrE7C7hYmtUk%3D");
}

#[test]
fn reference_authorization_header() {
    let query = pairs(&[("include_entities", "true"), ("status", STATUS)]);
    let header = authorization_for(
        "POST",
        "https://api.twitter.com/1.1/statuses/update.json",
        &query,
        &reference_oauth_params(),
        CONSUMER_SECRET,
        TOKEN_SECRET,
    );
    assert_eq!(header, EXPECTED_HEADER);
}

#[test]
fn signing_twice_gives_identical_headers() {
    let query = pairs(&[("b", "2"), ("a", "1")]);
    let oauth = pairs(&[
        ("oauth_consumer_key", "key"),
        ("oauth_token", "t"),
        ("oauth_signature_method", "HMAC-SHA1"),
        ("oauth_timestamp", "7"),
        ("oauth_nonce", "n"),
        ("oauth_version", "1.0"),
        ("oauth_verifier", "v1"),
    ]);
    let a = authorization_for("GET", "https://api.tumblr.com/v2/x", &query, &oauth, "secret", "ts");
    let b = authorization_for("GET", "https://api.tumblr.com/v2/x", &query, &oauth, "secret", "ts");
    assert_eq!(a, b);
    assert!(a.contains(",oauth_verifier=\"v1\",oauth_signature=\""));
    let c = authorization_for("GET", "https://api.tumblr.com/v2/x", &query, &oauth, "secret", "other");
    assert_ne!(a, c);
}

#[test]
fn nonces_differ() {
    let a = generate_nonce();
    let b = generate_nonce();
    assert_ne!(a, b);
    assert_eq!(a.len(), 12);
}

#[test]
fn timestamps_are_decimal() {
    assert_eq!(timestamp_string(0), "0");
    assert_eq!(timestamp_string(1318622958), "1318622958");
    assert_eq!(timestamp_string(u64::MAX), "18446744073709551615");
}
