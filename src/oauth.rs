//! OAuth 1.0a signing: the signature base string, the signing key, the
//! HMAC-SHA1 signature and the `Authorization` header.
use vstd::prelude::*;

use crate::crypto::{base64_encode, base64_of, hmac_sha1, hmac_sha1_of};
use crate::encode::{oauth_encode, oauth_encoded};
use crate::params::{
    encoded_params, normalize_parameters, normalized_params, params_view, ParamView,
};
use crate::error::{CredentialField, ClientError, FormError};
use crate::text::{push_char, push_str};
use crate::wire::{form_pairs_of, parse_form};
use vstd::string::StringExecFns;

verus! {

/// A token and its secret, as the server hands them out.
#[derive(Debug, Clone)]
pub struct OAuthCredentials {
    pub oauth_token: String,
    pub oauth_token_secret: String,
}

/// The signature base string: method, base URI and normalised parameters, each
/// percent-encoded, joined with `&`.
pub open spec fn signature_base_string(
    method: Seq<char>,
    base_uri: Seq<char>,
    normalized: Seq<char>,
) -> Seq<char> {
    oauth_encoded(method) + seq!['&'] + oauth_encoded(base_uri) + seq!['&'] + oauth_encoded(
        normalized,
    )
}

/// The HMAC key: the encoded consumer secret and the encoded token secret, joined with `&`.
pub open spec fn signing_key(consumer_secret: Seq<char>, token_secret: Seq<char>) -> Seq<char> {
    oauth_encoded(consumer_secret) + seq!['&'] + oauth_encoded(token_secret)
}

/// The `oauth_signature` value: the base64 of the HMAC-SHA1 digest, percent-encoded.
pub open spec fn signature_of(key: Seq<char>, base: Seq<char>) -> Seq<char> {
    oauth_encoded(base64_of(hmac_sha1_of(key, base)))
}

/// The protocol parameters of a signed request, in the order the header lists
/// them, followed by the call's own extra OAuth parameters.
pub open spec fn protocol_params(
    consumer_key: Seq<char>,
    token: Seq<char>,
    timestamp: Seq<char>,
    nonce: Seq<char>,
    extra: Seq<ParamView>,
) -> Seq<ParamView> {
    seq![
        ("oauth_consumer_key"@, consumer_key),
        ("oauth_token"@, token),
        ("oauth_signature_method"@, "HMAC-SHA1"@),
        ("oauth_timestamp"@, timestamp),
        ("oauth_nonce"@, nonce),
        ("oauth_version"@, "1.0"@),
    ] + extra
}

/// `k="v"` entries joined with `,`.
pub open spec fn header_entries(s: Seq<ParamView>) -> Seq<char>
    decreases s.len(),
{
    if s.len() == 0 {
        seq![]
    } else if s.len() == 1 {
        s[0].0 + seq!['=', '"'] + s[0].1 + seq!['"']
    } else {
        header_entries(s.drop_last()) + seq![','] + s.last().0 + seq!['=', '"'] + s.last().1
            + seq!['"']
    }
}

/// The signature of a request whose URL query holds `query` and whose
/// protocol parameters are `oauth`.
pub open spec fn request_signature(
    method: Seq<char>,
    base_uri: Seq<char>,
    query: Seq<ParamView>,
    oauth: Seq<ParamView>,
    consumer_secret: Seq<char>,
    token_secret: Seq<char>,
) -> Seq<char> {
    signature_of(
        signing_key(consumer_secret, token_secret),
        signature_base_string(method, base_uri, normalized_params(query + oauth)),
    )
}

/// The `Authorization` header value: `OAuth ` and the encoded protocol
/// parameters, then `oauth_signature`.
pub open spec fn authorization_value(oauth: Seq<ParamView>, signature: Seq<char>) -> Seq<char> {
    "OAuth "@ + header_entries(encoded_params(oauth).push(("oauth_signature"@, signature)))
}

/// The `Authorization` header value of a request.
pub open spec fn authorization_header(
    method: Seq<char>,
    base_uri: Seq<char>,
    query: Seq<ParamView>,
    oauth: Seq<ParamView>,
    consumer_secret: Seq<char>,
    token_secret: Seq<char>,
) -> Seq<char> {
    authorization_value(
        oauth,
        request_signature(method, base_uri, query, oauth, consumer_secret, token_secret),
    )
}

/// The signature base string of a request.
pub fn signature_base(method: &str, base_uri: &str, normalized: &str) -> (r: String)
    ensures
        r@ == signature_base_string(method@, base_uri@, normalized@),
{
    let mut out = oauth_encode(method);
    push_char(&mut out, '&');
    let uri = oauth_encode(base_uri);
    push_str(&mut out, uri.as_str());
    push_char(&mut out, '&');
    let params = oauth_encode(normalized);
    push_str(&mut out, params.as_str());
    out
}

/// The HMAC key of a request; a request without a token uses an empty token secret.
pub fn make_signing_key(consumer_secret: &str, token_secret: &str) -> (r: String)
    ensures
        r@ == signing_key(consumer_secret@, token_secret@),
{
    let mut out = oauth_encode(consumer_secret);
    push_char(&mut out, '&');
    let ts = oauth_encode(token_secret);
    push_str(&mut out, ts.as_str());
    out
}

/// The `oauth_signature` of `base` under `key`.
pub fn compute_signature(key: &str, base: &str) -> (r: String)
    ensures
        r@ == signature_of(key@, base@),
{
    let digest = hmac_sha1(key, base);
    let encoded = base64_encode(digest.as_slice());
    oauth_encode(encoded.as_str())
}

/// The `Authorization` header value for the protocol parameters `oauth` and
/// the signature `signature`.
pub fn header_value(oauth: &Vec<(String, String)>, signature: &str) -> (r: String)
    ensures
        r@ == authorization_value(params_view(oauth@), signature@),
{
    let ghost enc = encoded_params(params_view(oauth@));
    let mut out = String::new();
    push_str(&mut out, "OAuth ");
    let mut i: usize = 0;
    proof {
        assert(enc.take(0) =~= Seq::<ParamView>::empty());
    }
    while i < oauth.len()
        invariant
            i <= oauth.len(),
            enc == encoded_params(params_view(oauth@)),
            out@ == "OAuth "@ + header_entries(enc.take(i as int)),
        decreases oauth.len() - i,
    {
        if i > 0 {
            push_char(&mut out, ',');
        }
        let k = oauth_encode(oauth[i].0.as_str());
        let v = oauth_encode(oauth[i].1.as_str());
        push_str(&mut out, k.as_str());
        push_char(&mut out, '=');
        push_char(&mut out, '"');
        push_str(&mut out, v.as_str());
        push_char(&mut out, '"');
        proof {
            assert(enc.take(i + 1).drop_last() =~= enc.take(i as int));
            if i == 0 {
                assert(out@ =~= "OAuth "@ + header_entries(enc.take(1)));
            } else {
                assert(out@ =~= "OAuth "@ + header_entries(enc.take(i + 1)));
            }
        }
        i += 1;
    }
    if oauth.len() > 0 {
        push_char(&mut out, ',');
    }
    push_str(&mut out, "oauth_signature");
    push_char(&mut out, '=');
    push_char(&mut out, '"');
    push_str(&mut out, signature);
    push_char(&mut out, '"');
    proof {
        let all = enc.push(("oauth_signature"@, signature@));
        assert(enc.take(oauth.len() as int) =~= enc);
        assert(all.drop_last() =~= enc);
        assert(out@ =~= "OAuth "@ + header_entries(all));
    }
    out
}

/// A copy of `a` followed by a copy of `b`.
fn concat_params(a: &Vec<(String, String)>, b: &Vec<(String, String)>) -> (r: Vec<(String, String)>)
    ensures
        params_view(r@) == params_view(a@) + params_view(b@),
{
    let mut out: Vec<(String, String)> = Vec::new();
    let mut i: usize = 0;
    while i < a.len()
        invariant
            i <= a.len(),
            params_view(out@) == params_view(a@).take(i as int),
        decreases a.len() - i,
    {
        let item = (a[i].0.clone(), a[i].1.clone());
        let ghost iv = (item.0@, item.1@);
        let ghost prev = out@;
        assert(iv == params_view(a@)[i as int]);
        out.push(item);
        proof {
            assert(params_view(out@) =~= params_view(prev).push(iv));
            assert(params_view(out@) =~= params_view(a@).take(i + 1));
        }
        i += 1;
    }
    let mut j: usize = 0;
    proof {
        assert(params_view(a@).take(a.len() as int) =~= params_view(a@));
    }
    while j < b.len()
        invariant
            j <= b.len(),
            params_view(out@) == params_view(a@) + params_view(b@).take(j as int),
        decreases b.len() - j,
    {
        let item = (b[j].0.clone(), b[j].1.clone());
        let ghost iv = (item.0@, item.1@);
        let ghost prev = out@;
        assert(iv == params_view(b@)[j as int]);
        out.push(item);
        proof {
            assert(params_view(out@) =~= params_view(prev).push(iv));
            assert(params_view(out@) =~= params_view(a@) + params_view(b@).take(j + 1));
        }
        j += 1;
    }
    proof {
        assert(params_view(b@).take(b.len() as int) =~= params_view(b@));
    }
    out
}

/// Signs a request: the `Authorization` header value for a request with
/// method `method` to `base_uri` whose query holds `query`, carrying the
/// protocol parameters `oauth`, signed with the two secrets.
pub fn authorization_for(
    method: &str,
    base_uri: &str,
    query: &Vec<(String, String)>,
    oauth: &Vec<(String, String)>,
    consumer_secret: &str,
    token_secret: &str,
) -> (r: String)
    ensures
        r@ == authorization_header(
            method@,
            base_uri@,
            params_view(query@),
            params_view(oauth@),
            consumer_secret@,
            token_secret@,
        ),
{
    let all = concat_params(query, oauth);
    let normalized = normalize_parameters(&all);
    let base = signature_base(method, base_uri, normalized.as_str());
    let key = make_signing_key(consumer_secret, token_secret);
    let signature = compute_signature(key.as_str(), base.as_str());
    header_value(oauth, signature.as_str())
}

/// The decimal digits of `n`, most significant first, without leading zeros.
pub open spec fn decimal(n: nat) -> Seq<char>
    decreases n,
{
    if n < 10 {
        seq![((n + 48) as u8) as char]
    } else {
        decimal(n / 10) + seq![((n % 10 + 48) as u8) as char]
    }
}

/// Appends the decimal digits of `n`.
pub fn push_decimal(out: &mut String, n: u64)
    ensures
        final(out)@ == old(out)@ + decimal(n as nat),
    decreases n,
{
    if n >= 10 {
        push_decimal(out, n / 10);
    }
    let d = (n % 10) as u8;
    push_char(out, (d + 48) as char);
}

/// The `oauth_timestamp` value for `secs` seconds since the Unix epoch.
pub fn timestamp_string(secs: u64) -> (r: String)
    ensures
        r@ == decimal(secs as nat),
{
    let mut out = String::new();
    push_decimal(&mut out, secs);
    out
}

/// A fresh nonce: the base64 of eight random bytes.
pub fn generate_nonce() -> (r: String)
    ensures
        exists|b: Seq<u8>| b.len() == 8 && r@ == base64_of(b),
        r@.len() == 12,
{
    broadcast use vstd::array::group_array_axioms;

    let buf: [u8; 8] = rand::random();
    let bytes = buf.as_slice();
    assert(bytes@.len() == 8);
    base64_encode(bytes)
}

/// How many parameters have key `k`.
pub open spec fn key_count(ps: Seq<ParamView>, k: Seq<char>) -> nat
    decreases ps.len(),
{
    if ps.len() == 0 {
        0
    } else {
        key_count(ps.drop_last(), k) + if ps.last().0 == k {
            1nat
        } else {
            0nat
        }
    }
}

/// The value of the first parameter with key `k`.
pub open spec fn first_value(ps: Seq<ParamView>, k: Seq<char>) -> Option<Seq<char>>
    decreases ps.len(),
{
    if ps.len() == 0 {
        None
    } else {
        match first_value(ps.drop_last(), k) {
            Some(v) => Some(v),
            None => if ps.last().0 == k {
                Some(ps.last().1)
            } else {
                None
            },
        }
    }
}

/// The key under which a credentials response carries a field.
pub open spec fn field_key(f: CredentialField) -> Seq<char> {
    match f {
        CredentialField::Token => "oauth_token"@,
        CredentialField::TokenSecret => "oauth_token_secret"@,
    }
}

/// Token and secret of a credentials response, when each occurs exactly once.
pub open spec fn credentials_in(ps: Seq<ParamView>) -> Option<(Seq<char>, Seq<char>)> {
    let t = field_key(CredentialField::Token);
    let s = field_key(CredentialField::TokenSecret);
    if key_count(ps, t) == 1 && key_count(ps, s) == 1 {
        Some((first_value(ps, t)->0, first_value(ps, s)->0))
    } else {
        None
    }
}

proof fn lemma_key_count_prefix(ps: Seq<ParamView>, k: Seq<char>, j: int)
    requires
        0 <= j <= ps.len(),
    ensures
        key_count(ps.take(j), k) <= key_count(ps, k),
    decreases ps.len(),
{
    if j < ps.len() {
        assert(ps.drop_last().take(j) =~= ps.take(j));
        lemma_key_count_prefix(ps.drop_last(), k, j);
    } else {
        assert(ps.take(j) =~= ps);
    }
}

/// Reads credentials out of the pairs of a form-encoded response. Each of
/// `oauth_token` and `oauth_token_secret` must occur exactly once; other keys
/// are ignored.
pub fn credentials_from_pairs(pairs: &Vec<(String, String)>) -> (r: core::result::Result<
    OAuthCredentials,
    FormError,
>)
    ensures
        match r {
            Ok(c) => credentials_in(params_view(pairs@)) == Some(
                (c.oauth_token@, c.oauth_token_secret@),
            ),
            Err(FormError::DuplicateField(f)) => key_count(params_view(pairs@), field_key(f)) > 1,
            Err(FormError::MissingField(f)) => key_count(params_view(pairs@), field_key(f)) == 0
                && key_count(params_view(pairs@), field_key(CredentialField::Token)) <= 1
                && key_count(params_view(pairs@), field_key(CredentialField::TokenSecret)) <= 1,
            Err(FormError::Syntax(_)) => false,
        },
        r is Err ==> credentials_in(params_view(pairs@)) is None,
{
    let ghost ps = params_view(pairs@);
    let ghost tk = field_key(CredentialField::Token);
    let ghost sk = field_key(CredentialField::TokenSecret);
    let token_key = <String as StringExecFns>::from_str("oauth_token");
    let secret_key = <String as StringExecFns>::from_str("oauth_token_secret");
    proof {
        reveal_strlit("oauth_token");
        reveal_strlit("oauth_token_secret");
        assert(tk.len() != sk.len());
        assert(ps.take(0) =~= Seq::<ParamView>::empty());
    }
    let mut token: Option<String> = None;
    let mut secret: Option<String> = None;
    let mut i: usize = 0;
    while i < pairs.len()
        invariant
            i <= pairs.len(),
            ps == params_view(pairs@),
            tk == field_key(CredentialField::Token),
            sk == field_key(CredentialField::TokenSecret),
            tk != sk,
            token_key@ == tk,
            secret_key@ == sk,
            token is Some <==> key_count(ps.take(i as int), tk) == 1,
            secret is Some <==> key_count(ps.take(i as int), sk) == 1,
            key_count(ps.take(i as int), tk) <= 1,
            key_count(ps.take(i as int), sk) <= 1,
            token matches Some(t) ==> first_value(ps.take(i as int), tk) == Some(t@),
            secret matches Some(t) ==> first_value(ps.take(i as int), sk) == Some(t@),
            token is None ==> first_value(ps.take(i as int), tk) is None,
            secret is None ==> first_value(ps.take(i as int), sk) is None,
        decreases pairs.len() - i,
    {
        proof {
            assert(ps.take(i + 1).drop_last() =~= ps.take(i as int));
            assert(ps.take(i + 1).last() == ps[i as int]);
            assert(ps[i as int] == (pairs@[i as int].0@, pairs@[i as int].1@));
        }
        if pairs[i].0 == token_key {
            if token.is_some() {
                proof {
                    lemma_key_count_prefix(ps, tk, i + 1);
                }
                return Err(FormError::DuplicateField(CredentialField::Token));
            }
            token = Some(pairs[i].1.clone());
        } else if pairs[i].0 == secret_key {
            if secret.is_some() {
                proof {
                    lemma_key_count_prefix(ps, sk, i + 1);
                }
                return Err(FormError::DuplicateField(CredentialField::TokenSecret));
            }
            secret = Some(pairs[i].1.clone());
        }
        i += 1;
    }
    proof {
        assert(ps.take(pairs.len() as int) =~= ps);
    }
    match (token, secret) {
        (Some(t), Some(s)) => Ok(OAuthCredentials { oauth_token: t, oauth_token_secret: s }),
        (None, _) => Err(FormError::MissingField(CredentialField::Token)),
        (Some(_), None) => Err(FormError::MissingField(CredentialField::TokenSecret)),
    }
}

/// Reads credentials out of a form-encoded response body.
pub fn parse_credentials(body: &str) -> (r: core::result::Result<OAuthCredentials, ClientError>)
    ensures
        r matches Ok(c) ==> credentials_in(form_pairs_of(body@)) == Some(
            (c.oauth_token@, c.oauth_token_secret@),
        ),
        credentials_in(form_pairs_of(body@)) is None ==> r matches Err(ClientError::DeserializeForm(_)),
        credentials_in(form_pairs_of(body@)) is Some ==> r is Ok,
        r matches Err(e) ==> e is DeserializeForm,
{
    match parse_form(body) {
        Ok(pairs) => match credentials_from_pairs(&pairs) {
            Ok(c) => Ok(c),
            Err(e) => Err(ClientError::DeserializeForm(e)),
        },
        Err(e) => Err(ClientError::DeserializeForm(FormError::Syntax(e))),
    }
}

/// The protocol parameters of a signed request as a list, with copies of `extra` last.
pub fn protocol_param_list(
    consumer_key: &str,
    token: &str,
    timestamp: &str,
    nonce: &str,
    extra: &Vec<(String, String)>,
) -> (r: Vec<(String, String)>)
    ensures
        params_view(r@) == protocol_params(
            consumer_key@,
            token@,
            timestamp@,
            nonce@,
            params_view(extra@),
        ),
{
    let mut out: Vec<(String, String)> = Vec::new();
    out.push((String::from_str("oauth_consumer_key"), String::from_str(consumer_key)));
    out.push((String::from_str("oauth_token"), String::from_str(token)));
    out.push((String::from_str("oauth_signature_method"), String::from_str("HMAC-SHA1")));
    out.push((String::from_str("oauth_timestamp"), String::from_str(timestamp)));
    out.push((String::from_str("oauth_nonce"), String::from_str(nonce)));
    out.push((String::from_str("oauth_version"), String::from_str("1.0")));
    let ghost head = params_view(out@);
    let mut j: usize = 0;
    while j < extra.len()
        invariant
            j <= extra.len(),
            params_view(out@) == head + params_view(extra@).take(j as int),
        decreases extra.len() - j,
    {
        let item = (extra[j].0.clone(), extra[j].1.clone());
        let ghost iv = (item.0@, item.1@);
        let ghost prev = out@;
        assert(iv == params_view(extra@)[j as int]);
        out.push(item);
        proof {
            assert(params_view(out@) =~= params_view(prev).push(iv));
            assert(params_view(out@) =~= head + params_view(extra@).take(j + 1));
        }
        j += 1;
    }
    proof {
        assert(params_view(extra@).take(extra.len() as int) =~= params_view(extra@));
        assert(params_view(out@) =~= protocol_params(
            consumer_key@,
            token@,
            timestamp@,
            nonce@,
            params_view(extra@),
        ));
    }
    out
}

} // verus!
