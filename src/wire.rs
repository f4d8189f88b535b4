//! The outside parsers of URLs and form-encoded bodies.
use vstd::prelude::*;

use crate::params::{params_view, ParamView};

verus! {

/// The URL that `s` parses to, without its query, and the query's pairs,
/// decoded and in order; `None` when `s` is no absolute URL.
pub uninterp spec fn url_parts_of(s: Seq<char>) -> Option<(Seq<char>, Seq<ParamView>)>;

/// The pairs of the form-encoded text `s`, decoded and in order.
pub uninterp spec fn form_pairs_of(s: Seq<char>) -> Seq<ParamView>;

/// Relies on `url::Url::parse`, whose error depends on the text alone, on
/// `query_pairs` for the decoded query, and on `set_query(None)` to drop it.
#[verifier::external_body]
pub(crate) fn split_url(s: &str) -> (r: Result<(String, Vec<(String, String)>), url::ParseError>)
    ensures
        match r {
            Ok(p) => url_parts_of(s@) == Some((p.0@, params_view(p.1@))),
            Err(_) => url_parts_of(s@) is None,
        },
{
    let mut url = url::Url::parse(s)?;
    let query = url.query_pairs().map(|(k, v)| (k.into_owned(), v.into_owned())).collect();
    url.set_query(None);
    Ok((url.as_str().to_owned(), query))
}

/// Relies on `serde_urlencoded::from_str` into a list of pairs, which yields
/// the pairs of the text in order; decoding is lenient, so any text gives pairs.
#[verifier::external_body]
pub(crate) fn parse_form(s: &str) -> (r: Result<Vec<(String, String)>, serde_urlencoded::de::Error>)
    ensures
        r is Ok,
        r matches Ok(v) ==> params_view(v@) == form_pairs_of(s@),
{
    serde_urlencoded::from_str::<Vec<(String, String)>>(s)
}

} // verus!
