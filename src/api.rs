//! The JSON envelope of API responses.
use vstd::prelude::*;

use vstd::string::StringExecFns;

use crate::error::ClientError;

verus! {

/// The `meta` part of every API envelope.
#[derive(Debug, Clone)]
pub struct ResponseMeta {
    pub status: u16,
    pub msg: String,
}

/// Turns an envelope into a result: its response when the status is 200, an
/// API error that carries the meta for any other status, and a deserialize
/// error for a status of 200 without a response.
pub fn envelope_result<T>(meta: ResponseMeta, response: Option<T>) -> (r: Result<T, ClientError>)
    ensures
        meta.status == 200 && response is Some ==> r == Ok::<T, ClientError>(response->0),
        meta.status == 200 && response is None ==> r matches Err(
            ClientError::DeserializeJson(_),
        ),
        meta.status != 200 ==> (r matches Err(ClientError::Tumblr(m)) && m.status == meta.status
            && m.msg@ == meta.msg@),
{
    if meta.status == 200 {
        match response {
            Some(v) => Ok(v),
            None => Err(
                ClientError::DeserializeJson(
                    String::from_str("an envelope with status 200 carries no response"),
                ),
            ),
        }
    } else {
        Err(ClientError::Tumblr(meta))
    }
}

} // verus!
