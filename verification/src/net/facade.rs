use vstd::prelude::*;

use crate::net::config::RESPONSE_BUFFER_SIZE;
use vstd::string::StringSliceAdditionalSpecFns;
use vstd::utf8::decode_utf8;
use vstd::utf8::valid_utf8;

verus! {

/// Failures of the network access facade.  `RequestFailed` covers connect and
/// send failures, `ReadError` a failure while reading the response body, and
/// `ParseError` a body that is not valid UTF-8 or does not fit the receive
/// buffer (or, for callers that decode it further, is malformed).
#[derive(Debug, Clone, Copy, PartialEq, Eq, Structural)]
pub enum NetworkError {
    RequestFailed,
    ReadError,
    ParseError,
}

/// Relies on `core::str::from_utf8`: it succeeds exactly on valid UTF-8 input
/// and yields the character sequence those bytes encode.
#[verifier::external_body]
fn utf8_to_str(v: &[u8]) -> (r: Option<&str>)
    ensures
        r is Some <==> valid_utf8(v@),
        r matches Some(s) ==> s@ == decode_utf8(v@) && s.spec_bytes() == v@,
{
    core::str::from_utf8(v).ok()
}

/// Turn a raw response body into text.  A body longer than the receive buffer
/// or one that is not valid UTF-8 is a hard `ParseError`; anything else is
/// returned as the decoded text.
pub fn ingest_body(bytes: &[u8]) -> (r: Result<String, NetworkError>)
    ensures
        bytes@.len() <= RESPONSE_BUFFER_SIZE && valid_utf8(bytes@) ==> (r matches Ok(s)
            && s@ == decode_utf8(bytes@)),
        bytes@.len() > RESPONSE_BUFFER_SIZE || !valid_utf8(bytes@) ==> (r matches Err(e)
            && e == NetworkError::ParseError),
{
    if bytes.len() > RESPONSE_BUFFER_SIZE {
        return Err(NetworkError::ParseError);
    }
    match utf8_to_str(bytes) {
        Some(s) => Ok(s.to_owned()),
        None => Err(NetworkError::ParseError),
    }
}

} // verus!
