use vstd::prelude::*;
use vstd::utf8::{decode_utf8, valid_utf8};

use crate::error::{EngineError, FetchError, SandboxError};
use crate::sandbox::MAX_INPUT_BYTES;

verus! {

/// Deadline of every fetch, in milliseconds from the call.
pub const FETCH_DEADLINE_MS: u64 = 5000;

/// The only status that counts as success.
pub const STATUS_OK: u16 = 200;

/// What a fetch brought back before the deadline: a status and a body.
#[derive(Debug, PartialEq, Eq)]
pub struct HttpResponse {
    pub code: u16,
    pub body: Vec<u8>,
}

/// Relies on `String::from_utf8`: it succeeds exactly on valid UTF-8 and then
/// holds the characters that the bytes encode.
#[verifier::external_body]
fn decode(bytes: Vec<u8>) -> (r: Option<String>)
    ensures
        r is Some == valid_utf8(bytes@),
        r matches Some(s) ==> s@ == decode_utf8(bytes@),
{
    String::from_utf8(bytes).ok()
}

/// The location to fetch an input from: the reference read as UTF-8, or
/// `InvalidUri` where it is not UTF-8.
pub fn input_location(input_uri: Vec<u8>) -> (r: Result<String, FetchError>)
    ensures
        valid_utf8(input_uri@) ==> (r matches Ok(s) && s@ == decode_utf8(input_uri@)),
        !valid_utf8(input_uri@) ==> r == Err::<String, FetchError>(FetchError::InvalidUri),
{
    match decode(input_uri) {
        Some(s) => Ok(s),
        None => Err(FetchError::InvalidUri),
    }
}

/// The bytes of a response: its body where the status is exactly 200,
/// otherwise `BadStatus` with the status.
pub fn accept_response(response: HttpResponse) -> (r: Result<Vec<u8>, FetchError>)
    ensures
        response.code == STATUS_OK ==> (r matches Ok(b) && b@ == response.body@),
        response.code != STATUS_OK ==> r == Err::<Vec<u8>, FetchError>(
            FetchError::BadStatus(response.code),
        ),
{
    if response.code == STATUS_OK {
        Ok(response.body)
    } else {
        Err(FetchError::BadStatus(response.code))
    }
}

/// The bytes of an input response: its body where the status is exactly
/// 200 and the body holds at most `MAX_INPUT_BYTES` bytes; a status other
/// than 200 is `BadStatus`, a longer body `ResourceLimit`.
pub fn accept_input(response: HttpResponse) -> (r: Result<Vec<u8>, EngineError>)
    ensures
        response.code != STATUS_OK ==> r == Err::<Vec<u8>, EngineError>(
            EngineError::Fetch(FetchError::BadStatus(response.code)),
        ),
        response.code == STATUS_OK && response.body@.len() > MAX_INPUT_BYTES ==> r == Err::<
            Vec<u8>,
            EngineError,
        >(EngineError::Sandbox(SandboxError::ResourceLimit)),
        response.code == STATUS_OK && response.body@.len() <= MAX_INPUT_BYTES ==> (r matches Ok(b)
            && b@ == response.body@),
{
    match accept_response(response) {
        Err(e) => Err(EngineError::Fetch(e)),
        Ok(body) => {
            if body.len() > MAX_INPUT_BYTES {
                Err(EngineError::Sandbox(SandboxError::ResourceLimit))
            } else {
                Ok(body)
            }
        },
    }
}

} // verus!
