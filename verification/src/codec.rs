//! Reading single fields of request parameters.
use vstd::prelude::*;

use crate::interop::{self, parse_uuid};
use crate::json::{self, Json};
use crate::types::RpcError;

verus! {

/// A text field that must be there.
pub fn required_string(params: &Json, key: &str) -> (r: Result<String, RpcError>)
    ensures
        match json::text_view(json::get_view(params@, key@)) {
            Some(s) => r matches Ok(t) && t@ == s,
            None => r matches Err(e) && e@ == ("invalid_params"@, key@ + " is required"@),
        },
{
    if let Some(value) = params.get(key) {
        if let Some(s) = value.as_str() {
            return Ok(s.to_owned());
        }
    }
    Err(RpcError::with_message("invalid_params", key.to_owned().concat(" is required")))
}

/// The outcome of reading a text as a UUID under this key.
pub open spec fn uuid_outcome(
    r: Result<u128, RpcError>,
    key: Seq<char>,
    parsed: Result<u128, Seq<char>>,
) -> bool {
    match parsed {
        Ok(n) => r matches Ok(id) && id == n,
        Err(error) => r matches Err(e) && e@ == (
            "invalid_params"@,
            key + " must be a UUID: "@ + error,
        ),
    }
}

/// A UUID, or the refusal that tells why the field is none.
pub fn uuid_field(key: &str, parsed: Result<u128, String>) -> (r: Result<u128, RpcError>)
    ensures
        uuid_outcome(
            r,
            key@,
            match parsed {
                Ok(n) => Ok(n),
                Err(e) => Err(e@),
            },
        ),
{
    match parsed {
        Ok(n) => Ok(n),
        Err(error) => Err(
            RpcError::with_message(
                "invalid_params",
                key.to_owned().concat(" must be a UUID: ").concat(error.as_str()),
            ),
        ),
    }
}

/// A UUID field that must be there.
pub fn required_uuid(params: &Json, key: &str) -> (r: Result<u128, RpcError>)
    ensures
        match json::text_view(json::get_view(params@, key@)) {
            Some(s) => uuid_outcome(r, key@, interop::parsed_uuid(s)),
            None => r matches Err(e) && e@ == ("invalid_params"@, key@ + " is required"@),
        },
{
    match required_string(params, key) {
        Ok(value) => uuid_field(key, parse_uuid(value.as_str())),
        Err(e) => Err(e),
    }
}

/// Why stored entries are no transcript.
#[derive(Debug, PartialEq, Eq)]
pub enum TranscriptStoreFailure {
    NotTurnBoundary,
    /// Any other failure, by its debug text.
    Other(String),
}

/// How a failed load of a transcript is reported.
pub fn map_transcript_store_error(failure: TranscriptStoreFailure) -> (r: RpcError)
    ensures
        r@ == (match failure {
            TranscriptStoreFailure::NotTurnBoundary => (
                "not_turn_boundary"@,
                "target is not a turn boundary"@,
            ),
            TranscriptStoreFailure::Other(text) => ("invalid_transcript"@, text@),
        }),
{
    match failure {
        TranscriptStoreFailure::NotTurnBoundary => RpcError::new(
            "not_turn_boundary",
            "target is not a turn boundary",
        ),
        TranscriptStoreFailure::Other(text) => RpcError::with_message("invalid_transcript", text),
    }
}

/// How parameters that do not decode are reported.
pub fn invalid_params(decode_error: String) -> (r: RpcError)
    ensures
        r@ == ("invalid_params"@, decode_error@),
{
    RpcError::with_message("invalid_params", decode_error)
}

/// A field that parses is taken as its number, and one that does not is refused
/// by its key and the parser's own words.
pub proof fn law_uuid_fields(
    r: Result<u128, RpcError>,
    key: Seq<char>,
    parsed: Result<u128, Seq<char>>,
)
    requires
        uuid_outcome(r, key, parsed),
    ensures
        r is Ok <==> parsed is Ok,
        parsed matches Ok(n) ==> r->Ok_0 == n,
        parsed matches Err(error) ==> r->Err_0.code@ == "invalid_params"@ && r->Err_0.message@
            == key + " must be a UUID: "@ + error,
{
}

} // verus!
