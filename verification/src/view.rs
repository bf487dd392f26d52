use vstd::prelude::*;
use vstd::utf8::{decode_utf8, valid_utf8};
use crate::error::NearError;
use crate::text::{spec_strip_quotes, strip_quotes, utf8_text};
use crate::types::GreetingResponse;

verus! {

/// The greeting text carried by the bytes when they read as a structured
/// payload (an object with a `greeting` text field); `None` when they do
/// not. A function of the bytes alone.
pub uninterp spec fn spec_greeting_of(bytes: Seq<u8>) -> Option<Seq<char>>;

/// Relies on serde_json::from_slice and serde_json::Value::{get, as_str}:
/// reads the bytes as a structured payload and takes the text under the
/// `greeting` key, if the bytes are such a payload.
#[verifier::external_body]
fn parse_structured_greeting(bytes: &Vec<u8>) -> (r: Option<GreetingResponse>)
    ensures
        r is Some <==> spec_greeting_of(bytes@) is Some,
        r matches Some(g) ==> g.greeting@ == spec_greeting_of(bytes@).unwrap(),
{
    let value: serde_json::Value = match serde_json::from_slice(bytes.as_slice()) {
        Ok(v) => v,
        Err(_) => return None,
    };
    let greeting = value.get("greeting")?.as_str()?.to_owned();
    Some(GreetingResponse { greeting })
}

/// Decodes the bytes a read-only contract call returned: first as a
/// structured payload carrying the greeting; failing that, as raw text with
/// the surrounding quote bytes stripped; bytes that are neither are a
/// `ParseError`.
pub fn decode_view_response(bytes: &Vec<u8>) -> (r: Result<String, NearError>)
    ensures
        spec_greeting_of(bytes@) matches Some(g) ==> (r matches Ok(s) && s@ == g),
        (spec_greeting_of(bytes@) is None && valid_utf8(spec_strip_quotes(bytes@))) ==> (
        r matches Ok(s) && s@ == decode_utf8(spec_strip_quotes(bytes@))),
        r is Ok <==> (spec_greeting_of(bytes@) is Some || valid_utf8(spec_strip_quotes(bytes@))),
        r matches Err(e) ==> e is ParseError,
{
    match parse_structured_greeting(bytes) {
        Some(g) => Ok(g.greeting),
        None => {
            let stripped = strip_quotes(bytes);
            match utf8_text(&stripped) {
                Some(s) => Ok(s),
                None => Err(
                    NearError::ParseError(
                        String::from_str("the response bytes are not valid text"),
                    ),
                ),
            }
        },
    }
}

} // verus!
