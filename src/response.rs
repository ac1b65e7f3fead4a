use vstd::prelude::*;
use crate::document::JobError;

verus! {

/// Whether `text` is one JSON value, as serde_json reads it.
pub uninterp spec fn is_json_text(text: Seq<u8>) -> bool;

/// Relies on serde_json::from_slice into a `Value`: it succeeds exactly on
/// the byte strings that are JSON text.
#[verifier::external_body]
fn parse_json(body: &Vec<u8>) -> (r: Result<serde_json::Value, serde_json::Error>)
    ensures
        r is Ok <==> is_json_text(body@),
{
    serde_json::from_slice(body.as_slice())
}

/// The string member under `key` of the JSON object that `text` holds, if
/// `text` is such an object and that member is a string.
pub uninterp spec fn json_string_member(text: Seq<u8>, key: Seq<char>) -> Option<Seq<char>>;

/// Relies on serde_json::from_slice into a `Value`, then Value::get with a
/// string key, then Value::as_str: the text of the string member under
/// `key`, which depends on the bytes and the key alone.
#[verifier::external_body]
fn string_member(body: &Vec<u8>, key: &str) -> (r: Option<String>)
    ensures
        r matches Some(s) ==> json_string_member(body@, key@) == Some(s@),
        r is None ==> json_string_member(body@, key@) is None,
{
    serde_json::from_slice::<serde_json::Value>(body.as_slice()).ok().as_ref().and_then(
        |v| v.get(key),
    ).and_then(|m| m.as_str()).map(|s| s.to_string())
}

/// What an upload's answer `text` gives once it is JSON: its string member
/// `id`, or a broken schema.
pub open spec fn id_result_is(text: Seq<u8>, r: Result<String, JobError>) -> bool {
    match json_string_member(text, "id"@) {
        Some(s) => r matches Ok(t) && t@ == s,
        None => r matches Err(JobError::ResponseSchema),
    }
}

/// The job's result once the `id` member of the answer has been looked up:
/// a string is the identifier, anything else breaks the answer's schema.
pub fn id_from_member(member: Option<String>) -> (r: Result<String, JobError>)
    ensures
        member matches Some(s) ==> r matches Ok(t) && t@ == s@,
        member is None ==> r matches Err(JobError::ResponseSchema),
{
    match member {
        Some(s) => Ok(s),
        None => Err(JobError::ResponseSchema),
    }
}

/// Decodes an upload's answer and takes its identifier out of it.
pub fn decode_upload_response(body: &Vec<u8>) -> (r: Result<String, JobError>)
    ensures
        !is_json_text(body@) ==> r matches Err(JobError::ResponseParse),
        is_json_text(body@) ==> id_result_is(body@, r),
{
    match parse_json(body) {
        Err(_) => Err(JobError::ResponseParse),
        Ok(_) => id_from_member(string_member(body, "id")),
    }
}

/// Decodes an analyzer registration's answer, which is passed on whole.
pub fn decode_analyzer_response(body: &Vec<u8>) -> (r: Result<serde_json::Value, JobError>)
    ensures
        r is Ok <==> is_json_text(body@),
        r matches Err(e) ==> e is ResponseParse,
{
    match parse_json(body) {
        Ok(v) => Ok(v),
        Err(_) => Err(JobError::ResponseParse),
    }
}

/// The job's result from what the transport handed back: the answer's body,
/// or a description of why none was received in full.
pub fn upload_outcome(received: Result<Vec<u8>, String>) -> (r: Result<String, JobError>)
    ensures
        received matches Err(m) ==> r matches Err(JobError::Transport(t)) && t@ == m@,
        received matches Ok(b) ==> (!is_json_text(b@) ==> r matches Err(
            JobError::ResponseParse,
        )),
        received matches Ok(b) ==> (is_json_text(b@) ==> id_result_is(b@, r)),
{
    match received {
        Err(m) => Err(JobError::Transport(m)),
        Ok(b) => decode_upload_response(&b),
    }
}

/// An analyzer registration's result from what the transport handed back:
/// the answer's body, or a description of why none was received in full.
pub fn register_outcome(received: Result<Vec<u8>, String>) -> (r: Result<
    serde_json::Value,
    JobError,
>)
    ensures
        received matches Err(m) ==> r matches Err(JobError::Transport(t)) && t@ == m@,
        received matches Ok(b) ==> (r is Ok <==> is_json_text(b@)),
        received matches Ok(b) ==> (r matches Err(e) ==> e is ResponseParse),
{
    match received {
        Err(m) => Err(JobError::Transport(m)),
        Ok(b) => decode_analyzer_response(&b),
    }
}

} // verus!
