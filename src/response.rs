//! The response envelope `{result, error, id}` and its decoding.
use crate::codec::FromJson;
use crate::error::{body_read_action, body_read_error, deserialize_action, deserialize_error, Error};
use crate::json::{
    find_member, get_optional_field, integer_in, json_of_text, optional_field, parse_json,
    to_u64_value, Json,
};
use vstd::prelude::*;
use vstd::string::StringExecFns;

verus! {

/// A decoded response: what the daemon sent, and the HTTP status it came with.
///
/// `id` is the daemon's echo of the request id; it is reported as sent and
/// not compared with the request.
#[derive(Debug)]
pub struct Response<T> {
    pub status_code: Option<u16>,
    pub result: Option<T>,
    pub error: Option<Json>,
    pub id: Option<usize>,
}

/// Whether `j` is an envelope whose `result` is in the wire form of `T`.
///
/// A missing member and a `null` one both mean absent; members other than
/// `result`, `error` and `id` are ignored.
pub open spec fn envelope_accepts<T: FromJson>(j: Json) -> bool {
    &&& j is Object
    &&& match optional_field(j, "result"@) {
        Some(x) => T::wire_accepts(x),
        None => true,
    }
    &&& match optional_field(j, "id"@) {
        Some(x) => integer_in(x, 0, usize::MAX as int) is Some,
        None => true,
    }
}

/// Whether `r` holds what the accepted envelope `j` says, apart from the status.
pub open spec fn envelope_denotes<T: FromJson>(j: Json, r: Response<T>) -> bool {
    &&& match optional_field(j, "result"@) {
        Some(x) => r.result matches Some(v) && T::wire_denotes(x, v),
        None => r.result is None,
    }
    &&& r.error == optional_field(j, "error"@)
    &&& match optional_field(j, "id"@) {
        Some(x) => r.id matches Some(n) && integer_in(x, 0, usize::MAX as int) == Some(n as int),
        None => r.id is None,
    }
}

/// Whether `r` is the shape error for a response to `method` with status `status_code`.
pub open spec fn is_deserialize_failure<T>(
    r: Result<Response<T>, Error>,
    method: Seq<char>,
    status_code: Option<u16>,
) -> bool {
    r matches Err(Error::Deserialize { action, method: m, status_code: s, .. }) && action@
        == deserialize_action(method) && m@ == method && s == status_code
}

/// What decoding a response body to `method` that came with `status_code` gives.
pub open spec fn decoded_response<T: FromJson>(
    r: Result<Response<T>, Error>,
    method: Seq<char>,
    status_code: Option<u16>,
    body: Result<String, String>,
) -> bool {
    match body {
        Err(m) => r matches Err(Error::BodyRead { action, message, status_code: s }) && action@
            == body_read_action(method) && message == m && s == status_code,
        Ok(text) => match json_of_text(text@) {
            Some(j) => if envelope_accepts::<T>(j) {
                r matches Ok(resp) && resp.status_code == status_code && envelope_denotes(j, resp)
            } else {
                is_deserialize_failure(r, method, status_code)
            },
            None => is_deserialize_failure(r, method, status_code),
        },
    }
}

/// Moves the member `error` out of an envelope; `null` counts as absent.
fn take_error(j: Json) -> (r: Option<Json>)
    ensures
        r == optional_field(j, "error"@),
{
    match j {
        Json::Object(mut entries) => match find_member(&entries, "error") {
            Some(i) => {
                let member = entries.remove(i);
                match member.1 {
                    Json::Null => None,
                    x => Some(x),
                }
            },
            None => None,
        },
        _ => None,
    }
}

/// The response id, if it is present and a valid `usize`.
fn decode_id(j: &Json) -> (r: Result<Option<usize>, String>)
    ensures
        match r {
            Ok(id) => match optional_field(*j, "id"@) {
                Some(x) => id matches Some(n) && integer_in(x, 0, usize::MAX as int) == Some(
                    n as int,
                ),
                None => id is None,
            },
            Err(_) => optional_field(*j, "id"@) matches Some(x) && integer_in(
                x,
                0,
                usize::MAX as int,
            ) is None,
        },
{
    match get_optional_field(j, "id") {
        None => Ok(None),
        Some(x) => match to_u64_value(x) {
            Some(u) => if u <= usize::MAX as u64 {
                Ok(Some(u as usize))
            } else {
                Err("expected the id to fit a usize".to_owned())
            },
            None => Err("expected a non-negative integer id".to_owned()),
        },
    }
}

/// Decodes the envelope `j` whose result is a `T`.
fn decode_envelope<T: FromJson>(j: Json, status_code: Option<u16>) -> (r: Result<
    Response<T>,
    String,
>)
    ensures
        match r {
            Ok(resp) => envelope_accepts::<T>(j) && resp.status_code == status_code
                && envelope_denotes(j, resp),
            Err(_) => !envelope_accepts::<T>(j),
        },
{
    if !matches!(j, Json::Object(_)) {
        return Err("expected a JSON object".to_owned());
    }
    let result = match get_optional_field(&j, "result") {
        None => None,
        Some(x) => match T::from_json(x) {
            Ok(v) => Some(v),
            Err(e) => return Err(e),
        },
    };
    let id = match decode_id(&j) {
        Ok(id) => id,
        Err(e) => return Err(e),
    };
    let error = take_error(j);
    Ok(Response { status_code, result, error, id })
}

/// Decodes the body of a response to `method` as an envelope whose result is a `T`.
///
/// `body` is the response text, or the message of the failure to read it.
/// `status_code` is kept in the decoded response and in every error. A body
/// that is not JSON, or not an envelope of that shape, is a
/// [`Error::Deserialize`] naming `method`.
pub fn deserialize_response<T: FromJson>(
    method: &str,
    status_code: Option<u16>,
    body: Result<String, String>,
) -> (r: Result<Response<T>, Error>)
    ensures
        decoded_response(r, method@, status_code, body),
{
    match body {
        Err(message) => Err(body_read_error(method, message, status_code)),
        Ok(text) => match parse_json(text.as_str()) {
            Err(message) => Err(deserialize_error(method, message, status_code)),
            Ok(j) => match decode_envelope::<T>(j, status_code) {
                Ok(resp) => Ok(resp),
                Err(message) => Err(deserialize_error(method, message, status_code)),
            },
        },
    }
}

/// A body that is not JSON, or not an envelope whose result has the shape
/// that the method calls for, is a shape error that names the method and
/// keeps the response's status code.
pub proof fn lemma_malformed_body_is_deserialize_error<T: FromJson>(
    method: Seq<char>,
    status_code: Option<u16>,
    text: String,
    r: Result<Response<T>, Error>,
)
    requires
        decoded_response(r, method, status_code, Ok(text)),
        !(json_of_text(text@) matches Some(j) && envelope_accepts::<T>(j)),
    ensures
        r matches Err(Error::Deserialize { method: m, status_code: s, .. }) && m@ == method && s
            == status_code,
{
}

impl<T> Response<T> {
    /// The result, or the error labelled `action`: the daemon's own error
    /// where it sent one, else the lack of a result.
    pub fn get_result(self, action: &str) -> (r: Result<T, Error>)
        ensures
            match self.error {
                Some(e) => r matches Err(Error::Remote { action: a, error }) && a@ == action@
                    && error == e,
                None => match self.result {
                    Some(v) => r == Ok::<T, Error>(v),
                    None => r matches Err(Error::MissingResult { action: a }) && a@ == action@,
                },
            },
    {
        match self.error {
            Some(error) => Err(Error::Remote { action: action.to_owned(), error }),
            None => match self.result {
                Some(v) => Ok(v),
                None => Err(Error::MissingResult { action: action.to_owned() }),
            },
        }
    }
}

} // verus!
