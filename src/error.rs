//! The errors that an API call can end in, each labelled with what was tried.
use crate::json::Json;
use vstd::prelude::*;
use vstd::string::StringExecFns;

verus! {

/// Why an API call failed. None of these is retried here: the caller decides.
#[derive(Debug, PartialEq)]
pub enum Error {
    /// The request could not be sent or no response came back.
    Transport { action: String, message: String },
    /// A response came back but its body could not be read.
    BodyRead { action: String, message: String, status_code: Option<u16> },
    /// The body did not have the shape that the method's result calls for.
    Deserialize { action: String, method: String, message: String, status_code: Option<u16> },
    /// The daemon answered with a non-null `error` member.
    Remote { action: String, error: Json },
    /// A result was asked for, but the response had neither result nor error.
    MissingResult { action: String },
}

pub open spec fn send_action(method: Seq<char>) -> Seq<char> {
    "send "@ + method + " request"@
}

pub open spec fn body_read_action(method: Seq<char>) -> Seq<char> {
    "get response body of "@ + method + " request"@
}

pub open spec fn deserialize_action(method: Seq<char>) -> Seq<char> {
    "deserialize response of Deluge API "@ + method + " request"@
}

/// `prefix`, then `middle`, then `suffix`.
pub(crate) fn joined(prefix: &str, middle: &str, suffix: &str) -> (r: String)
    ensures
        r@ == prefix@ + middle@ + suffix@,
{
    let mut r = prefix.to_owned();
    r.append(middle);
    r.append(suffix);
    r
}

/// The error for a request of `method` that could not be sent.
pub fn transport_error(method: &str, message: String) -> (r: Error)
    ensures
        r matches Error::Transport { action, message: m } && action@ == send_action(method@) && m
            == message,
{
    Error::Transport { action: joined("send ", method, " request"), message }
}

/// The error for a response to `method` whose body could not be read.
pub fn body_read_error(method: &str, message: String, status_code: Option<u16>) -> (r: Error)
    ensures
        r matches Error::BodyRead { action, message: m, status_code: s } && action@
            == body_read_action(method@) && m == message && s == status_code,
{
    Error::BodyRead {
        action: joined("get response body of ", method, " request"),
        message,
        status_code,
    }
}

/// The error for a response to `method` whose body has the wrong shape.
pub fn deserialize_error(method: &str, message: String, status_code: Option<u16>) -> (r: Error)
    ensures
        r matches Error::Deserialize { action, method: m, message: msg, status_code: s }
            && action@ == deserialize_action(method@) && m@ == method@ && msg == message && s
            == status_code,
{
    Error::Deserialize {
        action: joined("deserialize response of Deluge API ", method, " request"),
        method: method.to_owned(),
        message,
        status_code,
    }
}

} // verus!
