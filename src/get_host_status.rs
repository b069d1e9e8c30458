//! The status of one daemon host, sent as the array `[id, status, version]`.
use crate::codec::FromJson;
use crate::json::Json;
use vstd::prelude::*;

verus! {

/// How a daemon host is reachable.
///
/// The daemon may grow new states: a tag that is not known here is kept as
/// it was sent, so decoding a status never fails.
#[derive(Debug, Clone, PartialEq)]
pub enum Status {
    Online,
    Connected,
    Other(String),
}

/// The status that the tag `s` names.
pub open spec fn status_of(s: String) -> Status {
    if s@ == "Online"@ {
        Status::Online
    } else if s@ == "Connected"@ {
        Status::Connected
    } else {
        Status::Other(s)
    }
}

/// The tag that stands for `status` on the wire.
pub open spec fn status_tag(status: Status) -> Seq<char> {
    match status {
        Status::Online => "Online"@,
        Status::Connected => "Connected"@,
        Status::Other(s) => s@,
    }
}

impl Status {
    /// The status that the tag `s` names; never fails.
    pub fn from_tag(s: String) -> (r: Status)
        ensures
            r == status_of(s),
    {
        if s == "Online".to_owned() {
            Status::Online
        } else if s == "Connected".to_owned() {
            Status::Connected
        } else {
            Status::Other(s)
        }
    }

    /// The tag that stands for this status on the wire.
    pub fn to_tag(&self) -> (r: String)
        ensures
            r@ == status_tag(*self),
    {
        match self {
            Status::Online => "Online".to_owned(),
            Status::Connected => "Connected".to_owned(),
            Status::Other(s) => s.clone(),
        }
    }
}

/// The status of one daemon host.
#[derive(Debug, Clone, PartialEq)]
pub struct Host {
    pub id: String,
    pub status: Status,
    pub version: String,
}

/// A string element of a positional array, by its field name.
pub(crate) fn string_at(items: &Vec<Json>, i: usize, name: &str) -> (r: Result<String, String>)
    requires
        i < items@.len(),
    ensures
        match r {
            Ok(s) => items@[i as int] == Json::String(s),
            Err(_) => !(items@[i as int] is String),
        },
{
    match &items[i] {
        Json::String(s) => Ok(s.clone()),
        _ => {
            let mut message = "expected a string for '".to_owned();
            vstd::string::StringExecFns::append(&mut message, name);
            vstd::string::StringExecFns::append(&mut message, "'");
            Err(message)
        },
    }
}

impl FromJson for Host {
    open spec fn wire_accepts(j: Json) -> bool {
        j matches Json::Array(items) && items@.len() == 3 && items@[0] is String
            && items@[1] is String && items@[2] is String
    }

    open spec fn wire_denotes(j: Json, v: Host) -> bool {
        match j {
            Json::Array(items) => {
                &&& items@.len() == 3
                &&& items@[0] == Json::String(v.id)
                &&& items@[1] matches Json::String(s) && v.status == status_of(s)
                &&& items@[2] == Json::String(v.version)
            },
            _ => false,
        }
    }

    /// Decodes `[id, status, version]`; any other length is refused.
    fn from_json(j: &Json) -> (r: Result<Host, String>) {
        match j {
            Json::Array(items) => {
                if items.len() != 3 {
                    return Err("expected an array of 3 elements: [id, status, version]".to_owned());
                }
                let id = string_at(items, 0, "id")?;
                let status = string_at(items, 1, "status")?;
                let version = string_at(items, 2, "version")?;
                Ok(Host { id, status: Status::from_tag(status), version })
            },
            _ => Err("expected an array: [id, status, version]".to_owned()),
        }
    }
}

} // verus!
