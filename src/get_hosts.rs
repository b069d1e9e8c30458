//! The daemon hosts of the host list, each sent as a named object.
use crate::codec::{get_string_field, get_u16_field, int_field, string_field, FromJson};
use crate::json::Json;
use vstd::prelude::*;

verus! {

/// A daemon that the web interface can connect to.
#[derive(Debug, Clone, PartialEq)]
pub struct Host {
    pub id: String,
    pub host: String,
    pub port: u16,
    pub user: String,
}

impl FromJson for Host {
    open spec fn wire_accepts(j: Json) -> bool {
        &&& string_field(j, "id"@) is Some
        &&& string_field(j, "host"@) is Some
        &&& int_field(j, "port"@, 0, u16::MAX as int) is Some
        &&& string_field(j, "user"@) is Some
    }

    open spec fn wire_denotes(j: Json, v: Host) -> bool {
        &&& string_field(j, "id"@) == Some(v.id)
        &&& string_field(j, "host"@) == Some(v.host)
        &&& int_field(j, "port"@, 0, u16::MAX as int) == Some(v.port as int)
        &&& string_field(j, "user"@) == Some(v.user)
    }

    /// Decodes `{id, host, port, user}`; other members are ignored.
    fn from_json(j: &Json) -> (r: Result<Host, String>) {
        let id = get_string_field(j, "id")?;
        let host = get_string_field(j, "host")?;
        let port = get_u16_field(j, "port")?;
        let user = get_string_field(j, "user")?;
        Ok(Host { id, host, port, user })
    }
}

} // verus!
