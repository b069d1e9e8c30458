//! The torrents that match a filter, taken from the interface snapshot.
use crate::codec::{
    get_number_field, get_string_field, get_u64_field, int_field, number_field, string_field,
    FromJson,
};
use crate::get_interface::Interface;
use crate::json::{
    field, has_members, lemma_has_no_members, push_strs_member, strs_member, Json, JsonNumber,
    WireValue,
};
use crate::response::Response;
use vstd::prelude::*;

verus! {

/// Which torrents to list. A field left unset does not narrow the list and
/// is left out of the request.
#[derive(Debug, Default, Clone, PartialEq)]
pub struct FilterOptions {
    pub state: Option<Vec<String>>,
    pub tracker_host: Option<Vec<String>>,
    pub label: Option<Vec<String>>,
    pub name: Option<Vec<String>>,
}

/// The members of the request object of `f`: one for each field that is set,
/// in declaration order.
pub open spec fn filter_members(f: FilterOptions) -> Seq<(Seq<char>, WireValue)> {
    strs_member("state"@, f.state) + strs_member("tracker_host"@, f.tracker_host) + strs_member(
        "label"@,
        f.label,
    ) + strs_member("name"@, f.name)
}

impl FilterOptions {
    /// The request object: one member for each field that is set, none for
    /// the others.
    pub fn to_json(&self) -> (r: Json)
        ensures
            r matches Json::Object(entries) && has_members(entries@, filter_members(*self)),
    {
        let mut entries: Vec<(String, Json)> = Vec::new();
        proof {
            lemma_has_no_members(entries@);
        }
        let ghost e = Seq::<(Seq<char>, WireValue)>::empty();
        push_strs_member(&mut entries, "state", &self.state, Ghost(e));
        proof {
            e = strs_member("state"@, self.state);
            assert(Seq::<(Seq<char>, WireValue)>::empty() + e =~= e);
        }
        push_strs_member(&mut entries, "tracker_host", &self.tracker_host, Ghost(e));
        proof { e = e + strs_member("tracker_host"@, self.tracker_host); }
        push_strs_member(&mut entries, "label", &self.label, Ghost(e));
        proof { e = e + strs_member("label"@, self.label); }
        push_strs_member(&mut entries, "name", &self.name, Ghost(e));
        Json::Object(entries)
    }
}

/// Leaving every filter unset sends an empty object: none of the filter keys
/// is present.
pub proof fn lemma_unset_filters_are_omitted(f: FilterOptions, j: Json)
    requires
        f.state is None,
        f.tracker_host is None,
        f.label is None,
        f.name is None,
        j matches Json::Object(entries) && has_members(entries@, filter_members(f)),
    ensures
        j matches Json::Object(entries) && entries@.len() == 0,
        forall|key: Seq<char>| #[trigger] field(j, key) is None,
{
    reveal(has_members);
    assert(filter_members(f) =~= Seq::empty());
}

/// A torrent as the interface snapshot lists it.
#[derive(Debug, Clone, PartialEq)]
pub struct Torrent {
    pub label: String,
    pub name: String,
    pub progress: JsonNumber,
    pub save_path: String,
    pub state: String,
    pub total_remaining: u64,
}

impl FromJson for Torrent {
    open spec fn wire_accepts(j: Json) -> bool {
        &&& string_field(j, "label"@) is Some
        &&& string_field(j, "name"@) is Some
        &&& number_field(j, "progress"@) is Some
        &&& string_field(j, "save_path"@) is Some
        &&& string_field(j, "state"@) is Some
        &&& int_field(j, "total_remaining"@, 0, u64::MAX as int) is Some
    }

    open spec fn wire_denotes(j: Json, v: Torrent) -> bool {
        &&& string_field(j, "label"@) == Some(v.label)
        &&& string_field(j, "name"@) == Some(v.name)
        &&& number_field(j, "progress"@) == Some(v.progress)
        &&& string_field(j, "save_path"@) == Some(v.save_path)
        &&& string_field(j, "state"@) == Some(v.state)
        &&& int_field(j, "total_remaining"@, 0, u64::MAX as int) == Some(v.total_remaining as int)
    }

    /// Decodes an object with these members; other members are ignored.
    fn from_json(j: &Json) -> (r: Result<Torrent, String>) {
        let label = get_string_field(j, "label")?;
        let name = get_string_field(j, "name")?;
        let progress = get_number_field(j, "progress")?;
        let save_path = get_string_field(j, "save_path")?;
        let state = get_string_field(j, "state")?;
        let total_remaining = get_u64_field(j, "total_remaining")?;
        Ok(Torrent {
            label,
            name,
            progress,
            save_path,
            state,
            total_remaining,
        })
    }
}

/// The torrents of a snapshot response, keyed by hash: none where the
/// snapshot lists no torrents.
pub fn torrents_response(response: Response<Interface>) -> (r: Response<Vec<(String, Torrent)>>)
    ensures
        r.status_code == response.status_code,
        r.error == response.error,
        r.id == response.id,
        match response.result {
            Some(interface) => match interface.torrents {
                Some(torrents) => r.result == Some(torrents),
                None => r.result matches Some(torrents) && torrents@.len() == 0,
            },
            None => r.result is None,
        },
{
    let result = match response.result {
        Some(interface) => match interface.torrents {
            Some(torrents) => Some(torrents),
            None => Some(Vec::new()),
        },
        None => None,
    };
    Response { status_code: response.status_code, result, error: response.error, id: response.id }
}

} // verus!
