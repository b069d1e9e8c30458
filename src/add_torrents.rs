//! Adding torrents by file: what is sent, and the `[added, hash]` pairs that
//! come back.
//!
//! The daemon does not answer a request that adds a torrent whose hash is
//! already in its session: the call hangs rather than fails, so a caller must
//! put its own timeout around it.
use crate::codec::FromJson;
use crate::get_host_status::string_at;
use crate::json::{
    bool_member, has_members, ints_member, lemma_has_no_members, num_member, push_bool_member,
    push_ints_member, push_num_member, push_str_member, push_u32_member, str_member, u32_member,
    field, Json, JsonNumber, WireValue,
};
use vstd::prelude::*;

verus! {

/// A torrent file on the daemon's host, and how to add it.
#[derive(Debug, Clone, PartialEq)]
pub struct TorrentPath {
    pub path: String,
    pub options: Options,
}

/// How to add a torrent. Each field left unset is left out of the request,
/// so that the daemon applies its own default.
#[derive(Debug, Default, Clone, PartialEq)]
pub struct Options {
    /// Directory to download the files
    pub download_location: Option<String>,
    /// File priority list
    pub file_priorities: Option<Vec<i32>>,
    /// Start the torrent paused
    pub add_paused: Option<bool>,
    /// Maximum download speed in bytes per second
    pub max_download_speed: Option<JsonNumber>,
    /// Maximum upload speed in bytes per second
    pub max_upload_speed: Option<JsonNumber>,
    /// Maximum number of connections
    pub max_connections: Option<u32>,
    /// Move completed downloads to another directory
    pub move_completed: Option<bool>,
    /// Path to move completed downloads
    pub move_completed_path: Option<String>,
    /// Add the torrent in seed mode
    pub seed_mode: Option<bool>,
    /// Download files sequentially
    pub sequential_download: Option<bool>,
    /// Skip the hash check when adding the torrent
    pub skip_hash_check: Option<bool>,
}

/// The members of the request object of `o`: one for each field that is set,
/// in declaration order.
pub open spec fn options_members(o: Options) -> Seq<(Seq<char>, WireValue)> {
    str_member("download_location"@, o.download_location)
        + ints_member("file_priorities"@, o.file_priorities)
        + bool_member("add_paused"@, o.add_paused)
        + num_member("max_download_speed"@, o.max_download_speed)
        + num_member("max_upload_speed"@, o.max_upload_speed)
        + u32_member("max_connections"@, o.max_connections) + bool_member("move_completed"@, o.move_completed) + str_member("move_completed_path"@, o.move_completed_path) + bool_member("seed_mode"@, o.seed_mode) + bool_member("sequential_download"@, o.sequential_download) + bool_member("skip_hash_check"@, o.skip_hash_check)
}

impl Options {
    /// The request object: one member for each field that is set, none for
    /// the others.
    pub fn to_json(&self) -> (r: Json)
        ensures
            r matches Json::Object(entries) && has_members(entries@, options_members(*self)),
    {
        let mut entries: Vec<(String, Json)> = Vec::new();
        proof {
            lemma_has_no_members(entries@);
        }
        let ghost e = Seq::<(Seq<char>, WireValue)>::empty();
        push_str_member(&mut entries, "download_location", &self.download_location, Ghost(e));
        proof {
            e = str_member("download_location"@, self.download_location);
            assert(Seq::<(Seq<char>, WireValue)>::empty() + e =~= e);
        }
        push_ints_member(&mut entries, "file_priorities", &self.file_priorities, Ghost(e));
        proof { e = e + ints_member("file_priorities"@, self.file_priorities); }
        push_bool_member(&mut entries, "add_paused", self.add_paused, Ghost(e));
        proof { e = e + bool_member("add_paused"@, self.add_paused); }
        push_num_member(&mut entries, "max_download_speed", &self.max_download_speed, Ghost(e));
        proof { e = e + num_member("max_download_speed"@, self.max_download_speed); }
        push_num_member(&mut entries, "max_upload_speed", &self.max_upload_speed, Ghost(e));
        proof { e = e + num_member("max_upload_speed"@, self.max_upload_speed); }
        push_u32_member(&mut entries, "max_connections", self.max_connections, Ghost(e));
        proof { e = e + u32_member("max_connections"@, self.max_connections); }
        push_bool_member(&mut entries, "move_completed", self.move_completed, Ghost(e));
        proof { e = e + bool_member("move_completed"@, self.move_completed); }
        push_str_member(&mut entries, "move_completed_path", &self.move_completed_path, Ghost(e));
        proof { e = e + str_member("move_completed_path"@, self.move_completed_path); }
        push_bool_member(&mut entries, "seed_mode", self.seed_mode, Ghost(e));
        proof { e = e + bool_member("seed_mode"@, self.seed_mode); }
        push_bool_member(&mut entries, "sequential_download", self.sequential_download, Ghost(e));
        proof { e = e + bool_member("sequential_download"@, self.sequential_download); }
        push_bool_member(&mut entries, "skip_hash_check", self.skip_hash_check, Ghost(e));
        Json::Object(entries)
    }
}

/// Leaving every option unset sends an empty object: none of the option
/// keys is present.
pub proof fn lemma_unset_options_are_omitted(o: Options, j: Json)
    requires
        o.download_location is None,
        o.file_priorities is None,
        o.add_paused is None,
        o.max_download_speed is None,
        o.max_upload_speed is None,
        o.max_connections is None,
        o.move_completed is None,
        o.move_completed_path is None,
        o.seed_mode is None,
        o.sequential_download is None,
        o.skip_hash_check is None,
        j matches Json::Object(entries) && has_members(entries@, options_members(o)),
    ensures
        j matches Json::Object(entries) && entries@.len() == 0,
        forall|key: Seq<char>| #[trigger] field(j, key) is None,
{
    reveal(has_members);
    assert(options_members(o) =~= Seq::empty());
}

/// Whether `j` is the request object `{path, options}` of `t`.
pub open spec fn torrent_path_json(t: TorrentPath, j: Json) -> bool {
    match j {
        Json::Object(entries) => {
            &&& entries@.len() == 2
            &&& entries@[0].0@ == "path"@
            &&& entries@[0].1 == Json::String(t.path)
            &&& entries@[1].0@ == "options"@
            &&& entries@[1].1 matches Json::Object(o) && has_members(o@, options_members(t.options))
        },
        _ => false,
    }
}

impl TorrentPath {
    /// The request object `{path, options}`.
    pub fn to_json(&self) -> (r: Json)
        ensures
            torrent_path_json(*self, r),
    {
        let mut entries: Vec<(String, Json)> = Vec::new();
        entries.push(("path".to_owned(), Json::String(self.path.clone())));
        entries.push(("options".to_owned(), self.options.to_json()));
        Json::Object(entries)
    }
}

/// The outcome of adding one torrent, sent as the pair `[added, hash]`.
#[derive(Debug, Clone, PartialEq)]
pub struct Torrent {
    pub added: bool,
    pub hash: String,
}

impl FromJson for Torrent {
    open spec fn wire_accepts(j: Json) -> bool {
        match j {
            Json::Array(items) => items@.len() == 2 && items@[0] is Bool && items@[1] is String,
            _ => false,
        }
    }

    open spec fn wire_denotes(j: Json, v: Torrent) -> bool {
        match j {
            Json::Array(items) => items@.len() == 2 && items@[0] == Json::Bool(v.added)
                && items@[1] == Json::String(v.hash),
            _ => false,
        }
    }

    /// Decodes `[added, hash]`; any other length is refused.
    fn from_json(j: &Json) -> (r: Result<Torrent, String>) {
        match j {
            Json::Array(items) => {
                if items.len() != 2 {
                    return Err("expected an array of 2 elements: [added, hash]".to_owned());
                }
                let added = match &items[0] {
                    Json::Bool(b) => *b,
                    _ => return Err("expected a boolean for 'added'".to_owned()),
                };
                let hash = string_at(items, 1, "hash")?;
                Ok(Torrent { added, hash })
            },
            _ => Err("expected an array: [added, hash]".to_owned()),
        }
    }
}

} // verus!
