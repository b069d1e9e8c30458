//! Request envelopes `{method, params, id}`, one builder per remote method.
use crate::add_torrents::{torrent_path_json, TorrentPath};
use crate::get_torrents::{filter_members, FilterOptions};
use crate::json::{has_members, Json, JsonNumber};
use vstd::prelude::*;

verus! {

/// Relies on `rand::random::<u32>` (the thread-local generator) for a fresh
/// correlation id; nothing is known of the value drawn.
#[verifier::external_body]
fn get_random_u32() -> u32 {
    rand::random::<u32>()
}

/// Whether `j` is an envelope: an object of exactly the members `method` (a
/// string), `params` (an array) and `id` (an integer that fits 32 bits), in
/// that order.
pub open spec fn is_envelope(j: Json) -> bool {
    match j {
        Json::Object(e) => {
            &&& e@.len() == 3
            &&& e@[0].0@ == "method"@ && e@[0].1 is String
            &&& e@[1].0@ == "params"@ && e@[1].1 is Array
            &&& e@[2].0@ == "id"@
            &&& e@[2].1 matches Json::Number(JsonNumber::Unsigned(n)) && n <= u32::MAX
        },
        _ => false,
    }
}

/// The method that an envelope names.
pub open spec fn envelope_method(j: Json) -> Seq<char> {
    match j {
        Json::Object(e) => match e@[0].1 {
            Json::String(m) => m@,
            _ => Seq::empty(),
        },
        _ => Seq::empty(),
    }
}

/// The parameters of an envelope, in order.
pub open spec fn envelope_params(j: Json) -> Seq<Json> {
    match j {
        Json::Object(e) => match e@[1].1 {
            Json::Array(p) => p@,
            _ => Seq::empty(),
        },
        _ => Seq::empty(),
    }
}

/// The correlation id of an envelope.
pub open spec fn envelope_id(j: Json) -> int {
    match j {
        Json::Object(e) => match e@[2].1 {
            Json::Number(JsonNumber::Unsigned(n)) => n as int,
            _ => 0,
        },
        _ => 0,
    }
}

/// The envelope that calls `method` with `params` under the id `id`.
pub fn envelope(method: &str, params: Vec<Json>, id: u32) -> (r: Json)
    ensures
        is_envelope(r),
        envelope_method(r) == method@,
        envelope_params(r) == params@,
        envelope_id(r) == id as int,
{
    let mut e: Vec<(String, Json)> = Vec::new();
    e.push(("method".to_owned(), Json::String(method.to_owned())));
    e.push(("params".to_owned(), Json::Array(params)));
    e.push(("id".to_owned(), Json::Number(JsonNumber::Unsigned(id as u64))));
    Json::Object(e)
}

/// The envelope that calls `method` with `params` under a fresh random id.
pub fn new_envelope(method: &str, params: Vec<Json>) -> (r: Json)
    ensures
        is_envelope(r),
        envelope_method(r) == method@,
        envelope_params(r) == params@,
{
    envelope(method, params, get_random_u32())
}

/// Logs in with `password`: `auth.login` with `[password]`.
pub fn login_request(password: &str) -> (r: Json)
    ensures
        is_envelope(r),
        envelope_method(r) == "auth.login"@,
        envelope_params(r).len() == 1,
        envelope_params(r)[0] matches Json::String(p) && p@ == password@,
{
    let mut params: Vec<Json> = Vec::new();
    params.push(Json::String(password.to_owned()));
    new_envelope("auth.login", params)
}

/// Lists the daemon hosts: `web.get_hosts` with no parameters.
pub fn get_hosts_request() -> (r: Json)
    ensures
        is_envelope(r),
        envelope_method(r) == "web.get_hosts"@,
        envelope_params(r).len() == 0,
{
    new_envelope("web.get_hosts", Vec::new())
}

/// Asks for the status of the host `host_id`: `web.get_host_status` with
/// `[host_id]`.
pub fn get_host_status_request(host_id: &str) -> (r: Json)
    ensures
        is_envelope(r),
        envelope_method(r) == "web.get_host_status"@,
        envelope_params(r).len() == 1,
        envelope_params(r)[0] matches Json::String(h) && h@ == host_id@,
{
    let mut params: Vec<Json> = Vec::new();
    params.push(Json::String(host_id.to_owned()));
    new_envelope("web.get_host_status", params)
}

/// Asks for every status key of the torrent `torrent_id`:
/// `web.get_torrent_status` with `[torrent_id, []]`.
pub fn get_torrent_status_request(torrent_id: &str) -> (r: Json)
    ensures
        is_envelope(r),
        envelope_method(r) == "web.get_torrent_status"@,
        envelope_params(r).len() == 2,
        envelope_params(r)[0] matches Json::String(t) && t@ == torrent_id@,
        envelope_params(r)[1] matches Json::Array(keys) && keys@.len() == 0,
{
    let mut params: Vec<Json> = Vec::new();
    params.push(Json::String(torrent_id.to_owned()));
    params.push(Json::Array(Vec::new()));
    new_envelope("web.get_torrent_status", params)
}

/// Asks for the interface snapshot narrowed by `filters`: `web.update_ui`
/// with `[[], filters]`.
pub fn update_ui_request(filters: &FilterOptions) -> (r: Json)
    ensures
        is_envelope(r),
        envelope_method(r) == "web.update_ui"@,
        envelope_params(r).len() == 2,
        envelope_params(r)[0] matches Json::Array(keys) && keys@.len() == 0,
        envelope_params(r)[1] matches Json::Object(f) && has_members(f@, filter_members(*filters)),
{
    let mut params: Vec<Json> = Vec::new();
    params.push(Json::Array(Vec::new()));
    params.push(filters.to_json());
    new_envelope("web.update_ui", params)
}

/// Whether `items` are the request objects of `torrents`, one for one.
pub open spec fn paths_json(torrents: Seq<TorrentPath>, items: Seq<Json>) -> bool {
    items.len() == torrents.len() && forall|i: int|
        0 <= i < torrents.len() ==> #[trigger] torrent_path_json(torrents[i], items[i])
}

/// Adds the torrent files `torrents`: `web.add_torrents` with `[[path, ...]]`,
/// one `{path, options}` object per torrent, in order.
pub fn add_torrents_request(torrents: &Vec<TorrentPath>) -> (r: Json)
    ensures
        is_envelope(r),
        envelope_method(r) == "web.add_torrents"@,
        envelope_params(r).len() == 1,
        envelope_params(r)[0] matches Json::Array(items) && paths_json(torrents@, items@),
{
    let mut items: Vec<Json> = Vec::new();
    let mut i: usize = 0;
    while i < torrents.len()
        invariant
            i <= torrents@.len(),
            items@.len() == i,
            forall|k: int| 0 <= k < i ==> #[trigger] torrent_path_json(torrents@[k], items@[k]),
        decreases torrents@.len() - i,
    {
        items.push(torrents[i].to_json());
        i = i + 1;
    }
    let mut params: Vec<Json> = Vec::new();
    params.push(Json::Array(items));
    new_envelope("web.add_torrents", params)
}

} // verus!
