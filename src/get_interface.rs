//! The interface snapshot: connection state, filter counts, daemon figures
//! and the torrents that match a filter.
use crate::codec::{
    bool_field, get_bool_field, get_i64_field, get_number_field, get_string_field, get_u64_field,
    int_field, members_accept, members_denote, members_from_json, number_field, string_field,
    FromJson,
};
use crate::get_torrents::Torrent;
use crate::json::{
    field, get_field, get_optional_field, integer_in, optional_field, to_u64_value, Json, JsonNumber,
};
use vstd::prelude::*;

verus! {

/// The snapshot that the web interface is drawn from.
#[derive(Debug, Clone, PartialEq)]
pub struct Interface {
    pub connected: bool,
    pub filters: Counts,
    pub stats: Stats,
    /// The matching torrents by hash; `None` where the daemon sent none.
    pub torrents: Option<Vec<(String, Torrent)>>,
}

impl FromJson for Interface {
    open spec fn wire_accepts(j: Json) -> bool {
        &&& bool_field(j, "connected"@) is Some
        &&& field(j, "filters"@) matches Some(f) && Counts::wire_accepts(f)
        &&& field(j, "stats"@) matches Some(s) && Stats::wire_accepts(s)
        &&& match optional_field(j, "torrents"@) {
            Some(t) => members_accept::<Torrent>(t),
            None => true,
        }
    }

    open spec fn wire_denotes(j: Json, v: Interface) -> bool {
        &&& bool_field(j, "connected"@) == Some(v.connected)
        &&& field(j, "filters"@) matches Some(f) && Counts::wire_denotes(f, v.filters)
        &&& field(j, "stats"@) matches Some(s) && Stats::wire_denotes(s, v.stats)
        &&& match optional_field(j, "torrents"@) {
            Some(t) => v.torrents matches Some(torrents) && members_denote::<Torrent>(
                t,
                torrents@,
            ),
            None => v.torrents is None,
        }
    }

    /// Decodes `{connected, filters, stats, torrents}`; a `null` or missing
    /// `torrents` is `None`.
    fn from_json(j: &Json) -> (r: Result<Interface, String>) {
        let connected = get_bool_field(j, "connected")?;
        let filters = match get_field(j, "filters") {
            Some(f) => Counts::from_json(f)?,
            None => return Err("missing field 'filters'".to_owned()),
        };
        let stats = match get_field(j, "stats") {
            Some(s) => Stats::from_json(s)?,
            None => return Err("missing field 'stats'".to_owned()),
        };
        let torrents = match get_optional_field(j, "torrents") {
            Some(t) => Some(members_from_json::<Torrent>(t)?),
            None => None,
        };
        Ok(Interface { connected, filters, stats, torrents })
    }
}

/// How many torrents carry each label, owner, state and tracker host, as
/// sets of `(name, count)` pairs: no pair appears twice.
#[derive(Debug, Clone, PartialEq)]
pub struct Counts {
    pub label: Vec<(String, u64)>,
    pub owner: Vec<(String, u64)>,
    pub state: Vec<(String, u64)>,
    pub tracker_host: Vec<(String, u64)>,
}

/// The pair `[name, count]` that `x` is, if it is one.
pub open spec fn pair_of(x: Json) -> Option<(Seq<char>, u64)> {
    match x {
        Json::Array(it) => if it@.len() == 2 {
            match (it@[0], integer_in(it@[1], 0, u64::MAX as int)) {
                (Json::String(s), Some(n)) => Some((s@, n as u64)),
                _ => None,
            }
        } else {
            None
        },
        _ => None,
    }
}

/// The pairs `v` as names and counts.
pub open spec fn pairs_view(v: Seq<(String, u64)>) -> Seq<(Seq<char>, u64)> {
    v.map_values(|p: (String, u64)| (p.0@, p.1))
}

/// Whether `j` is an array of `[name, count]` pairs.
pub open spec fn pairs_accept(j: Json) -> bool {
    match j {
        Json::Array(items) => forall|i: int| 0 <= i < items@.len() ==> #[trigger] pair_of(items@[i]) is Some,
        _ => false,
    }
}

/// Whether `v` holds each distinct pair of the array `j` once.
pub open spec fn pairs_denote(j: Json, v: Seq<(String, u64)>) -> bool {
    match j {
        Json::Array(items) => {
            &&& pairs_view(v).no_duplicates()
            &&& forall|q: (Seq<char>, u64)|
                pairs_view(v).contains(q) <==> exists|i: int|
                    0 <= i < items@.len() && #[trigger] pair_of(items@[i]) == Some(q)
        },
        _ => false,
    }
}

/// The pair `[name, count]` that `x` is.
fn pair_from_json(x: &Json) -> (r: Option<(String, u64)>)
    ensures
        match r {
            Some(p) => pair_of(*x) == Some((p.0@, p.1)),
            None => pair_of(*x) is None,
        },
{
    match x {
        Json::Array(it) => {
            if it.len() != 2 {
                return None;
            }
            match (&it[0], to_u64_value(&it[1])) {
                (Json::String(s), Some(n)) => Some((s.clone(), n)),
                _ => None,
            }
        },
        _ => None,
    }
}

/// Whether `v` already holds the pair `p`.
fn holds_pair(v: &Vec<(String, u64)>, p: &(String, u64)) -> (r: bool)
    ensures
        r == pairs_view(v@).contains((p.0@, p.1)),
{
    let mut m: usize = 0;
    while m < v.len()
        invariant
            m <= v@.len(),
            forall|k: int| 0 <= k < m ==> pairs_view(v@)[k] != (p.0@, p.1),
        decreases v@.len() - m,
    {
        if v[m].0 == p.0 && v[m].1 == p.1 {
            assert(pairs_view(v@)[m as int] == (p.0@, p.1));
            return true;
        }
        m = m + 1;
    }
    false
}

/// Decodes an array of `[name, count]` pairs into a set of them.
pub fn pairs_from_json(j: &Json) -> (r: Result<Vec<(String, u64)>, String>)
    ensures
        match r {
            Ok(v) => pairs_accept(*j) && pairs_denote(*j, v@),
            Err(_) => !pairs_accept(*j),
        },
{
    match j {
        Json::Array(items) => {
            let mut out: Vec<(String, u64)> = Vec::new();
            let mut i: usize = 0;
            while i < items.len()
                invariant
                    i <= items@.len(),
                    *j == Json::Array(*items),
                    forall|k: int| 0 <= k < i ==> #[trigger] pair_of(items@[k]) is Some,
                    pairs_view(out@).no_duplicates(),
                    forall|q: (Seq<char>, u64)|
                        pairs_view(out@).contains(q) <==> exists|k: int|
                            0 <= k < i && #[trigger] pair_of(items@[k]) == Some(q),
                decreases items@.len() - i,
            {
                match pair_from_json(&items[i]) {
                    None => return Err("expected a [name, count] pair".to_owned()),
                    Some(p) => {
                        let ghost q = (p.0@, p.1);
                        let ghost before = pairs_view(out@);
                        assert(pair_of(items@[i as int]) == Some(q));
                        if !holds_pair(&out, &p) {
                            out.push(p);
                            assert(pairs_view(out@) =~= before.push(q));
                            assert(pairs_view(out@)[before.len() as int] == q);
                        }
                        assert(pairs_view(out@).contains(q));
                        assert forall|r: (Seq<char>, u64)| #[trigger]
                            pairs_view(out@).contains(r) implies exists|k: int|
                                0 <= k < i + 1 && #[trigger] pair_of(items@[k]) == Some(r) by {
                            if r != q {
                                let n = choose|n: int| 0 <= n < pairs_view(out@).len() && pairs_view(out@)[n] == r;
                                assert(before[n] == r);
                                assert(before.contains(r));
                            }
                        }
                        assert forall|r: (Seq<char>, u64)| (exists|k: int|
                                0 <= k < i + 1 && #[trigger] pair_of(items@[k]) == Some(r)) implies
                            #[trigger] pairs_view(out@).contains(r) by {
                            let k = choose|k: int| 0 <= k < i + 1 && #[trigger] pair_of(items@[k]) == Some(r);
                            if k < i {
                                assert(before.contains(r));
                                let n = choose|n: int| 0 <= n < before.len() && before[n] == r;
                                assert(pairs_view(out@)[n] == r);
                            }
                        }
                    },
                }
                i = i + 1;
            }
            Ok(out)
        },
        _ => Err("expected an array of [name, count] pairs".to_owned()),
    }
}

/// The member `key` of `j` as a set of pairs.
fn pairs_field(j: &Json, key: &str) -> (r: Result<Vec<(String, u64)>, String>)
    ensures
        match r {
            Ok(v) => field(*j, key@) matches Some(x) && pairs_accept(x) && pairs_denote(x, v@),
            Err(_) => !(field(*j, key@) matches Some(x) && pairs_accept(x)),
        },
{
    match get_field(j, key) {
        Some(x) => pairs_from_json(x),
        None => Err("missing field of [name, count] pairs".to_owned()),
    }
}

impl FromJson for Counts {
    open spec fn wire_accepts(j: Json) -> bool {
        &&& field(j, "label"@) matches Some(x) && pairs_accept(x)
        &&& field(j, "owner"@) matches Some(x) && pairs_accept(x)
        &&& field(j, "state"@) matches Some(x) && pairs_accept(x)
        &&& field(j, "tracker_host"@) matches Some(x) && pairs_accept(x)
    }

    open spec fn wire_denotes(j: Json, v: Counts) -> bool {
        &&& field(j, "label"@) matches Some(x) && pairs_denote(x, v.label@)
        &&& field(j, "owner"@) matches Some(x) && pairs_denote(x, v.owner@)
        &&& field(j, "state"@) matches Some(x) && pairs_denote(x, v.state@)
        &&& field(j, "tracker_host"@) matches Some(x) && pairs_denote(x, v.tracker_host@)
    }

    /// Decodes `{label, owner, state, tracker_host}`, each an array of pairs.
    fn from_json(j: &Json) -> (r: Result<Counts, String>) {
        let label = pairs_field(j, "label")?;
        let owner = pairs_field(j, "owner")?;
        let state = pairs_field(j, "state")?;
        let tracker_host = pairs_field(j, "tracker_host")?;
        Ok(Counts { label, owner, state, tracker_host })
    }
}

/// Daemon-wide transfer and connection figures.
#[derive(Debug, Clone, PartialEq)]
pub struct Stats {
    pub dht_nodes: u64,
    pub download_protocol_rate: JsonNumber,
    pub download_rate: JsonNumber,
    pub external_ip: String,
    pub free_space: u64,
    pub has_incoming_connections: u64,
    pub max_download: JsonNumber,
    pub max_num_connections: i64,
    pub max_upload: JsonNumber,
    pub num_connections: u64,
    pub upload_protocol_rate: JsonNumber,
    pub upload_rate: JsonNumber,
}

impl FromJson for Stats {
    open spec fn wire_accepts(j: Json) -> bool {
        &&& int_field(j, "dht_nodes"@, 0, u64::MAX as int) is Some
        &&& number_field(j, "download_protocol_rate"@) is Some
        &&& number_field(j, "download_rate"@) is Some
        &&& string_field(j, "external_ip"@) is Some
        &&& int_field(j, "free_space"@, 0, u64::MAX as int) is Some
        &&& int_field(j, "has_incoming_connections"@, 0, u64::MAX as int) is Some
        &&& number_field(j, "max_download"@) is Some
        &&& int_field(j, "max_num_connections"@, i64::MIN as int, i64::MAX as int) is Some
        &&& number_field(j, "max_upload"@) is Some
        &&& int_field(j, "num_connections"@, 0, u64::MAX as int) is Some
        &&& number_field(j, "upload_protocol_rate"@) is Some
        &&& number_field(j, "upload_rate"@) is Some
    }

    open spec fn wire_denotes(j: Json, v: Stats) -> bool {
        &&& int_field(j, "dht_nodes"@, 0, u64::MAX as int) == Some(v.dht_nodes as int)
        &&& number_field(j, "download_protocol_rate"@) == Some(v.download_protocol_rate)
        &&& number_field(j, "download_rate"@) == Some(v.download_rate)
        &&& string_field(j, "external_ip"@) == Some(v.external_ip)
        &&& int_field(j, "free_space"@, 0, u64::MAX as int) == Some(v.free_space as int)
        &&& int_field(j, "has_incoming_connections"@, 0, u64::MAX as int) == Some(v.has_incoming_connections as int)
        &&& number_field(j, "max_download"@) == Some(v.max_download)
        &&& int_field(j, "max_num_connections"@, i64::MIN as int, i64::MAX as int) == Some(v.max_num_connections as int)
        &&& number_field(j, "max_upload"@) == Some(v.max_upload)
        &&& int_field(j, "num_connections"@, 0, u64::MAX as int) == Some(v.num_connections as int)
        &&& number_field(j, "upload_protocol_rate"@) == Some(v.upload_protocol_rate)
        &&& number_field(j, "upload_rate"@) == Some(v.upload_rate)
    }

    /// Decodes an object with these members; other members are ignored.
    fn from_json(j: &Json) -> (r: Result<Stats, String>) {
        let dht_nodes = get_u64_field(j, "dht_nodes")?;
        let download_protocol_rate = get_number_field(j, "download_protocol_rate")?;
        let download_rate = get_number_field(j, "download_rate")?;
        let external_ip = get_string_field(j, "external_ip")?;
        let free_space = get_u64_field(j, "free_space")?;
        let has_incoming_connections = get_u64_field(j, "has_incoming_connections")?;
        let max_download = get_number_field(j, "max_download")?;
        let max_num_connections = get_i64_field(j, "max_num_connections")?;
        let max_upload = get_number_field(j, "max_upload")?;
        let num_connections = get_u64_field(j, "num_connections")?;
        let upload_protocol_rate = get_number_field(j, "upload_protocol_rate")?;
        let upload_rate = get_number_field(j, "upload_rate")?;
        Ok(Stats {
            dht_nodes,
            download_protocol_rate,
            download_rate,
            external_ip,
            free_space,
            has_incoming_connections,
            max_download,
            max_num_connections,
            max_upload,
            num_connections,
            upload_protocol_rate,
            upload_rate,
        })
    }
}

} // verus!
