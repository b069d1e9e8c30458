//! The full status of one torrent.
use crate::codec::{
    bool_field, get_bool_field, get_i32_field, get_i64_field, get_number_field, get_string_field,
    get_u32_field, get_u64_field, int_field, number_field, string_field, FromJson,
};
use crate::json::{Json, JsonNumber};
use vstd::prelude::*;

verus! {

/// The full status of one torrent, sent as an object with one member per field.
///
/// Rates, ratios and times that the daemon may send with a fraction keep the
/// number as it was sent.
#[derive(Debug, Clone, PartialEq)]
pub struct Torrent {
    pub completed_time: u64,
    pub distributed_copies: JsonNumber,
    pub download_location: String,
    pub download_payload_rate: JsonNumber,
    pub eta: JsonNumber,
    pub is_auto_managed: bool,
    pub label: String,
    pub last_seen_complete: u64,
    pub max_download_speed: i64,
    pub max_upload_speed: i64,
    pub name: String,
    pub num_peers: u32,
    pub num_seeds: u32,
    pub progress: JsonNumber,
    pub queue: i32,
    pub ratio: JsonNumber,
    pub seeds_peers_ratio: JsonNumber,
    pub state: String,
    pub time_added: u64,
    pub time_since_transfer: u64,
    pub total_done: u64,
    pub total_peers: u32,
    pub total_remaining: u64,
    pub total_seeds: u32,
    pub total_uploaded: u64,
    pub total_wanted: u64,
    pub tracker_host: String,
    pub upload_payload_rate: JsonNumber,
}

impl FromJson for Torrent {
    open spec fn wire_accepts(j: Json) -> bool {
        &&& int_field(j, "completed_time"@, 0, u64::MAX as int) is Some
        &&& number_field(j, "distributed_copies"@) is Some
        &&& string_field(j, "download_location"@) is Some
        &&& number_field(j, "download_payload_rate"@) is Some
        &&& number_field(j, "eta"@) is Some
        &&& bool_field(j, "is_auto_managed"@) is Some
        &&& string_field(j, "label"@) is Some
        &&& int_field(j, "last_seen_complete"@, 0, u64::MAX as int) is Some
        &&& int_field(j, "max_download_speed"@, i64::MIN as int, i64::MAX as int) is Some
        &&& int_field(j, "max_upload_speed"@, i64::MIN as int, i64::MAX as int) is Some
        &&& string_field(j, "name"@) is Some
        &&& int_field(j, "num_peers"@, 0, u32::MAX as int) is Some
        &&& int_field(j, "num_seeds"@, 0, u32::MAX as int) is Some
        &&& number_field(j, "progress"@) is Some
        &&& int_field(j, "queue"@, i32::MIN as int, i32::MAX as int) is Some
        &&& number_field(j, "ratio"@) is Some
        &&& number_field(j, "seeds_peers_ratio"@) is Some
        &&& string_field(j, "state"@) is Some
        &&& int_field(j, "time_added"@, 0, u64::MAX as int) is Some
        &&& int_field(j, "time_since_transfer"@, 0, u64::MAX as int) is Some
        &&& int_field(j, "total_done"@, 0, u64::MAX as int) is Some
        &&& int_field(j, "total_peers"@, 0, u32::MAX as int) is Some
        &&& int_field(j, "total_remaining"@, 0, u64::MAX as int) is Some
        &&& int_field(j, "total_seeds"@, 0, u32::MAX as int) is Some
        &&& int_field(j, "total_uploaded"@, 0, u64::MAX as int) is Some
        &&& int_field(j, "total_wanted"@, 0, u64::MAX as int) is Some
        &&& string_field(j, "tracker_host"@) is Some
        &&& number_field(j, "upload_payload_rate"@) is Some
    }

    open spec fn wire_denotes(j: Json, v: Torrent) -> bool {
        &&& int_field(j, "completed_time"@, 0, u64::MAX as int) == Some(v.completed_time as int)
        &&& number_field(j, "distributed_copies"@) == Some(v.distributed_copies)
        &&& string_field(j, "download_location"@) == Some(v.download_location)
        &&& number_field(j, "download_payload_rate"@) == Some(v.download_payload_rate)
        &&& number_field(j, "eta"@) == Some(v.eta)
        &&& bool_field(j, "is_auto_managed"@) == Some(v.is_auto_managed)
        &&& string_field(j, "label"@) == Some(v.label)
        &&& int_field(j, "last_seen_complete"@, 0, u64::MAX as int) == Some(v.last_seen_complete as int)
        &&& int_field(j, "max_download_speed"@, i64::MIN as int, i64::MAX as int) == Some(v.max_download_speed as int)
        &&& int_field(j, "max_upload_speed"@, i64::MIN as int, i64::MAX as int) == Some(v.max_upload_speed as int)
        &&& string_field(j, "name"@) == Some(v.name)
        &&& int_field(j, "num_peers"@, 0, u32::MAX as int) == Some(v.num_peers as int)
        &&& int_field(j, "num_seeds"@, 0, u32::MAX as int) == Some(v.num_seeds as int)
        &&& number_field(j, "progress"@) == Some(v.progress)
        &&& int_field(j, "queue"@, i32::MIN as int, i32::MAX as int) == Some(v.queue as int)
        &&& number_field(j, "ratio"@) == Some(v.ratio)
        &&& number_field(j, "seeds_peers_ratio"@) == Some(v.seeds_peers_ratio)
        &&& string_field(j, "state"@) == Some(v.state)
        &&& int_field(j, "time_added"@, 0, u64::MAX as int) == Some(v.time_added as int)
        &&& int_field(j, "time_since_transfer"@, 0, u64::MAX as int) == Some(v.time_since_transfer as int)
        &&& int_field(j, "total_done"@, 0, u64::MAX as int) == Some(v.total_done as int)
        &&& int_field(j, "total_peers"@, 0, u32::MAX as int) == Some(v.total_peers as int)
        &&& int_field(j, "total_remaining"@, 0, u64::MAX as int) == Some(v.total_remaining as int)
        &&& int_field(j, "total_seeds"@, 0, u32::MAX as int) == Some(v.total_seeds as int)
        &&& int_field(j, "total_uploaded"@, 0, u64::MAX as int) == Some(v.total_uploaded as int)
        &&& int_field(j, "total_wanted"@, 0, u64::MAX as int) == Some(v.total_wanted as int)
        &&& string_field(j, "tracker_host"@) == Some(v.tracker_host)
        &&& number_field(j, "upload_payload_rate"@) == Some(v.upload_payload_rate)
    }

    /// Decodes an object with these members; other members are ignored.
    fn from_json(j: &Json) -> (r: Result<Torrent, String>) {
        let completed_time = get_u64_field(j, "completed_time")?;
        let distributed_copies = get_number_field(j, "distributed_copies")?;
        let download_location = get_string_field(j, "download_location")?;
        let download_payload_rate = get_number_field(j, "download_payload_rate")?;
        let eta = get_number_field(j, "eta")?;
        let is_auto_managed = get_bool_field(j, "is_auto_managed")?;
        let label = get_string_field(j, "label")?;
        let last_seen_complete = get_u64_field(j, "last_seen_complete")?;
        let max_download_speed = get_i64_field(j, "max_download_speed")?;
        let max_upload_speed = get_i64_field(j, "max_upload_speed")?;
        let name = get_string_field(j, "name")?;
        let num_peers = get_u32_field(j, "num_peers")?;
        let num_seeds = get_u32_field(j, "num_seeds")?;
        let progress = get_number_field(j, "progress")?;
        let queue = get_i32_field(j, "queue")?;
        let ratio = get_number_field(j, "ratio")?;
        let seeds_peers_ratio = get_number_field(j, "seeds_peers_ratio")?;
        let state = get_string_field(j, "state")?;
        let time_added = get_u64_field(j, "time_added")?;
        let time_since_transfer = get_u64_field(j, "time_since_transfer")?;
        let total_done = get_u64_field(j, "total_done")?;
        let total_peers = get_u32_field(j, "total_peers")?;
        let total_remaining = get_u64_field(j, "total_remaining")?;
        let total_seeds = get_u32_field(j, "total_seeds")?;
        let total_uploaded = get_u64_field(j, "total_uploaded")?;
        let total_wanted = get_u64_field(j, "total_wanted")?;
        let tracker_host = get_string_field(j, "tracker_host")?;
        let upload_payload_rate = get_number_field(j, "upload_payload_rate")?;
        Ok(Torrent {
            completed_time,
            distributed_copies,
            download_location,
            download_payload_rate,
            eta,
            is_auto_managed,
            label,
            last_seen_complete,
            max_download_speed,
            max_upload_speed,
            name,
            num_peers,
            num_seeds,
            progress,
            queue,
            ratio,
            seeds_peers_ratio,
            state,
            time_added,
            time_since_transfer,
            total_done,
            total_peers,
            total_remaining,
            total_seeds,
            total_uploaded,
            total_wanted,
            tracker_host,
            upload_payload_rate,
        })
    }
}

} // verus!
