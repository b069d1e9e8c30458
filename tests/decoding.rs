use deluge_api::add_torrents::Torrent as AddedTorrent;
use deluge_api::codec::FromJson;
use deluge_api::error::Error;
use deluge_api::get_host_status::{Host as HostStatus, Status};
use deluge_api::get_hosts::Host;
use deluge_api::get_interface::Interface;
use deluge_api::get_torrent_status::Torrent as TorrentFull;
use deluge_api::get_torrents::torrents_response;
use deluge_api::json::{Json, JsonNumber};
use deluge_api::response::{deserialize_response, Response};

fn s(v: &str) -> Json {
    Json::String(v.to_owned())
}

fn decode<T: FromJson>(method: &str, body: &str) -> Result<Response<T>, Error> {
    deserialize_response::<T>(method, Some(200), Ok(body.to_owned()))
}

#[test]
fn host_status_decodes_positional_array() {
    let j = Json::Array(vec![s("abc123"), s("Online"), s("2.0.3")]);
    let host = HostStatus::from_json(&j).unwrap();
    assert_eq!(
        host,
        HostStatus { id: "abc123".to_owned(), status: Status::Online, version: "2.0.3".to_owned() }
    );
}

#[test]
fn host_status_keeps_unknown_status() {
    let j = Json::Array(vec![s("abc123"), s("Weird"), s("2.0.3")]);
    let host = HostStatus::from_json(&j).unwrap();
    assert_eq!(host.status, Status::Other("Weird".to_owned()));
    assert_eq!(host.id, "abc123");
    assert_eq!(host.version, "2.0.3");
}

#[test]
fn host_status_connected() {
    let j = Json::Array(vec![s("h"), s("Connected"), s("2.1.1")]);
    assert_eq!(HostStatus::from_json(&j).unwrap().status, Status::Connected);
}

#[test]
fn host_status_rejects_two_elements() {
    let j = Json::Array(vec![s("abc123"), s("Online")]);
    assert!(HostStatus::from_json(&j).is_err());
}

#[test]
fn host_status_rejects_four_elements() {
    let j = Json::Array(vec![s("abc123"), s("Online"), s("2.0.3"), s("extra")]);
    assert!(HostStatus::from_json(&j).is_err());
}

#[test]
fn host_status_rejects_non_string_element() {
    let j = Json::Array(vec![s("abc123"), Json::Bool(true), s("2.0.3")]);
    assert!(HostStatus::from_json(&j).is_err());
}

#[test]
fn host_status_response_from_text() {
    let body = r#"{"result": ["abc123", "Online", "2.0.3"], "error": null, "id": 4}"#;
    let response = decode::<HostStatus>("web.get_host_status", body).unwrap();
    assert_eq!(response.status_code, Some(200));
    assert_eq!(response.id, Some(4));
    assert!(response.error.is_none());
    let host = response.result.unwrap();
    assert_eq!(host.id, "abc123");
    assert_eq!(host.status, Status::Online);
}

#[test]
fn host_status_response_with_four_elements_is_deserialize_error() {
    let body = r#"{"result": ["abc123", "Online", "2.0.3", "x"], "error": null, "id": 4}"#;
    let err = deserialize_response::<HostStatus>("web.get_host_status", Some(200), Ok(body.to_owned()))
        .unwrap_err();
    match err {
        Error::Deserialize { action, method, status_code, .. } => {
            assert_eq!(method, "web.get_host_status");
            assert_eq!(status_code, Some(200));
            assert_eq!(action, "deserialize response of Deluge API web.get_host_status request");
        }
        other => panic!("unexpected {other:?}"),
    }
}

#[test]
fn status_tags_round_trip() {
    assert_eq!(Status::Online.to_tag(), "Online");
    assert_eq!(Status::Connected.to_tag(), "Connected");
    assert_eq!(Status::Other("Weird".to_owned()).to_tag(), "Weird");
    assert_eq!(Status::from_tag("Online".to_owned()), Status::Online);
    assert_eq!(Status::from_tag("".to_owned()), Status::Other(String::new()));
}

#[test]
fn add_torrents_result_keeps_order() {
    let body = r#"{"result": [[true, "deadbeef"], [false, "feedface"]], "error": null, "id": 9}"#;
    let response = decode::<Vec<AddedTorrent>>("web.add_torrents", body).unwrap();
    let result = response.result.unwrap();
    assert_eq!(result.len(), 2);
    assert_eq!(result[0], AddedTorrent { added: true, hash: "deadbeef".to_owned() });
    assert_eq!(result[1], AddedTorrent { added: false, hash: "feedface".to_owned() });
}

#[test]
fn add_torrents_pair_rejects_wrong_types() {
    let j = Json::Array(vec![s("true"), s("deadbeef")]);
    assert!(AddedTorrent::from_json(&j).is_err());
    let j = Json::Array(vec![Json::Bool(true), Json::Bool(false)]);
    assert!(AddedTorrent::from_json(&j).is_err());
    let j = Json::Array(vec![Json::Bool(true)]);
    assert!(AddedTorrent::from_json(&j).is_err());
}

#[test]
fn login_response_true() {
    let body = r#"{"result": true, "error": null, "id": 1}"#;
    let response = decode::<bool>("auth.login", body).unwrap();
    assert_eq!(response.result, Some(true));
    assert!(response.error.is_none());
    assert_eq!(response.get_result("login").unwrap(), true);
}

#[test]
fn malformed_body_is_deserialize_error_with_status() {
    let err = deserialize_response::<bool>("auth.login", Some(502), Ok("<html>Bad Gateway</html>".to_owned()))
        .unwrap_err();
    match err {
        Error::Deserialize { method, status_code, message, .. } => {
            assert_eq!(method, "auth.login");
            assert_eq!(status_code, Some(502));
            assert!(!message.is_empty());
        }
        other => panic!("unexpected {other:?}"),
    }
}

#[test]
fn wrong_result_type_is_deserialize_error() {
    let err = deserialize_response::<bool>("auth.login", Some(200), Ok(r#"{"result": "yes"}"#.to_owned()))
        .unwrap_err();
    assert!(matches!(err, Error::Deserialize { status_code: Some(200), .. }));
}

#[test]
fn top_level_array_is_deserialize_error() {
    let err = deserialize_response::<bool>("auth.login", None, Ok("[true]".to_owned())).unwrap_err();
    assert!(matches!(err, Error::Deserialize { status_code: None, .. }));
}

#[test]
fn negative_id_is_deserialize_error() {
    let err = deserialize_response::<bool>("auth.login", Some(200), Ok(r#"{"result": true, "id": -1}"#.to_owned()))
        .unwrap_err();
    assert!(matches!(err, Error::Deserialize { .. }));
}

#[test]
fn unreadable_body_is_body_read_error() {
    let err = deserialize_response::<bool>("auth.login", Some(200), Err("connection reset".to_owned()))
        .unwrap_err();
    assert_eq!(
        err,
        Error::BodyRead {
            action: "get response body of auth.login request".to_owned(),
            message: "connection reset".to_owned(),
            status_code: Some(200),
        }
    );
}

#[test]
fn remote_error_is_kept() {
    let body = r#"{"result": null, "error": {"message": "Not authenticated", "code": 1}, "id": 2}"#;
    let response = decode::<Vec<Host>>("web.get_hosts", body).unwrap();
    assert!(response.result.is_none());
    let error = response.error.as_ref().unwrap();
    match error {
        Json::Object(members) => {
            assert_eq!(members.len(), 2);
            assert!(members.iter().any(|(k, v)| k == "message" && *v == s("Not authenticated")));
        }
        other => panic!("unexpected {other:?}"),
    }
    let err = response.get_result("get_hosts").unwrap_err();
    assert!(matches!(err, Error::Remote { ref action, .. } if action == "get_hosts"));
}

#[test]
fn missing_result_and_error() {
    let response = decode::<bool>("auth.login", r#"{"id": 3}"#).unwrap();
    assert!(response.result.is_none());
    assert!(response.error.is_none());
    assert_eq!(response.id, Some(3));
    let err = response.get_result("login").unwrap_err();
    assert_eq!(err, Error::MissingResult { action: "login".to_owned() });
}

#[test]
fn hosts_decode_named_objects() {
    let body = r#"{"result": [{"id": "abc123", "host": "127.0.0.1", "port": 58846, "user": "localclient"}], "error": null, "id": 5}"#;
    let response = decode::<Vec<Host>>("web.get_hosts", body).unwrap();
    let hosts = response.result.unwrap();
    assert_eq!(
        hosts,
        vec![Host {
            id: "abc123".to_owned(),
            host: "127.0.0.1".to_owned(),
            port: 58846,
            user: "localclient".to_owned(),
        }]
    );
}

#[test]
fn host_port_out_of_range_is_rejected() {
    let body = r#"{"result": [{"id": "a", "host": "h", "port": 70000, "user": "u"}]}"#;
    assert!(decode::<Vec<Host>>("web.get_hosts", body).is_err());
}

const INTERFACE_WITHOUT_TORRENTS: &str = r#"{"result": {
    "connected": true,
    "filters": {"label": [["linux", 2], ["linux", 2], ["bsd", 1]], "owner": [], "state": [["All", 3]], "tracker_host": []},
    "stats": {"dht_nodes": 12, "download_protocol_rate": 0.5, "download_rate": 100, "external_ip": "1.2.3.4",
              "free_space": 1000, "has_incoming_connections": 1, "max_download": -1.0, "max_num_connections": -1,
              "max_upload": -1, "num_connections": 4, "upload_protocol_rate": 0.0, "upload_rate": 2.25},
    "torrents": null
  }, "error": null, "id": 6}"#;

#[test]
fn interface_decodes_counts_as_sets() {
    let response = decode::<Interface>("web.update_ui", INTERFACE_WITHOUT_TORRENTS).unwrap();
    let interface = response.result.unwrap();
    assert!(interface.connected);
    assert_eq!(interface.filters.label, vec![("linux".to_owned(), 2), ("bsd".to_owned(), 1)]);
    assert_eq!(interface.filters.state, vec![("All".to_owned(), 3)]);
    assert!(interface.filters.owner.is_empty());
    assert_eq!(interface.stats.dht_nodes, 12);
    assert_eq!(interface.stats.max_num_connections, -1);
    assert_eq!(interface.stats.download_rate, JsonNumber::Unsigned(100));
    assert_eq!(interface.stats.max_upload, JsonNumber::Signed(-1));
    assert_eq!(interface.stats.upload_rate, JsonNumber::Float("2.25".to_owned()));
    assert_eq!(interface.stats.external_ip, "1.2.3.4");
    assert!(interface.torrents.is_none());
}

#[test]
fn torrents_null_gives_empty_listing() {
    let response = decode::<Interface>("web.update_ui", INTERFACE_WITHOUT_TORRENTS).unwrap();
    let listing = torrents_response(response);
    assert_eq!(listing.status_code, Some(200));
    assert_eq!(listing.id, Some(6));
    assert_eq!(listing.result.unwrap().len(), 0);
}

#[test]
fn torrents_absent_gives_empty_listing() {
    let body = INTERFACE_WITHOUT_TORRENTS.replace(",\n    \"torrents\": null", "");
    assert!(!body.contains("torrents"));
    let response = decode::<Interface>("web.update_ui", &body).unwrap();
    assert!(response.result.as_ref().unwrap().torrents.is_none());
    let listing = torrents_response(response);
    assert!(listing.result.unwrap().is_empty());
}

#[test]
fn torrents_listing_keeps_hashes() {
    let body = INTERFACE_WITHOUT_TORRENTS.replace(
        "\"torrents\": null",
        r#""torrents": {"aa11": {"label": "linux", "name": "debian.iso", "progress": 100.0, "save_path": "/srv", "state": "Seeding", "total_remaining": 0}}"#,
    );
    let response = decode::<Interface>("web.update_ui", &body).unwrap();
    let listing = torrents_response(response).result.unwrap();
    assert_eq!(listing.len(), 1);
    assert_eq!(listing[0].0, "aa11");
    assert_eq!(listing[0].1.name, "debian.iso");
    assert_eq!(listing[0].1.progress, JsonNumber::Float("100.0".to_owned()));
    assert_eq!(listing[0].1.state, "Seeding");
}

#[test]
fn listing_without_result_stays_without_result() {
    let response: Response<Interface> =
        Response { status_code: Some(500), result: None, error: Some(Json::Null), id: None };
    let listing = torrents_response(response);
    assert!(listing.result.is_none());
    assert_eq!(listing.error, Some(Json::Null));
    assert_eq!(listing.status_code, Some(500));
}

#[test]
fn torrent_full_status_decodes() {
    let body = r#"{"result": {"completed_time": 1700000000, "distributed_copies": 0.0, "download_location": "/srv",
        "download_payload_rate": 0, "eta": 0, "is_auto_managed": true, "label": "linux", "last_seen_complete": 0,
        "max_download_speed": -1, "max_upload_speed": -1, "name": "debian.iso", "num_peers": 0, "num_seeds": 0,
        "progress": 100.0, "queue": -1, "ratio": 1.5, "seeds_peers_ratio": 0.25, "state": "Seeding",
        "time_added": 1690000000, "time_since_transfer": 5, "total_done": 10, "total_peers": 3,
        "total_remaining": 0, "total_seeds": 7, "total_uploaded": 15, "total_wanted": 10,
        "tracker_host": "debian.org", "upload_payload_rate": 0}, "error": null, "id": 8}"#;
    let torrent = decode::<TorrentFull>("web.get_torrent_status", body).unwrap().result.unwrap();
    assert_eq!(torrent.queue, -1);
    assert_eq!(torrent.max_download_speed, -1);
    assert_eq!(torrent.total_seeds, 7);
    assert_eq!(torrent.ratio, JsonNumber::Float("1.5".to_owned()));
    assert!(torrent.is_auto_managed);
    assert_eq!(torrent.tracker_host, "debian.org");
}

#[test]
fn torrent_full_status_missing_field_is_rejected() {
    let body = r#"{"result": {"name": "debian.iso"}, "error": null, "id": 8}"#;
    assert!(decode::<TorrentFull>("web.get_torrent_status", body).is_err());
}

#[test]
fn transport_error_names_the_request() {
    let err = deluge_api::error::transport_error("auth.login", "connection refused".to_owned());
    assert_eq!(
        err,
        Error::Transport {
            action: "send auth.login request".to_owned(),
            message: "connection refused".to_owned(),
        }
    );
}
