use deluge_api::add_torrents::{Options, TorrentPath};
use deluge_api::get_torrents::FilterOptions;
use deluge_api::json::{Json, JsonNumber};
use deluge_api::options::DelugeClientOptions;
use deluge_api::request::{
    add_torrents_request, envelope, get_host_status_request, get_hosts_request,
    get_torrent_status_request, login_request, update_ui_request,
};

fn s(v: &str) -> Json {
    Json::String(v.to_owned())
}

fn members(j: &Json) -> &Vec<(String, Json)> {
    match j {
        Json::Object(m) => m,
        other => panic!("expected an object, got {other:?}"),
    }
}

fn params(j: &Json) -> &Vec<Json> {
    let m = members(j);
    assert_eq!(m.len(), 3);
    assert_eq!(m[0].0, "method");
    assert_eq!(m[1].0, "params");
    assert_eq!(m[2].0, "id");
    match &m[1].1 {
        Json::Array(p) => p,
        other => panic!("expected params, got {other:?}"),
    }
}

fn method(j: &Json) -> &Json {
    &members(j)[0].1
}

#[test]
fn unset_filters_are_omitted() {
    let j = FilterOptions::default().to_json();
    assert_eq!(j, Json::Object(vec![]));
}

#[test]
fn set_filter_is_the_only_member() {
    let filters = FilterOptions { label: Some(vec!["linux".to_owned()]), ..FilterOptions::default() };
    let j = filters.to_json();
    assert_eq!(j, Json::Object(vec![("label".to_owned(), Json::Array(vec![s("linux")]))]));
}

#[test]
fn filters_keep_field_order() {
    let filters = FilterOptions {
        state: Some(vec!["Seeding".to_owned(), "Paused".to_owned()]),
        name: Some(vec![]),
        ..FilterOptions::default()
    };
    let j = filters.to_json();
    let m = members(&j);
    let keys: Vec<&str> = m.iter().map(|(k, _)| k.as_str()).collect();
    assert_eq!(keys, vec!["state", "name"]);
    assert_eq!(m[0].1, Json::Array(vec![s("Seeding"), s("Paused")]));
    assert_eq!(m[1].1, Json::Array(vec![]));
}

#[test]
fn unset_add_options_are_omitted() {
    assert_eq!(Options::default().to_json(), Json::Object(vec![]));
}

#[test]
fn add_options_encode_only_what_is_set() {
    let options = Options {
        download_location: Some("/srv/shared/tests".to_owned()),
        file_priorities: Some(vec![1, 0, -1]),
        max_download_speed: Some(JsonNumber::Float("1.5".to_owned())),
        max_connections: Some(20),
        skip_hash_check: Some(true),
        ..Options::default()
    };
    let j = options.to_json();
    let m = members(&j);
    let keys: Vec<&str> = m.iter().map(|(k, _)| k.as_str()).collect();
    assert_eq!(
        keys,
        vec!["download_location", "file_priorities", "max_download_speed", "max_connections", "skip_hash_check"]
    );
    assert_eq!(m[0].1, s("/srv/shared/tests"));
    assert_eq!(
        m[1].1,
        Json::Array(vec![
            Json::Number(JsonNumber::Unsigned(1)),
            Json::Number(JsonNumber::Unsigned(0)),
            Json::Number(JsonNumber::Signed(-1)),
        ])
    );
    assert_eq!(m[2].1, Json::Number(JsonNumber::Float("1.5".to_owned())));
    assert_eq!(m[3].1, Json::Number(JsonNumber::Unsigned(20)));
    assert_eq!(m[4].1, Json::Bool(true));
}

#[test]
fn envelope_has_method_params_and_id() {
    let j = envelope("web.get_hosts", vec![], 42);
    assert_eq!(
        j,
        Json::Object(vec![
            ("method".to_owned(), s("web.get_hosts")),
            ("params".to_owned(), Json::Array(vec![])),
            ("id".to_owned(), Json::Number(JsonNumber::Unsigned(42))),
        ])
    );
}

#[test]
fn login_request_sends_password() {
    let j = login_request("SECRET-REDACTED");
    assert_eq!(*method(&j), s("auth.login"));
    assert_eq!(*params(&j), vec![s("SECRET-REDACTED")]);
    match &members(&j)[2].1 {
        Json::Number(JsonNumber::Unsigned(id)) => assert!(*id <= u32::MAX as u64),
        other => panic!("unexpected id {other:?}"),
    }
}

#[test]
fn other_requests_name_their_methods() {
    let j = get_hosts_request();
    assert_eq!(*method(&j), s("web.get_hosts"));
    assert!(params(&j).is_empty());
    let j = get_host_status_request("abc123");
    assert_eq!(*method(&j), s("web.get_host_status"));
    assert_eq!(*params(&j), vec![s("abc123")]);
    let j = get_torrent_status_request("deadbeef");
    assert_eq!(*method(&j), s("web.get_torrent_status"));
    assert_eq!(*params(&j), vec![s("deadbeef"), Json::Array(vec![])]);
}

#[test]
fn update_ui_request_carries_filters() {
    let filters = FilterOptions { label: Some(vec!["linux".to_owned()]), ..FilterOptions::default() };
    let j = update_ui_request(&filters);
    assert_eq!(*method(&j), s("web.update_ui"));
    assert_eq!(*params(&j), vec![Json::Array(vec![]), filters.to_json()]);
}

#[test]
fn add_torrents_request_lists_paths() {
    let torrent = TorrentPath {
        path: "/srv/shared/tests/example-1.torrent".to_owned(),
        options: Options {
            download_location: Some("/srv/shared/tests".to_owned()),
            skip_hash_check: Some(true),
            ..Options::default()
        },
    };
    let j = add_torrents_request(&vec![torrent.clone()]);
    assert_eq!(*method(&j), s("web.add_torrents"));
    let p = params(&j);
    assert_eq!(p.len(), 1);
    assert_eq!(
        p[0],
        Json::Array(vec![Json::Object(vec![
            ("path".to_owned(), s("/srv/shared/tests/example-1.torrent")),
            ("options".to_owned(), torrent.options.to_json()),
        ])])
    );
}

#[test]
fn api_url_wraps_host() {
    let options = DelugeClientOptions { host: "example.com:3000".to_owned(), ..DelugeClientOptions::default() };
    assert_eq!(options.api_url(), "http://example.com:3000/json");
}
