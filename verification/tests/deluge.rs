use torrentfind::deluge::{Deluge, HostScan, ScanStep, ID_LIMIT};

#[test]
fn endpoint_gets_a_slash() {
    let d = Deluge::new("http://localhost:8112".to_string());
    assert_eq!(d.get_hosts().url, "http://localhost:8112/json");
    let d = Deluge::new("http://localhost:8112/".to_string());
    assert_eq!(d.get_hosts().url, "http://localhost:8112/json");
    let d = Deluge::new(String::new());
    assert_eq!(d.get_hosts().url, "/json");
    assert_eq!(d.id(), 0);
}

#[test]
fn request_bodies() {
    let mut d = Deluge::new("http://h/".to_string());
    assert_eq!(d.login("secret").body, r#"{"method": "auth.login", "params": ["secret"], "id": 0}"#);
    d.advance_id();
    assert_eq!(d.get_hosts().body, r#"{"method": "web.get_hosts", "params": [], "id": 1}"#);
    d.advance_id();
    assert_eq!(d.get_host_status("abc").body, r#"{"method": "web.get_host_status", "params": ["abc"], "id": 2}"#);
    assert_eq!(d.connect_host("abc").body, r#"{"method": "web.connect", "params": ["abc"], "id": 2}"#);
    assert_eq!(
        d.add_magnet("magnet:?xt=1", "/downloads/MV").body,
        r#"{"method": "core.add_torrent_magnet", "params": ["magnet:?xt=1", {"move_completed_path": "/downloads/MV"}], "id": 2}"#
    );
    assert_eq!(d.get_torrents_status().body, r#"{"method": "core.get_torrents_status", "params": ["", ""], "id": 2}"#);
}

#[test]
fn ids_wrap_after_1023() {
    let mut d = Deluge::new("http://h/".to_string());
    for expected in 0..ID_LIMIT {
        assert_eq!(d.id(), expected);
        d.advance_id();
    }
    assert_eq!(d.id(), 0);
    d.advance_id();
    assert_eq!(d.id(), 1);
    assert!(d.login("p").body.ends_with("\"id\": 1}"));
}

#[test]
fn scan_connects_to_the_first_connected_host() {
    let hosts = vec!["a".to_string(), "b".to_string(), "c".to_string()];
    let (mut scan, step) = Deluge::connect_to_first_available_host(hosts);
    assert!(matches!(step, ScanStep::AskStatus(ref h) if h == "a"));
    let step = scan.on_status("Offline");
    assert!(matches!(step, ScanStep::AskStatus(ref h) if h == "b"));
    let step = scan.on_status("CONNECTED");
    assert!(matches!(step, ScanStep::Connect(ref h) if h == "b"));
}

#[test]
fn scan_finishes_without_a_connected_host() {
    let (mut scan, step) = HostScan::start(vec!["a".to_string()]);
    assert!(matches!(step, ScanStep::AskStatus(ref h) if h == "a"));
    assert!(matches!(scan.on_status("Online"), ScanStep::Finished));
    let (_, step) = HostScan::start(vec![]);
    assert!(matches!(step, ScanStep::Finished));
}

#[test]
fn scan_on_lowered_statuses() {
    let (mut scan, _) = HostScan::start(vec!["a".to_string(), "b".to_string()]);
    assert!(matches!(scan.on_lowered_status("Connected"), ScanStep::AskStatus(ref h) if h == "b"));
    assert!(matches!(scan.on_lowered_status("connected"), ScanStep::Connect(ref h) if h == "b"));
}
