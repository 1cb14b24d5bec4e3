use torrentfind::bot::{button_action, command_for, is_button_action, search_page, turned_page, ButtonAction, Command, Config};
use torrentfind::downloads::{
    choose_download, find_category, download_dir, download_note, pick_torrent, split_after, DownloadChoice,
};
use torrentfind::pages::{
    download_reply, empty_page, list_lowered, list_reply, newpage, no_results_reply, results_page, search_reply,
    PageView, TorrentStatus,
};
use torrentfind::models::{Results, Torrent};
use torrentfind::search::SearchError;

fn torrent(name: &str, size: &str) -> Torrent {
    Torrent::new(name.to_string(), "1".to_string(), "2".to_string(), size.to_string(), "t".to_string())
}

fn rows(v: &PageView) -> Vec<Vec<(String, String)>> {
    v.rows.iter().map(|r| r.iter().map(|b| (b.label.clone(), b.custom_id.clone())).collect()).collect()
}

fn pair(label: &str, id: &str) -> (String, String) {
    (label.to_string(), id.to_string())
}

#[test]
fn config_defaults() {
    let c = Config::default();
    assert_eq!(c.endpoint, "");
    assert_eq!(c.password, "");
    assert_eq!(c.token, "");
    assert_eq!(c.guildid, 0);
}

#[test]
fn commands_and_buttons() {
    assert_eq!(command_for("search"), Command::Search);
    assert_eq!(command_for("list"), Command::List);
    assert_eq!(command_for("check"), Command::Unknown);
    assert_eq!(button_action("f"), ButtonAction::Forward);
    assert_eq!(button_action("b"), ButtonAction::Back);
    assert_eq!(button_action("g"), ButtonAction::Get);
    assert!(is_button_action("f") && is_button_action("b") && is_button_action("g"));
    assert!(!is_button_action("x"));
    assert!(!is_button_action(""));
}

#[test]
fn turning_pages() {
    assert_eq!(turned_page(3, ButtonAction::Forward), Some(4));
    assert_eq!(turned_page(3, ButtonAction::Back), Some(2));
    assert_eq!(turned_page(3, ButtonAction::Get), None);
    assert_eq!(turned_page(i64::MAX, ButtonAction::Forward), None);
    assert_eq!(turned_page(i64::MIN, ButtonAction::Back), None);
    assert_eq!(search_page(7), 7);
    assert_eq!(search_page(-1), u32::MAX);
    assert_eq!(search_page(4294967297), 1);
}

#[test]
fn second_page_of_results() {
    let v = results_page("dune", 2, &vec![torrent("Dune", "2 GB"), torrent("Dune 2", "3 GB")]);
    assert_eq!(v.title, "Search Results");
    assert_eq!(v.description.as_deref(), Some("```\n6. Dune - 2 GB \n7. Dune 2 - 3 GB \n\n```"));
    assert_eq!(
        rows(&v),
        vec![
            vec![
                pair("<", r#"{"query": "dune", "page": 2, "action": "b"}"#),
                pair(">", r#"{"query": "dune", "page": 2, "action": "f"}"#),
            ],
            vec![
                pair("6", r#"{"action":"g", "query": "dune", "page": 2, "number": 1}"#),
                pair("7", r#"{"action":"g", "query": "dune", "page": 2, "number": 2}"#),
            ],
        ]
    );
}

#[test]
fn first_page_has_no_back_button() {
    let v = results_page("dune", 1, &vec![torrent("Dune", "2 GB")]);
    assert_eq!(v.description.as_deref(), Some("```\n1. Dune - 2 GB \n\n```"));
    assert_eq!(
        rows(&v),
        vec![
            vec![pair(">", r#"{"query": "dune", "page": 1, "action": "f"}"#)],
            vec![pair("1", r#"{"action":"g", "query": "dune", "page": 1, "number": 1}"#)],
        ]
    );
}

#[test]
fn empty_pages() {
    let v = empty_page("\"dune\"", 3);
    assert_eq!(v.title, "No results!");
    assert_eq!(v.description, None);
    assert_eq!(rows(&v), vec![vec![pair("<", r#"{"query": "dune", "page": 3, "action": "b"}"#)]]);
    let v = empty_page("\"dune\"", 1);
    assert_eq!(rows(&v), vec![Vec::<(String, String)>::new()]);
}

#[test]
fn newpage_outcomes() {
    let v = newpage("a \"b\"", 2, Err(SearchError::Timeout)).unwrap();
    assert_eq!(v.title, "No results!");
    assert_eq!(rows(&v), vec![vec![pair("<", r#"{"query": "a \"b\"", "page": 2, "action": "b"}"#)]]);
    let v = newpage("q", 2, Ok(Results::Results(vec![]))).unwrap();
    assert_eq!(v.title, "No results!");
    let v = newpage("q", 2, Ok(Results::Results(vec![torrent("x", "1 MB")]))).unwrap();
    assert_eq!(v.title, "Search Results");
    assert_eq!(v.description.as_deref(), Some("```\n6. x - 1 MB \n\n```"));
    assert!(newpage("q", 2, Ok(Results::NoResults)).is_none());
    let far = 1i64 << 62;
    let v = newpage("q", far, Err(SearchError::Timeout)).unwrap();
    assert_eq!(v.title, "No results!");
    assert_eq!(rows(&v), vec![vec![pair("<", &format!(r#"{{"query": "q", "page": {}, "action": "b"}}"#, far))]]);
    let v = newpage("q", i64::MIN, Ok(Results::Results(vec![]))).unwrap();
    assert_eq!(rows(&v).len(), 1);
    let v = newpage("q", 1, Ok(Results::Results(vec![]))).unwrap();
    assert_eq!(rows(&v), vec![Vec::<(String, String)>::new()]);
}

#[test]
fn search_command_replies() {
    let v = search_reply(None, Ok(Results::Results(vec![torrent("x", "1")])));
    assert_eq!(v.title, "Error! YOU SUCK!!");
    let v = search_reply(Some("q"), Err(SearchError::NoResults));
    assert_eq!(v.title, "No results!");
    assert!(v.rows.is_empty());
    let v = search_reply(Some("q"), Ok(Results::NoResults));
    assert_eq!(v.title, "Error! YOU SUCK!!");
    let v = search_reply(Some("q"), Ok(Results::Results(vec![torrent("x", "1 MB"), torrent("y", "2 MB")])));
    let page_one = results_page("q", 1, &vec![torrent("x", "1 MB"), torrent("y", "2 MB")]);
    assert_eq!(v.title, page_one.title);
    assert_eq!(v.description, page_one.description);
    assert_eq!(rows(&v), rows(&page_one));
}

#[test]
fn picking_torrents() {
    let ts = vec![torrent("a", "1"), torrent("b", "2")];
    assert_eq!(pick_torrent(&ts, 2), Some(torrent("b", "2")));
    assert_eq!(pick_torrent(&ts, 1), Some(torrent("a", "1")));
    assert_eq!(pick_torrent(&ts, 0), None);
    assert_eq!(pick_torrent(&ts, 3), None);
}

#[test]
fn categories() {
    assert_eq!(find_category("<li><strong>Category</strong> <span>Movies</span></li>"), Some("MV".to_string()));
    assert_eq!(find_category("<li><strong>Category</strong> <span>Anime</span></li>"), Some("TV".to_string()));
    assert_eq!(find_category("<li><strong>Category</strong> <span>Games</span></li>"), Some("Games".to_string()));
    assert_eq!(find_category("<li>nothing</li>"), None);
    assert_eq!(split_after("a<span>b<span>c", "<span>"), Some("b<span>c".to_string()));
    assert_eq!(split_after("abc", "<span>"), None);
    assert_eq!(download_dir("MV"), "/downloads/MV");
    assert_eq!(download_note("Dune"), "Downloading `Dune`");
}

fn status(name: &str, state: &str, progress: &str) -> TorrentStatus {
    TorrentStatus { name: name.to_string(), state: state.to_string(), progress: progress.to_string() }
}

#[test]
fn list_of_downloads() {
    let v = list_reply(&vec![
        status("a", "Downloading", "12.5"),
        status("b", "Seeding", "100.0"),
        status("c", "DOWNLOADING", "0.0"),
    ]);
    assert_eq!(v.title, "Currently downloading torrents:");
    assert_eq!(v.description.as_deref(), Some("```\na - 12.5%\n\nc - 0.0%\n\n\n```"));
    let v = list_reply(&vec![status("b", "Seeding", "100.0")]);
    assert_eq!(v.description.as_deref(), Some("```\nNot currently downloading anything!\n```"));
    let v = list_lowered(&vec![status("a", "Downloading", "1")], &vec!["Downloading".to_string()]);
    assert_eq!(v.description.as_deref(), Some("```\nNot currently downloading anything!\n```"));
}

#[test]
fn download_choices() {
    let ts = vec![torrent("a", "1"), torrent("b", "2")];
    assert!(matches!(choose_download(Ok(Results::Results(ts.clone())), 2), DownloadChoice::Picked(t) if t == torrent("b", "2")));
    assert!(matches!(choose_download(Ok(Results::Results(ts.clone())), 3), DownloadChoice::NoSuchNumber));
    assert!(matches!(choose_download(Ok(Results::Results(ts)), 0), DownloadChoice::NoSuchNumber));
    assert!(matches!(choose_download(Ok(Results::Results(vec![])), 1), DownloadChoice::NothingFound));
    assert!(matches!(choose_download(Err(SearchError::Timeout), 1), DownloadChoice::NothingFound));
    assert!(matches!(choose_download(Ok(Results::NoResults), 1), DownloadChoice::Skip));
}

#[test]
fn download_messages() {
    let v = download_reply("Dune");
    assert_eq!(v.title, "Success!");
    assert_eq!(v.description.as_deref(), Some("Downloading `Dune`"));
    let v = no_results_reply();
    assert_eq!(v.title, "No results!");
    assert_eq!(v.description, None);
    assert!(v.rows.is_empty());
}

#[test]
fn back_undoes_forward() {
    for p in [-3i64, 0, 1, 2, 1000] {
        let next = turned_page(p, ButtonAction::Forward).unwrap();
        assert_eq!(turned_page(next, ButtonAction::Back), Some(p));
        let before = turned_page(p, ButtonAction::Back).unwrap();
        assert_eq!(turned_page(before, ButtonAction::Forward), Some(p));
    }
}

#[test]
fn truncating_twice() {
    let ts: Vec<Torrent> = (0..6).map(|i| torrent(&i.to_string(), "1")).collect();
    let mut once = Results::Results(ts.clone());
    once.truncate(2).unwrap();
    let mut twice = Results::Results(ts);
    twice.truncate(4).unwrap();
    twice.truncate(2).unwrap();
    assert_eq!(once, twice);
}
