use torrentfind::models::{Magnet, Results, Torrent, TorrentHtml};

fn testtorrent() -> Torrent {
    Torrent::new("hoi".to_string(), "hoi".to_string(), "hoi".to_string(), "hoi".to_string(), "hoi".to_string())
}

#[test]
fn testfromvec() {
    let vec = vec![testtorrent(), testtorrent()];
    if let Results::Results(results) = vec.clone().into() {
        assert_eq!(results, vec);
    } else {
        panic!("No results");
    }
}

fn torrent(name: &str, seeds: &str, leeches: &str, size: &str, time: &str) -> Torrent {
    Torrent::new(name.to_string(), seeds.to_string(), leeches.to_string(), size.to_string(), time.to_string())
}

fn column(items: &[&str]) -> Vec<String> {
    items.iter().map(|s| s.to_string()).collect()
}

#[test]
fn truncate_keeps_the_first_results() {
    let mut r = Results::Results(vec![
        torrent("a", "1", "2", "3 MB", "now"),
        torrent("b", "1", "2", "3 MB", "now"),
        torrent("c", "1", "2", "3 MB", "now"),
    ]);
    assert!(r.truncate(2).is_ok());
    assert_eq!(r, Results::Results(vec![torrent("a", "1", "2", "3 MB", "now"), torrent("b", "1", "2", "3 MB", "now")]));
    assert!(r.truncate(5).is_ok());
    assert_eq!(r, Results::Results(vec![torrent("a", "1", "2", "3 MB", "now"), torrent("b", "1", "2", "3 MB", "now")]));
    assert!(r.truncate(0).is_ok());
    assert_eq!(r, Results::Results(vec![]));
}

#[test]
fn truncate_refuses_no_results() {
    let mut r = Results::NoResults;
    match r.truncate(3) {
        Err(torrentfind::search::SearchError::WrongVariant) => {}
        other => panic!("expected WrongVariant, got {:?}", other),
    }
    assert_eq!(r, Results::NoResults);
}

#[test]
fn text_forms() {
    let t = torrent("name", "10", "20", "1 GB", "today");
    assert_eq!(t.to_string(), "name\t1 GB\t10\t20\ttoday");
    let r = Results::Results(vec![t.clone(), torrent("x", "1", "2", "3", "4")]);
    assert_eq!(r.to_string(), "name\t1 GB\t10\t20\ttoday\nx\t3\t1\t2\t4\n");
    assert_eq!(Results::NoResults.to_string(), "No Results");
    assert_eq!(Results::Results(vec![]).to_string(), "");
    assert_eq!(Magnet::new("magnet:?xt=1".to_string()).to_string(), "magnet:?xt=1");
}

#[test]
fn page_lines_between_header_and_last() {
    let page = TorrentHtml {
        names: column(&["name", "a", "b", "c"]),
        seeds: column(&["se", "1", "2", "3"]),
        leeches: column(&["le", "4", "5", "6"]),
        size: column(&["size", "7", "8", "9"]),
        time: column(&["time", "t1", "t2", "t3"]),
    };
    assert_eq!(
        Results::from_html(page),
        Results::Results(vec![torrent("a", "1", "4", "7", "t1"), torrent("b", "2", "5", "8", "t2")])
    );
}

#[test]
fn page_lines_follow_the_shortest_column() {
    let page = TorrentHtml {
        names: column(&["name", "a", "b", "c"]),
        seeds: column(&["se", "1", "2"]),
        leeches: column(&["le", "4", "5", "6"]),
        size: column(&["size", "7", "8", "9"]),
        time: column(&["time", "t1", "t2", "t3"]),
    };
    assert_eq!(Results::from_html(page), Results::Results(vec![torrent("a", "1", "4", "7", "t1")]));
}

#[test]
fn empty_and_tiny_pages() {
    let empty = TorrentHtml { names: vec![], seeds: column(&["1"]), leeches: column(&["1"]), size: column(&["1"]), time: column(&["1"]) };
    assert_eq!(Results::from_html(empty), Results::NoResults);
    let one = TorrentHtml {
        names: column(&["n"]),
        seeds: column(&["1"]),
        leeches: column(&["1"]),
        size: column(&["1"]),
        time: column(&["1"]),
    };
    assert_eq!(Results::from_html(one), Results::Results(vec![]));
}

#[test]
fn pretty_tables() {
    let shown = Results::Results(vec![torrent("Some.Movie", "12", "3", "1.2 GB", "Jan. 1st")]).pretty();
    assert!(shown.contains("Some.Movie"));
    assert!(shown.contains("1.2 GB"));
    assert!(shown.contains("Jan. 1st"));
    assert!(shown.contains("name"));
    assert!(shown.contains("\u{1b}["));
    let nothing = Results::NoResults.pretty();
    assert_eq!(nothing, "\u{1b}[38;5;1;1mNo results\u{1b}[0m");
}
