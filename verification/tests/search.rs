use torrentfind::models::{Results, Torrent, TorrentHtml};
use torrentfind::search::{
    find_id, find_magnet, getid, getmagnet, hyphenate, makeurl, query, querymagnet, torrent_page_url, MagnetLookup, MagnetStep, SearchError,
};

fn column(items: &[&str]) -> Vec<String> {
    items.iter().map(|s| s.to_string()).collect()
}

fn page(names: &[&str]) -> TorrentHtml {
    TorrentHtml {
        names: column(names),
        seeds: column(names),
        leeches: column(names),
        size: column(names),
        time: column(names),
    }
}

fn same_named(name: &str) -> Torrent {
    Torrent::new(name.to_string(), name.to_string(), name.to_string(), name.to_string(), name.to_string())
}

const SEARCH_PAGE: &str = r#"<table><tr><td class="name"><a href="/sub/1/0/" class="icon"></a><a href="/torrent/3036321/Elementary-S06E06-HDTV-x264-LOL-eztv/">Elementary</a></td></tr>
<tr><td class="name"><a href="/torrent/42/Other/">Other</a></td></tr></table>"#;

const TORRENT_PAGE: &str = r#"<ul><li><a href="magnet:?xt=urn:btih:ABCDEF&dn=Elementary">Magnet</a></li>
<li><strong>Category</strong> <span>Movies</span></li></ul>"#;

#[test]
fn search_addresses() {
    assert_eq!(makeurl("rick and morty", None), "https://1337x.to/search/rick and morty/1/");
    assert_eq!(makeurl("pirates", Some(3)), "https://1337x.to/search/pirates/3/");
    assert_eq!(makeurl("x", Some(4294967295)), "https://1337x.to/search/x/4294967295/");
    assert_eq!(torrent_page_url("394184", "Indiana-Jones"), "https://1337x.to/torrent/394184/Indiana-Jones/");
    assert_eq!(torrentfind::search::URL, "https://1337x.to/");
}

#[test]
fn names_are_hyphenated() {
    assert_eq!(hyphenate("rick and  morty"), "rick-and--morty");
    assert_eq!(hyphenate("no-spaces"), "no-spaces");
    assert_eq!(hyphenate(""), "");
}

#[test]
fn ids_and_links_from_pages() {
    assert_eq!(getid(SEARCH_PAGE), "3036321".to_string());
    assert_eq!(find_id(SEARCH_PAGE), Some("3036321".to_string()));
    assert_eq!(find_id("<html>nothing here</html>"), None);
    assert_eq!(getmagnet(TORRENT_PAGE), "magnet:?xt=urn:btih:ABCDEF&dn=Elementary".to_string());
    assert_eq!(find_magnet(TORRENT_PAGE), Some("magnet:?xt=urn:btih:ABCDEF&dn=Elementary".to_string()));
    assert_eq!(find_magnet(SEARCH_PAGE), None);
}

#[test]
fn query_truncates_results() {
    let found = query(page(&["head", "a", "b", "c", "d", "last"]), 2).unwrap();
    assert_eq!(found, Results::Results(vec![same_named("a"), same_named("b")]));
    let all = query(page(&["head", "a", "last"]), 10).unwrap();
    assert_eq!(all, Results::Results(vec![same_named("a")]));
}

#[test]
fn query_of_an_empty_page_fails() {
    match query(page(&[]), 5) {
        Err(SearchError::NoResults) => {}
        other => panic!("expected NoResults, got {:?}", other),
    }
}

#[test]
fn magnet_lookup_walks_two_pages() {
    let step = querymagnet("Elementary S06E06");
    let lookup = match step {
        MagnetStep::Fetch { lookup, url } => {
            assert_eq!(url, "https://1337x.to/search/Elementary S06E06/1/");
            lookup
        }
        _ => panic!("expected a fetch"),
    };
    let lookup = match lookup.on_page(Ok(SEARCH_PAGE.to_string())) {
        MagnetStep::Fetch { lookup, url } => {
            assert_eq!(url, "https://1337x.to/torrent/3036321/Elementary-S06E06/");
            lookup
        }
        _ => panic!("expected a second fetch"),
    };
    match lookup.on_page(Ok(TORRENT_PAGE.to_string())) {
        MagnetStep::Found(m) => assert_eq!(m.link, "magnet:?xt=urn:btih:ABCDEF&dn=Elementary"),
        _ => panic!("expected the magnet"),
    }
}

#[test]
fn magnet_lookup_stops() {
    let waiting = MagnetLookup::AwaitingSearch { name: "x".to_string() };
    assert!(matches!(waiting.on_page(Err(SearchError::Timeout)), MagnetStep::Failed(SearchError::Timeout)));
    let waiting = MagnetLookup::AwaitingSearch { name: "x".to_string() };
    assert!(matches!(waiting.step(Err(SearchError::Timeout)), MagnetStep::Failed(SearchError::Timeout)));
    let waiting = MagnetLookup::AwaitingSearch { name: "x".to_string() };
    assert!(!waiting.accepts(&Ok("no ids".to_string())));
    assert!(waiting.accepts(&Ok(SEARCH_PAGE.to_string())));
    assert!(matches!(waiting.step(Ok("no ids".to_string())), MagnetStep::Missing));
    let waiting = MagnetLookup::AwaitingTorrent { name: "x".to_string(), id: "1".to_string() };
    assert!(matches!(waiting.step(Ok("no links".to_string())), MagnetStep::Missing));
    let waiting = MagnetLookup::AwaitingTorrent { name: "x".to_string(), id: "1".to_string() };
    assert!(matches!(waiting.step(Ok(TORRENT_PAGE.to_string())), MagnetStep::Found(_)));
}

#[test]
fn error_messages() {
    assert_eq!(SearchError::Timeout.message(), "Couldn't query site after 5 tries");
    assert_eq!(SearchError::NoResults.message(), "No Results found");
    assert_eq!(SearchError::WrongVariant.message(), "Wrong variant");
    let bad_number = "ten".parse::<u32>().unwrap_err();
    assert_eq!(SearchError::ParseError(bad_number).message(), "Couldnt parse Integer");
    let bad_request = reqwest::Client::new().get("not an address").build().unwrap_err();
    let shown = SearchError::Internet(bad_request).message();
    assert!(shown.starts_with("Couldn't query site\n "));
    assert!(shown.len() > "Couldn't query site\n ".len());
}

fn search_page_listing(id: &str, name: &str) -> String {
    format!(
        "<table><tr><td class=\"name\"><a href=\"/sub/1/0/\" class=\"icon\"></a><a href=\"/torrent/{}/{}/\">{}</a></td></tr></table>",
        id, name, name
    )
}

#[test]
fn getid_test() {
    let elementary = "Elementary.S06E06.HDTV.x264-LOL[eztv]";
    assert_eq!(
        makeurl(elementary, None),
        "https://1337x.to/search/Elementary.S06E06.HDTV.x264-LOL[eztv]/1/"
    );
    assert_eq!("3036321", getid(&search_page_listing("3036321", "Elementary-S06E06-HDTV-x264-LOL-eztv")));
    let rick = "Rick-and-Morty-S04E01-1080p-WEBRip-x264-TBS-TGx";
    assert_eq!(makeurl(rick, None), format!("https://1337x.to/search/{}/1/", rick));
    assert_eq!("4112092", getid(&search_page_listing("4112092", rick)));
    let indiana = "Indiana-Jones-and-the-Kingdom-of-the-Crystal-Skull-2008-1080p-BrRip-x264-YIFY";
    assert_eq!(makeurl(indiana, None), format!("https://1337x.to/search/{}/1/", indiana));
    assert_eq!("394184", getid(&search_page_listing("394184", indiana)));
}

fn test_query(search: &str) {
    assert_eq!(makeurl(search, None), format!("https://1337x.to/search/{}/1/", search));
    let listed = page(&["name", search, "footer"]);
    match query(listed, 10) {
        Ok(_) => {}
        Err(SearchError::NoResults) => panic!("no results"),
        Err(SearchError::Timeout) => panic!("timeout"),
        Err(SearchError::Internet(_)) => panic!("couldn't query site"),
        Err(SearchError::ParseError(_)) => unreachable!(),
        Err(SearchError::WrongVariant) => unreachable!(),
    }
}

#[test]
fn querytest() {
    test_query("rick and morty");
    test_query("pirates of the");
}
