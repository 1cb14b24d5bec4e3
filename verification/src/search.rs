//! Searching the index: its addresses, what its pages hold, and the steps
//! that lead from a name to a magnet link.
use vstd::prelude::*;
use crate::models::{Magnet, Results, TorrentHtml, first_n, page_results};
use crate::text::{literal, push_char, u64_decimal, decimal};
use crate::trusted::{first_capture, magnet_link_from, quoted_magnet_pattern, regex_compiles, regex_group, reqwest_error_text};

verus! {

/// What can go wrong while searching.
#[derive(Debug)]
pub enum SearchError {
    /// The site could not be reached.
    Internet(reqwest::Error),
    /// The site could not be queried after five tries.
    Timeout,
    /// The search found nothing.
    NoResults,
    /// A number could not be read.
    ParseError(std::num::ParseIntError),
    /// `NoResults` where a list of torrents was expected.
    WrongVariant,
}

/// How an error that fails the site's request starts its message.
pub open spec fn internet_prefix() -> Seq<char> {
    "Couldn't query site\n "@
}

/// The message of each error that carries nothing from outside.
pub open spec fn fixed_message(e: SearchError) -> Seq<char> {
    match e {
        SearchError::Internet(_) => internet_prefix(),
        SearchError::Timeout => "Couldn't query site after 5 tries"@,
        SearchError::NoResults => "No Results found"@,
        SearchError::ParseError(_) => "Couldnt parse Integer"@,
        SearchError::WrongVariant => "Wrong variant"@,
    }
}

impl SearchError {
    /// The message the command line prints for the error: a fixed text for
    /// each kind, and for `Internet` that text followed by what the failed
    /// request reports.
    pub fn message(&self) -> (m: String)
        ensures
            self is Internet ==> m@.len() >= internet_prefix().len()
                && m@.take(internet_prefix().len() as int) == internet_prefix(),
            !(self is Internet) ==> m@ == fixed_message(*self),
    {
        match self {
            SearchError::Internet(e) => {
                let mut m = literal("Couldn't query site\n ");
                let detail = reqwest_error_text(e);
                m.append(detail.as_str());
                proof {
                    reveal_strlit("Couldn't query site\n ");
                    assert(m@.take(internet_prefix().len() as int) =~= internet_prefix());
                }
                m
            },
            SearchError::Timeout => {
                proof { reveal_strlit("Couldn't query site after 5 tries"); }
                literal("Couldn't query site after 5 tries")
            },
            SearchError::NoResults => {
                proof { reveal_strlit("No Results found"); }
                literal("No Results found")
            },
            SearchError::ParseError(_) => {
                proof { reveal_strlit("Couldnt parse Integer"); }
                literal("Couldnt parse Integer")
            },
            SearchError::WrongVariant => {
                proof { reveal_strlit("Wrong variant"); }
                literal("Wrong variant")
            },
        }
    }
}

/// The address of the index.
pub const URL: &'static str = "https://1337x.to/";

/// The address of the index, as text.
pub open spec fn index_url() -> Seq<char> {
    "https://1337x.to/"@
}

/// The address of page `page` (the first where none is given) of the
/// search for `query`.
pub open spec fn search_url(query: Seq<char>, page: Option<u32>) -> Seq<char> {
    let n: nat = match page {
        Some(p) => p as nat,
        None => 1,
    };
    index_url() + "search/"@ + query + "/"@ + decimal(n) + "/"@
}

/// The address of the page of the torrent with the given id and name.
pub open spec fn torrent_url(id: Seq<char>, name: Seq<char>) -> Seq<char> {
    index_url() + "torrent/"@ + id + "/"@ + name + "/"@
}

/// A name with each space turned into a hyphen.
pub open spec fn hyphenated(name: Seq<char>) -> Seq<char> {
    name.map_values(|c: char| if c == ' ' { '-' } else { c })
}

/// The pattern that finds the id of the first torrent on a search page.
pub open spec fn id_pattern() -> Seq<char> {
    "<a href=\"/torrent/(?P<id>[0-9]*?)/.*?\""@
}

/// The pattern that finds the magnet link on a torrent's page.
pub open spec fn magnet_pattern() -> Seq<char> {
    "(?P<link>magnet:\\?.*?)\""@
}

/// The magnet link on a torrent's page: the leftmost text that starts with
/// `magnet:?` and runs up to (not including) the next `"` on its line.
pub open spec fn magnet_link(page: Seq<char>) -> Option<Seq<char>> {
    magnet_link_from(page, 0)
}

/// What a pattern captures in its first group, where it compiles.
pub open spec fn first_group(pattern: Seq<char>, page: Seq<char>) -> Option<Seq<char>> {
    if regex_compiles(pattern) {
        regex_group(pattern, page, 1)
    } else {
        None
    }
}

/// The address of page `page` of the search for `query`
/// (`https://1337x.to/search/{query}/{page}/`, page 1 where none is given).
pub fn makeurl(query: &str, page: Option<u32>) -> (url: String)
    ensures
        url@ == search_url(query@, page),
{
    let n: u32 = match page {
        Some(p) => p,
        None => 1,
    };
    let mut url = URL.to_owned();
    url.append("search/");
    url.append(query);
    push_char(&mut url, '/');
    let digits = u64_decimal(n as u64);
    url.append(digits.as_str());
    push_char(&mut url, '/');
    proof {
        reveal_strlit("https://1337x.to/");
        reveal_strlit("search/");
        reveal_strlit("/");
        assert(url@ =~= search_url(query@, page));
    }
    url
}

/// The address of a torrent's page (`https://1337x.to/torrent/{id}/{name}/`).
pub fn torrent_page_url(id: &str, name: &str) -> (url: String)
    ensures
        url@ == torrent_url(id@, name@),
{
    let mut url = URL.to_owned();
    url.append("torrent/");
    url.append(id);
    push_char(&mut url, '/');
    url.append(name);
    push_char(&mut url, '/');
    proof {
        reveal_strlit("https://1337x.to/");
        reveal_strlit("torrent/");
        reveal_strlit("/");
        assert(url@ =~= torrent_url(id@, name@));
    }
    url
}

/// The name with each space turned into a hyphen, as the site writes it
/// in addresses.
pub fn hyphenate(name: &str) -> (s: String)
    ensures
        s@ == hyphenated(name@),
{
    let cs = crate::text::chars_of(name);
    let mut s = String::new();
    let mut i: usize = 0;
    while i < cs.len()
        invariant
            i <= cs.len(),
            cs@ == name@,
            s@ == hyphenated(name@).take(i as int),
        decreases cs.len() - i,
    {
        let c = cs[i];
        if c == ' ' {
            push_char(&mut s, '-');
        } else {
            push_char(&mut s, c);
        }
        i = i + 1;
        assert(hyphenated(name@).take(i as int) =~= hyphenated(name@).take(i - 1).push(hyphenated(name@)[i - 1]));
    }
    assert(hyphenated(name@).take(cs.len() as int) =~= hyphenated(name@));
    s
}

/// The id of the first torrent listed on a search page. The page must list
/// one (the search panics otherwise); `find_id` asks first.
pub fn getid(page: &str) -> (id: String)
    requires
        first_group(id_pattern(), page@) is Some,
    ensures
        first_group(id_pattern(), page@) == Some(id@),
{
    match find_id(page) {
        Some(id) => id,
        None => {
            proof { assert(false); }
            String::new()
        },
    }
}

/// The id of the first torrent listed on a search page, where it lists one.
pub fn find_id(page: &str) -> (id: Option<String>)
    ensures
        id matches Some(s) ==> first_group(id_pattern(), page@) == Some(s@),
        id is None ==> first_group(id_pattern(), page@) is None,
{
    let pattern = "<a href=\"/torrent/(?P<id>[0-9]*?)/.*?\"";
    proof { reveal_strlit("<a href=\"/torrent/(?P<id>[0-9]*?)/.*?\""); }
    match first_capture(pattern, page, 1) {
        Ok(found) => found,
        Err(_) => None,
    }
}

/// The magnet link on a torrent's page. The page must hold one (the lookup
/// panics otherwise); `find_magnet` asks first.
pub fn getmagnet(page: &str) -> (link: String)
    requires
        first_group(magnet_pattern(), page@) is Some,
    ensures
        first_group(magnet_pattern(), page@) == Some(link@),
        magnet_link(page@) == Some(link@),
{
    match find_magnet(page) {
        Some(link) => link,
        None => {
            proof { assert(false); }
            String::new()
        },
    }
}

/// The magnet link on a torrent's page, where it holds one.
pub fn find_magnet(page: &str) -> (link: Option<String>)
    ensures
        link matches Some(s) ==> first_group(magnet_pattern(), page@) == Some(s@),
        link is None ==> first_group(magnet_pattern(), page@) is None,
        link matches Some(s) ==> magnet_link(page@) == Some(s@),
        link is None ==> magnet_link(page@) is None,
{
    let pattern = "(?P<link>magnet:\\?.*?)\"";
    proof {
        reveal_strlit("(?P<link>magnet:\\?.*?)\"");
        assert(pattern@ == quoted_magnet_pattern());
    }
    match first_capture(pattern, page, 1) {
        Ok(found) => found,
        Err(_) => None,
    }
}

/// Search results from a fetched search page: at most `number` of the
/// torrents it lists, or `NoResults` where it lists nothing at all.
pub fn query(page: TorrentHtml, number: usize) -> (r: Result<Results, SearchError>)
    ensures
        page_results(page) is None ==> r is Err && r->Err_0 is NoResults,
        page_results(page) matches Some(ts) ==> r is Ok && r->Ok_0@ == Some(first_n(ts, number as nat)),
{
    let mut results = Results::from_html(page);
    match results {
        Results::Results(_) => {
            let _ = results.truncate(number);
            Ok(results)
        },
        Results::NoResults => Err(SearchError::NoResults),
    }
}


/// Where a lookup of a magnet link stands.
pub enum MagnetLookup {
    /// Waiting for the search page of `name`.
    AwaitingSearch { name: String },
    /// Waiting for the page of the torrent with id `id`, found for `name`.
    AwaitingTorrent { name: String, id: String },
}

/// What a lookup of a magnet link asks for next.
pub enum MagnetStep {
    /// Fetch the page at `url` and hand it to `lookup`.
    Fetch { lookup: MagnetLookup, url: String },
    /// The magnet link was found.
    Found(Magnet),
    /// Fetching a page failed with this error.
    Failed(SearchError),
    /// A page did not hold what the lookup looks for on it (only `step`
    /// answers so; `on_page` is not given such a page).
    Missing,
}

/// `step` asks for the search page of `name`, to be handed back to a
/// lookup that waits for it.
pub open spec fn fetches_search_page(step: MagnetStep, name: Seq<char>) -> bool {
    match step {
        MagnetStep::Fetch { lookup, url } => url@ == search_url(name, None) && match lookup {
            MagnetLookup::AwaitingSearch { name: n } => n@ == name,
            _ => false,
        },
        _ => false,
    }
}

/// `step` asks for the page of torrent `id`, with `name` hyphenated in its
/// address, to be handed back to a lookup that waits for it.
pub open spec fn fetches_torrent_page(step: MagnetStep, name: Seq<char>, id: Seq<char>) -> bool {
    match step {
        MagnetStep::Fetch { lookup, url } => url@ == torrent_url(id, hyphenated(name)) && match lookup {
            MagnetLookup::AwaitingTorrent { name: n, id: i } => n@ == name && i@ == id,
            _ => false,
        },
        _ => false,
    }
}

/// Looks up the magnet link of the first torrent that a search for `name`
/// lists: the first step asks for the search page (`makeurl(name, None)`);
/// `MagnetLookup::on_page` takes it from there.
pub fn querymagnet(name: &str) -> (step: MagnetStep)
    ensures
        fetches_search_page(step, name@),
{
    let url = makeurl(name, None);
    MagnetStep::Fetch { lookup: MagnetLookup::AwaitingSearch { name: name.to_owned() }, url }
}

/// Whether a page holds what a lookup looks for on it: the id of a torrent
/// on a search page, a magnet link on a torrent's page.
pub open spec fn holds_sought(lookup: MagnetLookup, html: Seq<char>) -> bool {
    match lookup {
        MagnetLookup::AwaitingSearch { .. } => first_group(id_pattern(), html) is Some,
        MagnetLookup::AwaitingTorrent { .. } => first_group(magnet_pattern(), html) is Some,
    }
}

/// Whether a fetched page (or the error of fetching it) lets a lookup go on:
/// an error does, a page does where it holds what is sought on it.
pub open spec fn page_usable(lookup: MagnetLookup, page: Result<String, SearchError>) -> bool {
    match page {
        Ok(html) => holds_sought(lookup, html@),
        Err(_) => true,
    }
}

/// The step that follows a lookup given the page it asked for (or the error
/// that fetching it gave), where the page is usable: on a search page, a
/// request for the page of the first torrent listed, its name hyphenated; on
/// a torrent's page, the magnet link found there.
pub open spec fn next_step(lookup: MagnetLookup, page: Result<String, SearchError>, step: MagnetStep) -> bool {
    match page {
        Err(e) => step == MagnetStep::Failed(e),
        Ok(html) => match lookup {
            MagnetLookup::AwaitingSearch { name } => match first_group(id_pattern(), html@) {
                Some(id) => fetches_torrent_page(step, name@, id),
                None => false,
            },
            MagnetLookup::AwaitingTorrent { .. } => match first_group(magnet_pattern(), html@) {
                Some(link) => step matches MagnetStep::Found(m) && m.link@ == link && magnet_link(html@) == Some(link),
                None => false,
            },
        },
    }
}

impl MagnetLookup {
    /// The next step of a lookup, given the page it asked for (or the error
    /// that fetching it gave). On a search page it takes the id of the first
    /// torrent and asks for that torrent's page, its name hyphenated; on a
    /// torrent's page it takes the magnet link. The page must hold what is
    /// sought on it (the lookup panics otherwise); `step` asks first.
    pub fn on_page(self, page: Result<String, SearchError>) -> (step: MagnetStep)
        requires
            page_usable(self, page),
        ensures
            next_step(self, page, step),
    {
        let html = match page {
            Ok(html) => html,
            Err(e) => return MagnetStep::Failed(e),
        };
        match self {
            MagnetLookup::AwaitingSearch { name } => {
                let id = getid(html.as_str());
                let dashed = hyphenate(name.as_str());
                let url = torrent_page_url(id.as_str(), dashed.as_str());
                MagnetStep::Fetch { lookup: MagnetLookup::AwaitingTorrent { name, id }, url }
            },
            MagnetLookup::AwaitingTorrent { name, id } => MagnetStep::Found(Magnet::new(getmagnet(html.as_str()))),
        }
    }

    /// Whether a fetched page (or the error of fetching it) lets the lookup
    /// go on (see `page_usable`).
    pub fn accepts(&self, page: &Result<String, SearchError>) -> (b: bool)
        ensures
            b == page_usable(*self, *page),
    {
        match page {
            Err(_) => true,
            Ok(html) => match self {
                MagnetLookup::AwaitingSearch { .. } => find_id(html.as_str()).is_some(),
                MagnetLookup::AwaitingTorrent { .. } => find_magnet(html.as_str()).is_some(),
            },
        }
    }

    /// The next step of a lookup as `on_page` takes it, or `Missing` where the
    /// page does not hold what is sought on it.
    pub fn step(self, page: Result<String, SearchError>) -> (step: MagnetStep)
        ensures
            page_usable(self, page) ==> next_step(self, page, step),
            !page_usable(self, page) ==> step is Missing,
    {
        if self.accepts(&page) {
            self.on_page(page)
        } else {
            MagnetStep::Missing
        }
    }
}

} // verus!
