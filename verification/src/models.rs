//! Torrents found on the index, and the magnet links behind them.
use vstd::prelude::*;
use crate::text::push_char;

verus! {

/// One torrent of a result list, every column as the index printed it.
#[derive(Debug, Eq, PartialEq, Clone)]
pub struct Torrent {
    pub name: String,
    pub seeds: String,
    pub leeches: String,
    pub size: String,
    pub time: String,
}

/// The text of the five columns of a torrent.
pub struct TorrentView {
    pub name: Seq<char>,
    pub seeds: Seq<char>,
    pub leeches: Seq<char>,
    pub size: Seq<char>,
    pub time: Seq<char>,
}

impl View for Torrent {
    type V = TorrentView;

    open spec fn view(&self) -> TorrentView {
        TorrentView {
            name: self.name@,
            seeds: self.seeds@,
            leeches: self.leeches@,
            size: self.size@,
            time: self.time@,
        }
    }
}

/// The outcome of a search: the torrents found, or none at all.
#[derive(Debug, Eq, PartialEq, Clone)]
pub enum Results {
    Results(Vec<Torrent>),
    NoResults,
}

/// The columns of each torrent in a list, in order.
pub open spec fn torrents_view(v: Seq<Torrent>) -> Seq<TorrentView> {
    v.map_values(|t: Torrent| t@)
}

impl View for Results {
    type V = Option<Seq<TorrentView>>;

    /// `Some` of the torrents in order, or `None` for `NoResults`.
    open spec fn view(&self) -> Option<Seq<TorrentView>> {
        match self {
            Results::Results(v) => Some(torrents_view(v@)),
            Results::NoResults => None,
        }
    }
}

/// A magnet link.
#[derive(Debug, Eq, PartialEq, Clone)]
pub struct Magnet {
    pub link: String,
}

impl Torrent {
    /// A torrent with the given columns.
    pub fn new(name: String, seeds: String, leeches: String, size: String, time: String) -> (t: Torrent)
        ensures
            t.name == name,
            t.seeds == seeds,
            t.leeches == leeches,
            t.size == size,
            t.time == time,
    {
        Torrent { name, seeds, leeches, size, time }
    }

    /// The one-line form of a torrent: name, size, seeds, leeches and time, separated by tabs.
    pub fn to_string(&self) -> (s: String)
        ensures
            s@ == torrent_line(self@),
    {
        let mut s = self.name.clone();
        push_char(&mut s, '\t');
        s.append(self.size.as_str());
        push_char(&mut s, '\t');
        s.append(self.seeds.as_str());
        push_char(&mut s, '\t');
        s.append(self.leeches.as_str());
        push_char(&mut s, '\t');
        s.append(self.time.as_str());
        s
    }
}

/// `name \t size \t seeds \t leeches \t time`.
pub open spec fn torrent_line(t: TorrentView) -> Seq<char> {
    t.name + seq!['\t'] + t.size + seq!['\t'] + t.seeds + seq!['\t'] + t.leeches + seq!['\t'] + t.time
}

/// Each torrent's line followed by a newline, one after the other.
pub open spec fn torrent_lines(ts: Seq<TorrentView>) -> Seq<char>
    decreases ts.len(),
{
    if ts.len() == 0 {
        Seq::empty()
    } else {
        torrent_lines(ts.drop_last()) + torrent_line(ts.last()) + seq!['\n']
    }
}

/// What the text form of a result list says.
pub open spec fn results_text(r: Option<Seq<TorrentView>>) -> Seq<char> {
    match r {
        Some(ts) => torrent_lines(ts),
        None => "No Results"@,
    }
}

/// The first `n` items of a sequence, or all of them where there are fewer.
pub open spec fn first_n<A>(s: Seq<A>, n: nat) -> Seq<A> {
    if n < s.len() {
        s.take(n as int)
    } else {
        s
    }
}

impl Results {
    /// Keeps at most the first `number` torrents. Fails with `WrongVariant`,
    /// changing nothing, on `NoResults`.
    pub fn truncate(&mut self, number: usize) -> (r: Result<(), crate::search::SearchError>)
        ensures
            old(self)@ is None ==> r is Err && r->Err_0 is WrongVariant && final(self)@ is None,
            old(self)@ matches Some(ts) ==> r is Ok && final(self)@ == Some(first_n(ts, number as nat)),
    {
        match self {
            Results::Results(r) => {
                let ghost before = r@;
                r.truncate(number);
                proof {
                    assert(torrents_view(r@) =~= first_n(torrents_view(before), number as nat));
                }
                Ok(())
            },
            Results::NoResults => Err(crate::search::SearchError::WrongVariant),
        }
    }

    /// The text form of a result list: each torrent's line and a newline,
    /// or `No Results`.
    pub fn to_string(&self) -> (s: String)
        ensures
            s@ == results_text(self@),
    {
        match self {
            Results::Results(ts) => {
                let mut out = String::new();
                let mut i: usize = 0;
                while i < ts.len()
                    invariant
                        i <= ts.len(),
                        out@ == torrent_lines(torrents_view(ts@).take(i as int)),
                    decreases ts.len() - i,
                {
                    let line = ts[i].to_string();
                    out.append(line.as_str());
                    push_char(&mut out, '\n');
                    i = i + 1;
                    proof {
                        let tv = torrents_view(ts@);
                        assert(tv.take(i as int).drop_last() =~= tv.take(i - 1));
                    }
                }
                proof {
                    assert(torrents_view(ts@).take(ts.len() as int) =~= torrents_view(ts@));
                }
                out
            },
            Results::NoResults => {
                let s = "No Results".to_owned();
                proof { reveal_strlit("No Results"); }
                s
            },
        }
    }
}

/// The five columns of a search page, each in the order the page lists
/// them: names, seeds, leeches, sizes and upload times.
pub struct TorrentHtml {
    pub names: Vec<String>,
    pub seeds: Vec<String>,
    pub leeches: Vec<String>,
    pub size: Vec<String>,
    pub time: Vec<String>,
}

/// The text of each entry of a column.
pub open spec fn column(v: Seq<String>) -> Seq<Seq<char>> {
    v.map_values(|s: String| s@)
}

/// The number of complete lines of a search page: the length of its
/// shortest column.
pub open spec fn page_lines(h: TorrentHtml) -> nat {
    let a = h.names.len();
    let b = if a > h.seeds.len() { h.seeds.len() } else { a };
    let c = if b > h.leeches.len() { h.leeches.len() } else { b };
    let d = if c > h.size.len() { h.size.len() } else { c };
    let e = if d > h.time.len() { h.time.len() } else { d };
    e as nat
}

/// Line `i` of a search page as a torrent.
pub open spec fn page_line(h: TorrentHtml, i: int) -> TorrentView {
    TorrentView {
        name: h.names@[i]@,
        seeds: h.seeds@[i]@,
        leeches: h.leeches@[i]@,
        size: h.size@[i]@,
        time: h.time@[i]@,
    }
}

/// What a search page lists: nothing where a column is empty; otherwise the
/// lines between the first (the header) and the last, both left out.
pub open spec fn page_results(h: TorrentHtml) -> Option<Seq<TorrentView>> {
    let n = page_lines(h);
    if n == 0 {
        None
    } else {
        let count: nat = if n >= 2 { (n - 2) as nat } else { 0 };
        Some(Seq::new(count, |k: int| page_line(h, k + 1)))
    }
}

impl Results {
    /// The torrents that a search page lists (see `page_results`).
    pub fn from_html(page: TorrentHtml) -> (r: Results)
        ensures
            r@ == page_results(page),
    {
        let mut length = page.names.len();
        if length > page.seeds.len() {
            length = page.seeds.len();
        }
        if length > page.leeches.len() {
            length = page.leeches.len();
        }
        if length > page.size.len() {
            length = page.size.len();
        }
        if length > page.time.len() {
            length = page.time.len();
        }
        if length == 0 {
            return Results::NoResults;
        }
        let mut torrents: Vec<Torrent> = Vec::new();
        let mut i: usize = 1;
        while i + 1 < length
            invariant
                1 <= i,
                length == page_lines(page),
                i + 1 <= length || i == 1,
                torrents@.len() == i - 1,
                forall|k: int| 0 <= k < i - 1 ==> #[trigger] torrents@[k]@ == page_line(page, k + 1),
            decreases length - i,
        {
            torrents.push(Torrent::new(
                page.names[i].clone(),
                page.seeds[i].clone(),
                page.leeches[i].clone(),
                page.size[i].clone(),
                page.time[i].clone(),
            ));
            i = i + 1;
        }
        proof {
            let count: nat = if length >= 2 { (length - 2) as nat } else { 0 };
            assert(torrents_view(torrents@) =~= Seq::new(count, |k: int| page_line(page, k + 1)));
        }
        Results::Results(torrents)
    }
}

impl From<Vec<Torrent>> for Results {
    /// The torrents of a list, in order, as results.
    fn from(res: Vec<Torrent>) -> (r: Results) {
        Results::Results(res)
    }
}

impl vstd::std_specs::convert::FromSpecImpl<Vec<Torrent>> for Results {
    open spec fn obeys_from_spec() -> bool {
        true
    }

    open spec fn from_spec(res: Vec<Torrent>) -> Results {
        Results::Results(res)
    }
}

impl Magnet {
    /// A magnet with the given link.
    pub fn new(link: String) -> (m: Magnet)
        ensures
            m.link == link,
    {
        Magnet { link }
    }

    /// The text form of a magnet: its link.
    pub fn to_string(&self) -> (s: String)
        ensures
            s@ == self.link@,
    {
        self.link.clone()
    }
}

} // verus!
