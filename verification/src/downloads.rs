//! Deciding what to download: the torrent picked from a page, the folder its
//! page calls for, and the note that the download started.
use vstd::prelude::*;
use crate::models::{Results, Torrent};
use crate::search::SearchError;
use crate::text::{literal, push_char, same_text};
use crate::trusted::{first_capture, regex_compiles, regex_group};

verus! {

/// The torrent with the given number (counted from 1) in a list, where
/// there is one.
pub fn pick_torrent(torrents: &Vec<Torrent>, number: u64) -> (t: Option<Torrent>)
    ensures
        number >= 1 && ((number - 1) as usize) < torrents@.len() ==> (t matches Some(x)
            && x@ == torrents@[((number - 1) as usize) as int]@),
        !(number >= 1 && ((number - 1) as usize) < torrents@.len()) ==> t is None,
{
    if number == 0 {
        return None;
    }
    let index = (number - 1) as usize;
    if index < torrents.len() {
        let t = &torrents[index];
        Some(Torrent::new(t.name.clone(), t.seeds.clone(), t.leeches.clone(), t.size.clone(), t.time.clone()))
    } else {
        None
    }
}

/// What follows the first occurrence of `marker` in `s`, where it occurs.
pub open spec fn after_marker(s: Seq<char>, marker: Seq<char>) -> Option<Seq<char>>
    decreases s.len(),
{
    if s.len() < marker.len() {
        None
    } else if s.take(marker.len() as int) == marker {
        Some(s.skip(marker.len() as int))
    } else if s.len() > 0 {
        after_marker(s.drop_first(), marker)
    } else {
        None
    }
}

/// What follows the first occurrence of `marker` in `s`, where it occurs.
pub fn split_after(s: &str, marker: &str) -> (r: Option<String>)
    ensures
        r matches Some(t) ==> after_marker(s@, marker@) == Some(t@),
        r is None ==> after_marker(s@, marker@) is None,
{
    let cs = crate::text::chars_of(s);
    let ms = crate::text::chars_of(marker);
    let n = cs.len();
    let m = ms.len();
    let mut i: usize = 0;
    assert(s@.skip(0) =~= s@);
    while m <= n && i <= n - m
        invariant
            cs@ == s@,
            ms@ == marker@,
            n == cs@.len(),
            m == ms@.len(),
            i <= n,
            after_marker(s@, marker@) == after_marker(s@.skip(i as int), marker@),
        decreases n - i,
    {
        let mut j: usize = 0;
        let mut same = true;
        while j < m
            invariant
                cs@ == s@,
                ms@ == marker@,
                n == cs@.len(),
                m == ms@.len(),
                i + m <= n,
                j <= m,
                same == (forall|k: int| 0 <= k < j ==> cs@[i + k] == ms@[k]),
            decreases m - j,
        {
            if cs[i + j] != ms[j] {
                same = false;
            }
            j = j + 1;
        }
        let ghost rest = s@.skip(i as int);
        if same {
            let mut out = String::new();
            let mut k: usize = i + m;
            while k < n
                invariant
                    cs@ == s@,
                    n == cs@.len(),
                    i + m <= k <= n,
                    out@ == s@.subrange(i + m, k as int),
                decreases n - k,
            {
                push_char(&mut out, cs[k]);
                k = k + 1;
                assert(s@.subrange(i + m, k as int) =~= s@.subrange(i + m, k - 1).push(s@[k - 1]));
            }
            proof {
                assert(rest.take(m as int) =~= marker@);
                assert(out@ =~= rest.skip(m as int));
            }
            return Some(out);
        }
        proof {
            assert(rest.take(m as int)[0] == rest.take(m as int)[0]);
            if m == 0 {
                assert(rest.take(0) =~= marker@);
            }
            assert(rest.take(m as int) != marker@) by {
                let k = choose|k: int| 0 <= k < m && cs@[i + k] != ms@[k];
                assert(rest.take(m as int)[k] != marker@[k]);
            }
            assert(rest.drop_first() =~= s@.skip(i + 1));
        }
        i = i + 1;
    }
    proof {
        assert(s@.skip(i as int).len() < m);
    }
    None
}

/// The pattern that finds the category on a torrent's page.
pub open spec fn category_pattern() -> Seq<char> {
    "Category</strong> <span>[^<]*"@
}

/// The download folder of a category: `MV` for `Movies`, `TV` for `Anime`,
/// the category itself otherwise.
pub open spec fn folder_of(category: Seq<char>) -> Seq<char> {
    if category == "Movies"@ {
        "MV"@
    } else if category == "Anime"@ {
        "TV"@
    } else {
        category
    }
}

/// The download folder that a torrent's page calls for: the text after
/// `<span>` in the first match of `category_pattern`, as `folder_of` maps it.
pub open spec fn page_folder(page: Seq<char>) -> Option<Seq<char>> {
    if !regex_compiles(category_pattern()) {
        None
    } else {
        match regex_group(category_pattern(), page, 0) {
            Some(m) => match after_marker(m, "<span>"@) {
                Some(c) => Some(folder_of(c)),
                None => None,
            },
            None => None,
        }
    }
}

/// The download folder that a torrent's page calls for, where it names a
/// category (see `page_folder`).
pub fn find_category(page: &str) -> (r: Option<String>)
    ensures
        r matches Some(f) ==> page_folder(page@) == Some(f@),
        r is None ==> page_folder(page@) is None,
{
    let pattern = "Category</strong> <span>[^<]*";
    proof {
        reveal_strlit("Category</strong> <span>[^<]*");
        reveal_strlit("<span>");
        reveal_strlit("Movies");
        reveal_strlit("Anime");
        reveal_strlit("MV");
        reveal_strlit("TV");
    }
    let found = match first_capture(pattern, page, 0) {
        Ok(Some(m)) => m,
        _ => return None,
    };
    let category = match split_after(found.as_str(), "<span>") {
        Some(c) => c,
        None => return None,
    };
    if same_text(category.as_str(), "Movies") {
        Some(literal("MV"))
    } else if same_text(category.as_str(), "Anime") {
        Some(literal("TV"))
    } else {
        Some(category)
    }
}

/// Where a download of the given category goes: `/downloads/{folder}`.
pub fn download_dir(folder: &str) -> (d: String)
    ensures
        d@ == "/downloads/"@ + folder@,
{
    let mut d = literal("/downloads/");
    d.append(folder);
    d
}

/// The note that a download started: ``Downloading `{name}` ``.
pub fn download_note(name: &str) -> (n: String)
    ensures
        n@ == "Downloading `"@ + name@ + "`"@,
{
    let mut n = literal("Downloading `");
    n.append(name);
    push_char(&mut n, '`');
    proof {
        reveal_strlit("`");
        assert(n@ =~= "Downloading `"@ + name@ + "`"@);
    }
    n
}



/// What a download button comes to, given what the search of its page found.
pub enum DownloadChoice {
    /// The search found nothing (or failed): say `No results!`.
    NothingFound,
    /// Download this torrent.
    Picked(Torrent),
    /// The page has no torrent with the button's number.
    NoSuchNumber,
    /// The search answered `NoResults`: do nothing.
    Skip,
}

/// The torrent a download button asks for: torrent `number` (counted from 1)
/// of what the search of its page found, a failed search counting as an
/// empty one.
pub fn choose_download(found: Result<Results, SearchError>, number: u64) -> (c: DownloadChoice)
    ensures
        found matches Err(_) ==> c is NothingFound,
        found matches Ok(Results::NoResults) ==> c is Skip,
        found matches Ok(Results::Results(v)) ==> picks(c, v@, number),
{
    match found {
        Err(_) => DownloadChoice::NothingFound,
        Ok(Results::NoResults) => DownloadChoice::Skip,
        Ok(Results::Results(v)) => {
            if v.len() == 0 {
                DownloadChoice::NothingFound
            } else {
                match pick_torrent(&v, number) {
                    Some(t) => DownloadChoice::Picked(t),
                    None => DownloadChoice::NoSuchNumber,
                }
            }
        },
    }
}

/// `c` is what a download button with the given number comes to on a page
/// of these torrents.
pub open spec fn picks(c: DownloadChoice, ts: Seq<Torrent>, number: u64) -> bool {
    if ts.len() == 0 {
        c is NothingFound
    } else if number >= 1 && ((number - 1) as usize) < ts.len() {
        c matches DownloadChoice::Picked(t) && t@ == ts[((number - 1) as usize) as int]@
    } else {
        c is NoSuchNumber
    }
}

} // verus!
