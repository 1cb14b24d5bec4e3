//! The messages the chat bot draws: pages of search results, the answer to
//! the `search` command, and the list of downloads.
use vstd::prelude::*;
use crate::models::{Results, Torrent, TorrentView, torrents_view};
use crate::search::SearchError;
use crate::text::{i64_decimal, literal, push_char, same_text, signed_decimal};
use crate::trusted::{json_string, json_text, lowercase, to_lowercase};

verus! {

/// A button under a message: its label and the id it sends back.
pub struct ButtonView {
    pub label: String,
    pub custom_id: String,
}

/// The text of a button's label and id.
pub struct ButtonText {
    pub label: Seq<char>,
    pub custom_id: Seq<char>,
}

impl View for ButtonView {
    type V = ButtonText;

    open spec fn view(&self) -> ButtonText {
        ButtonText { label: self.label@, custom_id: self.custom_id@ }
    }
}

/// A message the bot draws: an embed with a title and maybe a description,
/// and rows of buttons under it.
pub struct PageView {
    pub title: String,
    pub description: Option<String>,
    pub rows: Vec<Vec<ButtonView>>,
}

/// The text of each button of each row.
pub open spec fn rows_text(rows: Seq<Vec<ButtonView>>) -> Seq<Seq<ButtonText>> {
    rows.map_values(|r: Vec<ButtonView>| r@.map_values(|b: ButtonView| b@))
}

/// The number shown before the first torrent of page `page`, less one:
/// five torrents to a page.
pub open spec fn page_base(page: int) -> int {
    (page - 1) * 5
}

/// Whether the numbers shown on page `page`, which lists `n` torrents,
/// stay in the range of `i64`.
pub open spec fn page_fits(page: int, n: nat) -> bool {
    i64::MIN <= page_base(page) && page_base(page) + n <= i64::MAX && n <= i64::MAX
}

/// One line of a listing: `N. NAME - SIZE \n`.
pub open spec fn listing_line(n: int, t: TorrentView) -> Seq<char> {
    signed_decimal(n) + ". "@ + t.name + " - "@ + t.size + " \n"@
}

/// The lines of the torrents in order, numbered from `base + 1`.
pub open spec fn listing(ts: Seq<TorrentView>, base: int) -> Seq<char>
    decreases ts.len(),
{
    if ts.len() == 0 {
        Seq::empty()
    } else {
        listing(ts.drop_last(), base) + listing_line(base + ts.len(), ts.last())
    }
}

/// A listing in a code block.
pub open spec fn code_block(body: Seq<char>) -> Seq<char> {
    "```\n"@ + body + "\n```"@
}

/// The id of a button that turns to another page:
/// `{"query": Q, "page": P, "action": "A"}`, with `Q` as given (quoted).
pub open spec fn turn_id(quoted_query: Seq<char>, page: int, action: Seq<char>) -> Seq<char> {
    "{\"query\": "@ + quoted_query + ", \"page\": "@ + signed_decimal(page) + ", \"action\": \""@ + action + "\"}"@
}

/// A text in double quotes, as it stands.
pub open spec fn quoted(s: Seq<char>) -> Seq<char> {
    seq!['"'] + s + seq!['"']
}

/// The id of a button that downloads torrent `number` of a page:
/// `{"action":"g", "query": "Q", "page": P, "number": N}`.
pub open spec fn get_id(query: Seq<char>, page: int, number: int) -> Seq<char> {
    "{\"action\":\"g\", \"query\": \""@ + query + "\", \"page\": "@ + signed_decimal(page) + ", \"number\": "@ + signed_decimal(number) + "}"@
}

/// The first row under a result page: `<` (but on page 1) and `>`.
pub open spec fn turn_row(query: Seq<char>, page: int) -> Seq<ButtonText> {
    let forward = ButtonText { label: ">"@, custom_id: turn_id(quoted(query), page, "f"@) };
    if page - 1 != 0 {
        seq![ButtonText { label: "<"@, custom_id: turn_id(quoted(query), page, "b"@) }, forward]
    } else {
        seq![forward]
    }
}

/// The second row under a result page: one button for each torrent shown,
/// labelled with its number.
pub open spec fn get_row(query: Seq<char>, page: int, n: nat) -> Seq<ButtonText> {
    Seq::new(n, |k: int| ButtonText {
        label: signed_decimal(page_base(page) + k + 1),
        custom_id: get_id(query, page, k + 1),
    })
}

/// `v` is the page of results `ts` of the search for `query`, page `page`.
pub open spec fn shows_results(v: PageView, query: Seq<char>, page: int, ts: Seq<TorrentView>) -> bool {
    &&& v.title@ == "Search Results"@
    &&& v.description matches Some(d) && d@ == code_block(listing(ts, page_base(page)))
    &&& rows_text(v.rows@) == seq![turn_row(query, page), get_row(query, page, ts.len())]
}

fn button(label: &str, custom_id: String) -> (b: ButtonView)
    ensures
        b.label@ == label@,
        b.custom_id == custom_id,
{
    ButtonView { label: literal(label), custom_id }
}

fn turn_button_id(quoted_query: &str, page: i64, action: &str) -> (id: String)
    ensures
        id@ == turn_id(quoted_query@, page as int, action@),
{
    let mut id = literal("{\"query\": ");
    id.append(quoted_query);
    id.append(", \"page\": ");
    let p = i64_decimal(page);
    id.append(p.as_str());
    id.append(", \"action\": \"");
    id.append(action);
    id.append("\"}");
    proof {
        reveal_strlit("{\"query\": ");
        reveal_strlit(", \"page\": ");
        reveal_strlit(", \"action\": \"");
        reveal_strlit("\"}");
        assert(id@ =~= turn_id(quoted_query@, page as int, action@));
    }
    id
}

fn quote(s: &str) -> (r: String)
    ensures
        r@ == quoted(s@),
{
    let mut r = String::new();
    push_char(&mut r, '"');
    r.append(s);
    push_char(&mut r, '"');
    assert(r@ =~= quoted(s@));
    r
}

fn get_button_id(query: &str, page: i64, number: i64) -> (id: String)
    ensures
        id@ == get_id(query@, page as int, number as int),
{
    let mut id = literal("{\"action\":\"g\", \"query\": \"");
    id.append(query);
    id.append("\", \"page\": ");
    let p = i64_decimal(page);
    id.append(p.as_str());
    id.append(", \"number\": ");
    let n = i64_decimal(number);
    id.append(n.as_str());
    push_char(&mut id, '}');
    proof {
        reveal_strlit("{\"action\":\"g\", \"query\": \"");
        reveal_strlit("\", \"page\": ");
        reveal_strlit(", \"number\": ");
        reveal_strlit("}");
        assert(id@ =~= get_id(query@, page as int, number as int));
    }
    id
}

fn listing_entry(n: i64, t: &Torrent) -> (line: String)
    ensures
        line@ == listing_line(n as int, t@),
{
    let mut line = i64_decimal(n);
    line.append(". ");
    line.append(t.name.as_str());
    line.append(" - ");
    line.append(t.size.as_str());
    line.append(" \n");
    proof {
        reveal_strlit(". ");
        reveal_strlit(" - ");
        reveal_strlit(" \n");
        assert(line@ =~= listing_line(n as int, t@));
    }
    line
}

/// The page of results `torrents` of the search for `query`, page `page`:
/// the numbered listing in a code block, `<` (but on page 1) and `>`, and a
/// button for each torrent.
pub fn results_page(query: &str, page: i64, torrents: &Vec<Torrent>) -> (v: PageView)
    requires
        page_fits(page as int, torrents@.len()),
    ensures
        shows_results(v, query@, page as int, torrents_view(torrents@)),
{
    let ghost ts = torrents_view(torrents@);
    let base: i64 = (page - 1) * 5;
    let mut text = String::new();
    let mut gets: Vec<ButtonView> = Vec::new();
    let mut i: usize = 0;
    while i < torrents.len()
        invariant
            i <= torrents.len(),
            base == page_base(page as int),
            page_fits(page as int, torrents@.len()),
            ts == torrents_view(torrents@),
            text@ == listing(ts.take(i as int), base as int),
            gets@.map_values(|b: ButtonView| b@) == get_row(query@, page as int, i as nat),
        decreases torrents.len() - i,
    {
        let number: i64 = base + (i as i64) + 1;
        let line = listing_entry(number, &torrents[i]);
        text.append(line.as_str());
        let label = i64_decimal(number);
        let id = get_button_id(query, page, (i as i64) + 1);
        let ghost before = gets@;
        gets.push(ButtonView { label, custom_id: id });
        i = i + 1;
        proof {
            assert(ts.take(i as int).drop_last() =~= ts.take(i - 1));
            assert(gets@.map_values(|b: ButtonView| b@) =~= before.map_values(|b: ButtonView| b@).push(gets@[i - 1]@));
            assert(get_row(query@, page as int, i as nat) =~= get_row(query@, page as int, (i - 1) as nat).push(gets@[i - 1]@));
        }
    }
    proof {
        assert(ts.take(torrents.len() as int) =~= ts);
    }
    let mut description = literal("```\n");
    description.append(text.as_str());
    description.append("\n```");
    let quoted_query = quote(query);
    let forward = button(">", turn_button_id(quoted_query.as_str(), page, "f"));
    let mut turns: Vec<ButtonView> = Vec::new();
    if page - 1 != 0 {
        turns.push(button("<", turn_button_id(quoted_query.as_str(), page, "b")));
    }
    turns.push(forward);
    let mut rows: Vec<Vec<ButtonView>> = Vec::new();
    rows.push(turns);
    rows.push(gets);
    proof {
        reveal_strlit("```\n");
        reveal_strlit("\n```");
        reveal_strlit("Search Results");
        reveal_strlit(">");
        reveal_strlit("<");
        reveal_strlit("f");
        reveal_strlit("b");
        assert(description@ =~= code_block(listing(ts, page_base(page as int))));
        assert(rows_text(rows@)[0] =~= turn_row(query@, page as int));
        assert(rows_text(rows@) =~= seq![turn_row(query@, page as int), get_row(query@, page as int, ts.len())]);
    }
    PageView { title: literal("Search Results"), description: Some(description), rows }
}


/// `v` says `No results!` and offers, but on page 1, a `<` button whose id
/// carries the query as the JSON text `query_json`.
pub open spec fn shows_no_results(v: PageView, query_json: Seq<char>, page: int) -> bool {
    &&& v.title@ == "No results!"@
    &&& v.description is None
    &&& rows_text(v.rows@) == seq![if page != 1 {
        seq![ButtonText { label: "<"@, custom_id: turn_id(query_json, page, "b"@) }]
    } else {
        Seq::empty()
    }]
}

/// The message for an empty page `page` of a search whose query, as JSON
/// text, is `query_json`.
pub fn empty_page(query_json: &str, page: i64) -> (v: PageView)
    ensures
        shows_no_results(v, query_json@, page as int),
{
    let mut row: Vec<ButtonView> = Vec::new();
    if page != 1 {
        row.push(button("<", turn_button_id(query_json, page, "b")));
    }
    let mut rows: Vec<Vec<ButtonView>> = Vec::new();
    rows.push(row);
    proof {
        reveal_strlit("No results!");
        reveal_strlit("<");
        reveal_strlit("b");
        assert(rows_text(rows@)[0] =~= (if page != 1 {
            seq![ButtonText { label: "<"@, custom_id: turn_id(query_json@, page as int, "b"@) }]
        } else {
            Seq::<ButtonText>::empty()
        }));
        assert(rows_text(rows@) =~= seq![rows_text(rows@)[0]]);
    }
    PageView { title: literal("No results!"), description: None, rows }
}

/// What a search came to for the bot: its results, or an empty list where
/// it failed.
pub open spec fn found_or_empty(found: Result<Results, SearchError>) -> Option<Seq<TorrentView>> {
    match found {
        Ok(r) => r@,
        Err(_) => Some(Seq::empty()),
    }
}

/// Whether page `page` can show what a search found: the numbers of the
/// torrents listed stay in the range of `i64`. An empty or failed search
/// numbers nothing, so it fits any page.
pub open spec fn found_fits(found: Result<Results, SearchError>, page: int) -> bool {
    match found_or_empty(found) {
        Some(ts) => ts.len() > 0 ==> page_fits(page, ts.len()),
        None => true,
    }
}

/// The message that shows page `page` of the search for `query`, given what
/// the search found (a failed search counts as an empty one): the empty page
/// where nothing was found, the results page otherwise, and nothing for
/// `NoResults`.
pub fn newpage(query: &str, page: i64, found: Result<Results, SearchError>) -> (v: Option<PageView>)
    requires
        found_fits(found, page as int),
    ensures
        found_or_empty(found) is None ==> v is None,
        found_or_empty(found) matches Some(ts) ==> v is Some && (if ts.len() == 0 {
            shows_no_results(v->Some_0, json_text(query@), page as int)
        } else {
            shows_results(v->Some_0, query@, page as int, ts)
        }),
{
    let results = match found {
        Ok(r) => r,
        Err(_) => Results::Results(Vec::new()),
    };
    match results {
        Results::Results(torrents) => {
            if torrents.len() == 0 {
                match json_string(query) {
                    Ok(query_json) => Some(empty_page(query_json.as_str(), page)),
                    Err(_) => None,
                }
            } else {
                Some(results_page(query, page, &torrents))
            }
        },
        Results::NoResults => None,
    }
}

/// `v` is an embed with the given title and nothing else.
pub open spec fn shows_only_title(v: PageView, title: Seq<char>) -> bool {
    &&& v.title@ == title
    &&& v.description is None
    &&& v.rows@.len() == 0
}

fn titled(title: &str) -> (v: PageView)
    ensures
        shows_only_title(v, title@),
{
    PageView { title: literal(title), description: None, rows: Vec::new() }
}

/// The answer to the `search` command, given the text of its option (`None`
/// where the option is not text) and what the search for it found on page 1
/// (a failed search counts as an empty one): `No results!` where nothing was
/// found, page 1 of the results otherwise, and an insult for `NoResults`
/// or an option that is not text.
pub fn search_reply(query: Option<&str>, found: Result<Results, SearchError>) -> (v: PageView)
    requires
        found_or_empty(found) matches Some(ts) ==> ts.len() <= u32::MAX,
    ensures
        query is None ==> shows_only_title(v, "Error! YOU SUCK!!"@),
        query matches Some(q) ==> match found_or_empty(found) {
            None => shows_only_title(v, "Error! YOU SUCK!!"@),
            Some(ts) => if ts.len() == 0 {
                shows_only_title(v, "No results!"@)
            } else {
                shows_results(v, q@, 1, ts)
            },
        },
{
    proof {
        reveal_strlit("Error! YOU SUCK!!");
        reveal_strlit("No results!");
    }
    match query {
        None => titled("Error! YOU SUCK!!"),
        Some(q) => {
            let results = match found {
                Ok(r) => r,
                Err(_) => Results::Results(Vec::new()),
            };
            match results {
                Results::Results(torrents) => {
                    if torrents.len() == 0 {
                        titled("No results!")
                    } else {
                        results_page(q, 1, &torrents)
                    }
                },
                Results::NoResults => titled("Error! YOU SUCK!!"),
            }
        },
    }
}

/// The message that a search found nothing: `No results!`.
pub fn no_results_reply() -> (v: PageView)
    ensures
        shows_only_title(v, "No results!"@),
{
    titled("No results!")
}

/// The message that a download started: `Success!`, and which torrent.
pub fn download_reply(name: &str) -> (v: PageView)
    ensures
        v.title@ == "Success!"@,
        v.description matches Some(d) && d@ == "Downloading `"@ + name@ + "`"@,
        v.rows@.len() == 0,
{
    PageView {
        title: literal("Success!"),
        description: Some(crate::downloads::download_note(name)),
        rows: Vec::new(),
    }
}

/// One torrent that the Web UI reports: its name, its state and its
/// progress, already written as the percentage to show.
pub struct TorrentStatus {
    pub name: String,
    pub state: String,
    pub progress: String,
}

/// The lines about the torrents whose (lowercased) state reads
/// `downloading`: `NAME - PROGRESS%` and a blank line each.
pub open spec fn downloading_lines(ts: Seq<TorrentStatus>, lowered: Seq<Seq<char>>) -> Seq<char>
    decreases ts.len(),
{
    if ts.len() == 0 {
        Seq::empty()
    } else {
        let rest = downloading_lines(ts.drop_last(), lowered);
        let t = ts.last();
        if lowered[ts.len() - 1] == "downloading"@ {
            rest + t.name@ + " - "@ + t.progress@ + "%\n\n"@
        } else {
            rest
        }
    }
}

/// The description of the list of downloads: the lines in a code block, or
/// a code block that says that nothing is downloading.
pub open spec fn downloads_text(lines: Seq<char>) -> Seq<char> {
    if lines.len() == 0 {
        code_block("Not currently downloading anything!"@)
    } else {
        code_block(lines)
    }
}

/// `v` is the list of downloads with the given description.
pub open spec fn shows_downloads(v: PageView, description: Seq<char>) -> bool {
    &&& v.title@ == "Currently downloading torrents:"@
    &&& v.description matches Some(d) && d@ == description
    &&& v.rows@.len() == 0
}

/// The answer to the `list` command, given the torrents the Web UI reports
/// and each one's state already lowercased: the torrents whose state reads
/// `downloading`, in order.
pub fn list_lowered(statuses: &Vec<TorrentStatus>, lowered: &Vec<String>) -> (v: PageView)
    requires
        lowered@.len() == statuses@.len(),
    ensures
        shows_downloads(v, downloads_text(downloading_lines(statuses@, lowered@.map_values(|s: String| s@)))),
{
    let ghost low = lowered@.map_values(|s: String| s@);
    let mut lines = String::new();
    let mut i: usize = 0;
    proof {
        reveal_strlit("downloading");
        reveal_strlit(" - ");
        reveal_strlit("%\n\n");
    }
    while i < statuses.len()
        invariant
            i <= statuses.len(),
            lowered@.len() == statuses@.len(),
            low == lowered@.map_values(|s: String| s@),
            lines@ == downloading_lines(statuses@.take(i as int), low),
        decreases statuses.len() - i,
    {
        let t = &statuses[i];
        if same_text(lowered[i].as_str(), "downloading") {
            lines.append(t.name.as_str());
            lines.append(" - ");
            lines.append(t.progress.as_str());
            lines.append("%\n\n");
        }
        i = i + 1;
        proof {
            assert(statuses@.take(i as int).drop_last() =~= statuses@.take(i - 1));
            assert(low[i - 1] == lowered@[i - 1]@);
        }
    }
    proof {
        assert(statuses@.take(statuses.len() as int) =~= statuses@);
        reveal_strlit("```\n");
        reveal_strlit("\n```");
        reveal_strlit("Currently downloading torrents:");
        reveal_strlit("Not currently downloading anything!");
    }
    let mut description = literal("```\n");
    if lines.as_str().is_empty() {
        description.append("Not currently downloading anything!");
    } else {
        description.append(lines.as_str());
    }
    description.append("\n```");
    PageView {
        title: literal("Currently downloading torrents:"),
        description: Some(description),
        rows: Vec::new(),
    }
}

/// The answer to the `list` command, given the torrents the Web UI reports
/// (see `list_lowered`; each state is lowercased first).
pub fn list_reply(statuses: &Vec<TorrentStatus>) -> (v: PageView)
    ensures
        shows_downloads(v, downloads_text(downloading_lines(
            statuses@,
            statuses@.map_values(|t: TorrentStatus| lowercase(t.state@)),
        ))),
{
    let mut lowered: Vec<String> = Vec::new();
    let mut i: usize = 0;
    while i < statuses.len()
        invariant
            i <= statuses.len(),
            lowered@.len() == i,
            forall|k: int| 0 <= k < i ==> #[trigger] lowered@[k]@ == lowercase(statuses@[k].state@),
        decreases statuses.len() - i,
    {
        lowered.push(to_lowercase(statuses[i].state.as_str()));
        i = i + 1;
    }
    proof {
        assert(lowered@.map_values(|s: String| s@) =~= statuses@.map_values(|t: TorrentStatus| lowercase(t.state@)));
    }
    list_lowered(statuses, &lowered)
}

} // verus!
