//! Properties of the library that span several calls or hold of every input.
use vstd::prelude::*;
use crate::bot::{turned, ButtonAction};
use crate::downloads::{after_marker, folder_of};
use crate::deluge::{next_id, with_slash, ID_LIMIT};
use crate::models::{first_n, page_lines, page_results, TorrentHtml, TorrentView};
use crate::pages::{code_block, downloading_lines, downloads_text, page_base, rows_text, shows_results, PageView, TorrentStatus};
use crate::pretty::{pretty_text, table_of};
use crate::trusted::{green_text, red_text, white_text};
use crate::search::{hyphenated, magnet_link};
use crate::trusted::{magnet_link_from, next_quote, quote_before_line_end};
use crate::text::{signed_decimal, trim_end, trim_start, trimmed, white_space, all_digits, decimal, digit_char, digits_value, unsigned_value};

verus! {

/// Keeping the first `n` results and then the first `m` of those keeps the
/// first `min(n, m)`.
pub proof fn law_truncate_twice<A>(s: Seq<A>, n: nat, m: nat)
    ensures
        first_n(first_n(s, n), m) == first_n(s, if n < m { n } else { m }),
{
    assert(first_n(first_n(s, n), m) =~= first_n(s, if n < m { n } else { m }));
}

/// Truncating keeps a prefix of at most `n` results, and all of them where
/// there are no more than `n`.
pub proof fn law_truncate_keeps_prefix<A>(s: Seq<A>, n: nat)
    ensures
        first_n(s, n).len() <= n,
        first_n(s, n).len() <= s.len(),
        s.take(first_n(s, n).len() as int) == first_n(s, n),
        s.len() <= n ==> first_n(s, n) == s,
        s.len() >= n ==> first_n(s, n).len() == n,
{
    assert(s.take(s.len() as int) =~= s);
}

/// The id of a session after `k` requests went through, starting at `id`.
pub open spec fn advanced(id: nat, k: nat) -> nat
    decreases k,
{
    if k == 0 {
        id
    } else {
        next_id(advanced(id, (k - 1) as nat))
    }
}

/// Request ids count up modulo 1024: after `k` requests the id is
/// `(id + k) % 1024`, always below 1024.
pub proof fn law_ids_count_modulo(id: nat, k: nat)
    requires
        id < ID_LIMIT,
    ensures
        advanced(id, k) == (id + k) % (ID_LIMIT as nat),
        advanced(id, k) < ID_LIMIT,
    decreases k,
{
    if k > 0 {
        law_ids_count_modulo(id, (k - 1) as nat);
        let prev = advanced(id, (k - 1) as nat);
        assert(prev == (id + k - 1) % 1024);
        assert((id + k) % 1024 == if prev + 1 >= 1024 { 0 } else { prev + 1 }) by (nonlinear_arith)
            requires
                prev == (id + k - 1) % 1024,
                k >= 1,
        {
        }
    }
}

/// After 1024 requests a session uses the same id again.
pub proof fn law_ids_cycle(id: nat)
    requires
        id < ID_LIMIT,
    ensures
        advanced(id, ID_LIMIT as nat) == id,
{
    law_ids_count_modulo(id, ID_LIMIT as nat);
    assert((id + 1024) % 1024 == id) by (nonlinear_arith)
        requires
            id < 1024,
    {
    }
}

/// A session's endpoint ends with `/`, and adding the `/` again changes
/// nothing.
pub proof fn law_endpoint_slash(endpoint: Seq<char>)
    ensures
        with_slash(endpoint).len() > 0,
        with_slash(endpoint).last() == '/',
        with_slash(with_slash(endpoint)) == with_slash(endpoint),
        endpoint.len() > 0 && endpoint.last() == '/' ==> with_slash(endpoint) == endpoint,
{
}

/// Hyphenating a name keeps its length and every character but the spaces,
/// leaves no space, and a second time changes nothing.
pub proof fn law_hyphenated(name: Seq<char>)
    ensures
        hyphenated(name).len() == name.len(),
        forall|i: int| 0 <= i < name.len() ==> #[trigger] hyphenated(name)[i] != ' ',
        forall|i: int| 0 <= i < name.len() && name[i] != ' ' ==> #[trigger] hyphenated(name)[i] == name[i],
        hyphenated(hyphenated(name)) == hyphenated(name),
{
    assert(hyphenated(hyphenated(name)) =~= hyphenated(name));
}

/// The `<` button undoes the `>` button, and the other way round.
pub proof fn law_back_undoes_forward(page: i64)
    ensures
        turned(page, ButtonAction::Forward) matches Some(q) ==> turned(q, ButtonAction::Back) == Some(page),
        turned(page, ButtonAction::Back) matches Some(q) ==> turned(q, ButtonAction::Forward) == Some(page),
{
}

/// The numeral of a number reads back as that number.
pub proof fn law_decimal_reads_back(n: nat)
    ensures
        unsigned_value(decimal(n)) == Some(n),
    decreases n,
{
    lemma_decimal_digits(n);
}

proof fn lemma_decimal_digits(n: nat)
    ensures
        decimal(n).len() > 0,
        all_digits(decimal(n)),
        decimal(n)[0] != '+',
        digits_value(decimal(n)) == n,
    decreases n,
{
    if n < 10 {
        assert(decimal(n) == seq![digit_char(n)]);
        assert(decimal(n).drop_last() =~= Seq::<char>::empty());
        assert((digit_char(n) as nat) == 48 + n);
        assert(digits_value(decimal(n)) == digits_value(decimal(n).drop_last()) * 10
            + ((decimal(n).last() as nat) - 48) as nat);
    } else {
        lemma_decimal_digits(n / 10);
        let d = decimal(n);
        assert(d == decimal(n / 10).push(digit_char(n % 10)));
        assert(d.drop_last() =~= decimal(n / 10));
        assert(d[0] == decimal(n / 10)[0]);
        assert forall|i: int| 0 <= i < d.len() implies '0' <= #[trigger] d[i] <= '9' by {
            if i < d.len() - 1 {
                assert(d[i] == decimal(n / 10)[i]);
            }
        }
        assert((digit_char(n % 10) as nat) == 48 + n % 10);
        assert(d.last() == digit_char(n % 10));
        assert(digits_value(d) == digits_value(d.drop_last()) * 10 + ((d.last() as nat) - 48) as nat);
        assert(digits_value(d) == (n / 10) * 10 + n % 10);
        assert(n == (n / 10) * 10 + n % 10);
    }
}

/// What follows a marker lies at the end of the text, right after an
/// occurrence of the marker.
pub proof fn law_after_marker(s: Seq<char>, marker: Seq<char>)
    ensures
        after_marker(s, marker) matches Some(t) ==> exists|i: int| #![trigger s.subrange(i, i + marker.len())] 0 <= i
            && i + marker.len() <= s.len()
            && s.subrange(i, i + marker.len()) == marker
            && s.skip(i + marker.len()) == t,
    decreases s.len(),
{
    if s.len() < marker.len() {
    } else if s.take(marker.len() as int) == marker {
        assert(s.subrange(0, marker.len() as int) =~= marker);
        assert(s.skip(0int + marker.len()) == s.skip(marker.len() as int));
    } else if s.len() > 0 {
        law_after_marker(s.drop_first(), marker);
        let r = s.drop_first();
        assert(after_marker(s, marker) == after_marker(r, marker));
        if after_marker(s, marker) is Some {
            let t = after_marker(r, marker)->Some_0;
            assert(exists|i: int| #![trigger r.subrange(i, i + marker.len())] 0 <= i
                && i + marker.len() <= r.len()
                && r.subrange(i, i + marker.len()) == marker && r.skip(i + marker.len()) == t);
            let i = choose|i: int| #![trigger r.subrange(i, i + marker.len())] 0 <= i
                && i + marker.len() <= r.len()
                && r.subrange(i, i + marker.len()) == marker && r.skip(i + marker.len()) == t;
            assert(s.subrange(i + 1, i + 1 + marker.len()) =~= r.subrange(i, i + marker.len()));
            assert(s.skip(i + 1 + marker.len()) =~= r.skip(i + marker.len()));
        }
    }
}

/// A search page lists every line between its header and its last line:
/// two fewer torrents than it has lines, none where it has only one.
pub proof fn law_page_skips_header_and_last(h: TorrentHtml)
    ensures
        page_lines(h) == 0 <==> page_results(h) is None,
        page_results(h) matches Some(ts) ==> ts.len() == (if page_lines(h) >= 2 { page_lines(h) - 2 } else { 0 }),
{
}


/// The `search` command and a turn to page 1 draw the same page: any two
/// messages that show page 1 of the same results for the same query agree
/// on their title, description and buttons.
pub proof fn law_first_page_is_the_same(v1: PageView, v2: PageView, query: Seq<char>, ts: Seq<TorrentView>)
    requires
        shows_results(v1, query, 1, ts),
        shows_results(v2, query, 1, ts),
    ensures
        v1.title@ == v2.title@,
        v1.description->Some_0@ == v2.description->Some_0@,
        rows_text(v1.rows@) == rows_text(v2.rows@),
{
}

/// Pages of at most five torrents number them without overlap: page `page`
/// shows numbers from `5 * (page - 1) + 1` to `5 * page`, and the next page
/// starts right after.
pub proof fn law_page_numbers(page: int, k: int)
    requires
        0 <= k < 5,
    ensures
        5 * (page - 1) + 1 <= page_base(page) + k + 1 <= 5 * page,
        page_base(page + 1) == page_base(page) + 5,
{
}

/// Trimming leaves a text that neither starts nor ends with white space as
/// it is, so a command-line value such as `ten` reaches the number parser
/// unchanged.
pub proof fn law_trim_keeps_bare_text(s: Seq<char>)
    requires
        s.len() == 0 || (!white_space(s[0]) && !white_space(s.last())),
    ensures
        trimmed(s) == s,
{
    assert(trim_start(s) == s);
    assert(trim_end(s) == s);
}

/// In the table of results, every torrent's row shows its own seeds in
/// green under the green `seeds` header and its own leeches in red under the
/// red `leeches` header, beside its name, its size in white over two
/// columns, and its time; the rows follow the results in order.
pub proof fn law_pretty_columns(ts: Seq<TorrentView>, k: int)
    requires
        0 <= k < ts.len(),
    ensures
        pretty_text(Some(ts)) == crate::trusted::simple_table_text(table_of(ts)),
        table_of(ts).len() == ts.len() + 1,
        table_of(ts)[0][1].0 == green_text("seeds"@) + " "@ + white_text(" "@) + " "@,
        table_of(ts)[0][2].0 == red_text("leeches"@) + " "@ + white_text(" "@) + " "@,
        table_of(ts)[0].len() == 5,
        table_of(ts)[0][0] == ("name"@, 1usize),
        table_of(ts)[0][3] == ("size"@, 2usize),
        table_of(ts)[0][4] == ("time"@, 1usize),
        table_of(ts)[k + 1].len() == 5,
        table_of(ts)[k + 1][0] == (ts[k].name, 1usize),
        table_of(ts)[k + 1][1] == (green_text(ts[k].seeds) + white_text(" "@), 1usize),
        table_of(ts)[k + 1][2] == (red_text(ts[k].leeches) + white_text(" "@), 1usize),
        table_of(ts)[k + 1][3] == (white_text(ts[k].size), 2usize),
        table_of(ts)[k + 1][4] == (ts[k].time, 1usize),
{
}

/// Only `Movies` and `Anime` are renamed, to `MV` and `TV`; every other
/// category is its own download folder.
pub proof fn law_folder_names(category: Seq<char>)
    ensures
        category == "Movies"@ ==> folder_of(category) == "MV"@,
        category == "Anime"@ ==> folder_of(category) == "TV"@,
        category != "Movies"@ && category != "Anime"@ ==> folder_of(category) == category,
{
    reveal_strlit("Movies");
    reveal_strlit("Anime");
    assert("Anime"@ != "Movies"@) by {
        assert("Anime"@.len() != "Movies"@.len());
    }
}

/// The lines of the list depend on the states of the torrents listed, and
/// on nothing after them.
proof fn lemma_lines_use_listed_states(ts: Seq<TorrentStatus>, a: Seq<Seq<char>>, b: Seq<Seq<char>>)
    requires
        a.len() >= ts.len(),
        b.len() >= ts.len(),
        forall|k: int| 0 <= k < ts.len() ==> a[k] == b[k],
    ensures
        downloading_lines(ts, a) == downloading_lines(ts, b),
    decreases ts.len(),
{
    if ts.len() > 0 {
        lemma_lines_use_listed_states(ts.drop_last(), a, b);
    }
}

/// A torrent whose lowercased state is not `downloading` adds nothing to
/// the list; one whose state is adds `NAME - PROGRESS%` and a blank line
/// after those before it.
pub proof fn law_list_one_more(ts: Seq<TorrentStatus>, lowered: Seq<Seq<char>>, t: TorrentStatus, state: Seq<char>)
    requires
        lowered.len() == ts.len(),
    ensures
        state != "downloading"@ ==> downloading_lines(ts.push(t), lowered.push(state)) == downloading_lines(ts, lowered),
        state == "downloading"@ ==> downloading_lines(ts.push(t), lowered.push(state))
            == downloading_lines(ts, lowered) + t.name@ + " - "@ + t.progress@ + "%\n\n"@,
{
    lemma_lines_use_listed_states(ts, lowered, lowered.push(state));
    assert(ts.push(t).drop_last() =~= ts);
}

/// Where no torrent's lowercased state is `downloading` (queued, seeding,
/// paused, ...), nothing is listed and the list says so.
pub proof fn law_list_only_downloading(ts: Seq<TorrentStatus>, lowered: Seq<Seq<char>>)
    requires
        lowered.len() >= ts.len(),
        forall|k: int| 0 <= k < ts.len() ==> lowered[k] != "downloading"@,
    ensures
        downloading_lines(ts, lowered).len() == 0,
        downloads_text(downloading_lines(ts, lowered)) == code_block("Not currently downloading anything!"@),
    decreases ts.len(),
{
    if ts.len() > 0 {
        law_list_only_downloading(ts.drop_last(), lowered);
    }
}

/// The `<` and `>` buttons of a page of results carry the query exactly as
/// it was given, the page shown, and `b` or `f`; `<` is left out on page 1.
/// Below them, the button of the `k`-th torrent shown is labelled with its
/// number in the whole listing and carries the query, the page and `k`.
pub proof fn law_turn_buttons_keep_query(v: PageView, query: Seq<char>, page: int, ts: Seq<TorrentView>)
    requires
        shows_results(v, query, page, ts),
    ensures
        rows_text(v.rows@)[0].last().label == ">"@,
        rows_text(v.rows@)[0].last().custom_id
            == "{\"query\": \""@ + query + "\", \"page\": "@ + signed_decimal(page) + ", \"action\": \"f\"}"@,
        page == 1 ==> rows_text(v.rows@)[0].len() == 1,
        page != 1 ==> rows_text(v.rows@)[0].len() == 2 && rows_text(v.rows@)[0][0].label == "<"@
            && rows_text(v.rows@)[0][0].custom_id
            == "{\"query\": \""@ + query + "\", \"page\": "@ + signed_decimal(page) + ", \"action\": \"b\"}"@,
        rows_text(v.rows@)[1].len() == ts.len(),
        forall|k: int| 0 <= k < ts.len() ==> #[trigger] rows_text(v.rows@)[1][k].label == signed_decimal((page - 1) * 5 + k + 1)
            && rows_text(v.rows@)[1][k].custom_id == "{\"action\":\"g\", \"query\": \""@ + query + "\", \"page\": "@
                + signed_decimal(page) + ", \"number\": "@ + signed_decimal(k + 1) + "}"@,
{
    reveal_strlit("{\"query\": \"");
    reveal_strlit("\", \"page\": ");
    reveal_strlit(", \"action\": \"f\"}");
    reveal_strlit(", \"action\": \"b\"}");
    reveal_strlit("{\"query\": ");
    reveal_strlit(", \"page\": ");
    reveal_strlit(", \"action\": \"");
    reveal_strlit("f");
    reveal_strlit("b");
    reveal_strlit("\"}");
    reveal_strlit(">");
    reveal_strlit("<");
    assert(("{\"query\": \""@ + query + "\", \"page\": "@ + signed_decimal(page) + ", \"action\": \"f\"}"@)
        =~= ("{\"query\": "@ + (seq!['"'] + query + seq!['"']) + ", \"page\": "@ + signed_decimal(page) + ", \"action\": \""@ + "f"@ + "\"}"@));
    assert(("{\"query\": \""@ + query + "\", \"page\": "@ + signed_decimal(page) + ", \"action\": \"b\"}"@)
        =~= ("{\"query\": "@ + (seq!['"'] + query + seq!['"']) + ", \"page\": "@ + signed_decimal(page) + ", \"action\": \""@ + "b"@ + "\"}"@));
}

/// Past a stretch of text free of `"` and line breaks, the next `"` is the
/// one that ends it.
proof fn lemma_quote_ends_stretch(p: Seq<char>, j: int, end: int)
    requires
        0 <= j <= end < p.len(),
        p[end] == '"',
        forall|k: int| j <= k < end ==> p[k] != '"' && p[k] != '\n',
    ensures
        next_quote(p, j) == end,
        quote_before_line_end(p, j),
    decreases end - j,
{
    if j < end {
        lemma_quote_ends_stretch(p, j + 1, end);
    }
}

/// Where no link starts before position `start`, the search for one goes on
/// from `start`.
proof fn lemma_no_link_before(p: Seq<char>, i: int, start: int)
    requires
        0 <= i <= start,
        start + 8 <= p.len(),
        forall|k: int| i <= k < start ==> #[trigger] p.subrange(k, k + 8) != "magnet:?"@,
    ensures
        magnet_link_from(p, i) == magnet_link_from(p, start),
    decreases start - i,
{
    if i < start {
        lemma_no_link_before(p, i + 1, start);
    }
}

/// The magnet link found on a page is the whole text from `magnet:?` up to
/// (not including) the `"` that closes it: on a page `a + "magnet:?" + x +
/// '"' + b`, where no link starts inside `a` and `x` holds no `"` and no line
/// break, it is `"magnet:?" + x`, trackers and all.
pub proof fn law_magnet_link_runs_to_quote(a: Seq<char>, x: Seq<char>, b: Seq<char>, page: Seq<char>)
    requires
        page == a + "magnet:?"@ + x + seq!['"'] + b,
        forall|k: int| 0 <= k < a.len() ==> #[trigger] page.subrange(k, k + 8) != "magnet:?"@,
        forall|k: int| 0 <= k < x.len() ==> x[k] != '"' && x[k] != '\n',
    ensures
        magnet_link(page) == Some("magnet:?"@ + x),
{
    reveal_strlit("magnet:?");
    let start = a.len() as int;
    let end = start + 8 + x.len();
    assert(page.subrange(start, start + 8) =~= "magnet:?"@);
    assert(page[end] == '"');
    assert forall|k: int| start + 8 <= k < end implies page[k] != '"' && page[k] != '\n' by {
        assert(page[k] == x[k - start - 8]);
    }
    lemma_quote_ends_stretch(page, start + 8, end);
    lemma_no_link_before(page, 0, start);
    assert(page.subrange(start, end) =~= "magnet:?"@ + x);
}

} // verus!
