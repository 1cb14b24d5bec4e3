//! The coloured table that shows search results in a terminal.
use vstd::prelude::*;
use crate::models::{Results, TorrentView, torrents_view};
use crate::text::push_char;
use crate::trusted::{
    add_row, bold_red, bold_red_text, centered_cell, cell_content, cell_is_centered, green, green_text, new_table,
    red, red_text, render, row_cells, row_of, set_simple_style, simple_table_text, table_is_simple,
    table_rows, white, white_text,
};

verus! {

/// A cell of the table: its text and how many columns it spans.
pub type CellText = (Seq<char>, usize);

/// The header of the table: name, seeds (green), leeches (red), size over
/// two columns, and time.
pub open spec fn header_row() -> Seq<CellText> {
    seq![
        ("name"@, 1usize),
        (green_text("seeds"@) + " "@ + white_text(" "@) + " "@, 1usize),
        (red_text("leeches"@) + " "@ + white_text(" "@) + " "@, 1usize),
        ("size"@, 2usize),
        ("time"@, 1usize),
    ]
}

/// The row of one torrent: its name, seeds in green, leeches in red, size
/// in white over two columns, and time.
pub open spec fn torrent_row(t: TorrentView) -> Seq<CellText> {
    seq![
        (t.name, 1usize),
        (green_text(t.seeds) + white_text(" "@), 1usize),
        (red_text(t.leeches) + white_text(" "@), 1usize),
        (white_text(t.size), 2usize),
        (t.time, 1usize),
    ]
}

/// The rows of the table of the given torrents: the header, then a row for
/// each torrent in order.
pub open spec fn table_of(ts: Seq<TorrentView>) -> Seq<Seq<CellText>> {
    seq![header_row()] + Seq::new(ts.len(), |k: int| torrent_row(ts[k]))
}

/// What `pretty` shows of a result list.
pub open spec fn pretty_text(r: Option<Seq<TorrentView>>) -> Seq<char> {
    match r {
        Some(ts) => simple_table_text(table_of(ts)),
        None => bold_red_text("No results"@),
    }
}

fn cell(text: String, span: usize) -> (c: crate::trusted::Cell)
    requires
        1 <= span <= 2,
    ensures
        cell_content(c) == (text@, span),
        cell_is_centered(c),
{
    centered_cell(text, span)
}

fn concat(a: String, b: &str) -> (r: String)
    ensures
        r@ == a@ + b@,
{
    let mut r = a;
    r.append(b);
    r
}

impl Results {
    /// The results as a table in the simple style of `term_table`, with
    /// seeds in green and leeches in red; `No results` in bold red where
    /// there are none.
    pub fn pretty(&self) -> (s: String)
        ensures
            s@ == pretty_text(self@),
    {
        match self {
            Results::Results(results) => {
                let ghost ts = torrents_view(results@);
                let mut table = new_table();
                set_simple_style(&mut table);
                let space = white(" ");
                let mut header: Vec<crate::trusted::Cell> = Vec::new();
                header.push(cell("name".to_owned(), 1));
                let mut seeds = concat(green("seeds"), " ");
                seeds.append(space.as_str());
                push_char(&mut seeds, ' ');
                proof {
                    reveal_strlit(" ");
                    assert(seeds@ =~= green_text("seeds"@) + " "@ + white_text(" "@) + " "@);
                }
                header.push(cell(seeds, 1));
                let mut leeches = concat(red("leeches"), " ");
                leeches.append(space.as_str());
                push_char(&mut leeches, ' ');
                proof {
                    reveal_strlit(" ");
                    assert(leeches@ =~= red_text("leeches"@) + " "@ + white_text(" "@) + " "@);
                }
                header.push(cell(leeches, 1));
                header.push(cell("size".to_owned(), 2));
                header.push(cell("time".to_owned(), 1));
                proof {
                    reveal_strlit("name");
                    reveal_strlit("size");
                    reveal_strlit("time");
                    reveal_strlit(" ");
                    assert(header@.map_values(|c: crate::trusted::Cell| cell_content(c)) =~= header_row());
                    assert(forall|k: int| 0 <= k < header@.len() ==> cell_is_centered(#[trigger] header@[k]));
                }
                add_row(&mut table, row_of(header));
                let mut i: usize = 0;
                while i < results.len()
                    invariant
                        i <= results.len(),
                        ts == torrents_view(results@),
                        space@ == white_text(" "@),
                        table_is_simple(table),
                        table_rows(table) == table_of(ts.take(i as int)),
                    decreases results.len() - i,
                {
                    let t = &results[i];
                    let mut row: Vec<crate::trusted::Cell> = Vec::new();
                    row.push(cell(t.name.clone(), 1));
                    row.push(cell(concat(green(t.seeds.as_str()), space.as_str()), 1));
                    row.push(cell(concat(red(t.leeches.as_str()), space.as_str()), 1));
                    row.push(cell(white(t.size.as_str()), 2));
                    row.push(cell(t.time.clone(), 1));
                    proof {
                        assert(row@.map_values(|c: crate::trusted::Cell| cell_content(c)) =~= torrent_row(ts[i as int]));
                        assert(forall|k: int| 0 <= k < row@.len() ==> cell_is_centered(#[trigger] row@[k]));
                    }
                    add_row(&mut table, row_of(row));
                    i = i + 1;
                    proof {
                        assert(table_of(ts.take(i as int)) =~= table_of(ts.take(i - 1)).push(torrent_row(ts[i - 1])));
                    }
                }
                proof {
                    assert(ts.take(results.len() as int) =~= ts);
                }
                render(&table)
            },
            Results::NoResults => bold_red("No results"),
        }
    }
}

} // verus!
