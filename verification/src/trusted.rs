//! The calls into other crates, and the contracts that the rest of the
//! library takes on trust from them.
use vstd::prelude::*;
use crate::text::unsigned_value;

verus! {

/// `reqwest::Error`, carried through the library as it is.
#[verifier::external_type_specification]
#[verifier::external_body]
pub struct ExReqwestError(reqwest::Error);

/// The text that `reqwest::Error` displays (its kind, the address where it
/// has one, and its source). Nothing is claimed of it: what it says comes
/// from the network layer.
#[verifier::external_body]
pub(crate) fn reqwest_error_text(e: &reqwest::Error) -> (t: String) {
    e.to_string()
}

/// `std::num::ParseIntError`, carried through the library as it is.
#[verifier::external_type_specification]
#[verifier::external_body]
pub struct ExParseIntError(std::num::ParseIntError);

/// `regex::Error`, which `Regex::new` gives for a pattern it cannot compile.
#[verifier::external_type_specification]
#[verifier::external_body]
pub struct ExRegexError(regex::Error);

/// Whether `regex::Regex::new` compiles the pattern.
pub uninterp spec fn regex_compiles(pattern: Seq<char>) -> bool;

/// The text of capture group `group` in the leftmost-first match of the
/// pattern in the haystack, as `Regex::captures` and `Captures::get` find
/// it; `None` where there is no match or the group took no part in it.
pub uninterp spec fn regex_group(pattern: Seq<char>, haystack: Seq<char>, group: usize) -> Option<Seq<char>>;

/// The position of the first `"` at or after `j`, or the end of the text.
pub open spec fn next_quote(s: Seq<char>, j: int) -> int
    decreases s.len() - j,
{
    if j >= s.len() {
        s.len() as int
    } else if s[j] == '"' {
        j
    } else {
        next_quote(s, j + 1)
    }
}

/// Whether a `"` follows position `j` before any line break (`.` in a
/// pattern matches every character but `\n`).
pub open spec fn quote_before_line_end(s: Seq<char>, j: int) -> bool
    decreases s.len() - j,
{
    if j < 0 || j >= s.len() {
        false
    } else if s[j] == '"' {
        true
    } else if s[j] == '\n' {
        false
    } else {
        quote_before_line_end(s, j + 1)
    }
}

/// The leftmost text at or after position `i` that starts with `magnet:?`
/// and is followed, on the same line, by a `"`: from `magnet:?` up to (not
/// including) the first `"` after it.
pub open spec fn magnet_link_from(s: Seq<char>, i: int) -> Option<Seq<char>>
    decreases s.len() - i,
{
    if i < 0 || i + 8 > s.len() {
        None
    } else if s.subrange(i, i + 8) == "magnet:?"@ && quote_before_line_end(s, i + 8) {
        Some(s.subrange(i, next_quote(s, i + 8)))
    } else {
        magnet_link_from(s, i + 1)
    }
}

/// The pattern `(?P<link>magnet:\?.*?)"`: a magnet link up to the quote
/// that closes it.
pub open spec fn quoted_magnet_pattern() -> Seq<char> {
    "(?P<link>magnet:\\?.*?)\""@
}

/// Compiles `pattern` with `regex::Regex::new`, searches `haystack` with
/// `Regex::captures` and takes group `group` of the first match with
/// `Captures::get`. Claimed: the call fails exactly when the pattern does
/// not compile, and otherwise gives what `regex_group` names. For the
/// magnet pattern `(?P<link>magnet:\?.*?)"` the regex documentation fixes
/// group 1: leftmost-first search takes the first position where a match
/// starts, `.` matches every character but `\n`, and the lazy `.*?` stops
/// at the first `"`; so the group is `magnet_link_from` the start.
#[verifier::external_body]
pub(crate) fn first_capture(pattern: &str, haystack: &str, group: usize) -> (r: Result<Option<String>, regex::Error>)
    ensures
        r is Ok <==> regex_compiles(pattern@),
        r matches Ok(Some(found)) ==> regex_group(pattern@, haystack@, group) == Some(found@),
        r matches Ok(None) ==> regex_group(pattern@, haystack@, group) is None,
        pattern@ == quoted_magnet_pattern() && group == 1 ==> r is Ok,
        r matches Ok(Some(link)) ==> (pattern@ == quoted_magnet_pattern() && group == 1
            ==> magnet_link_from(haystack@, 0) == Some(link@)),
        r matches Ok(None) ==> (pattern@ == quoted_magnet_pattern() && group == 1
            ==> magnet_link_from(haystack@, 0) is None),
{
    let re = regex::Regex::new(pattern)?;
    match re.captures(haystack) {
        Some(caps) => match caps.get(group) {
            Some(m) => Ok(Some(m.as_str().to_string())),
            None => Ok(None),
        },
        None => Ok(None),
    }
}

/// The Unicode lowercase form of a text, as `str::to_lowercase` makes it.
pub uninterp spec fn lowercase(s: Seq<char>) -> Seq<char>;

/// `str::to_lowercase`. Claimed: the result is what `lowercase` names.
#[verifier::external_body]
pub(crate) fn to_lowercase(s: &str) -> (r: String)
    ensures
        r@ == lowercase(s@),
{
    s.to_lowercase()
}


/// `serde_json::Error`.
#[verifier::external_type_specification]
#[verifier::external_body]
pub struct ExJsonError(serde_json::Error);

/// A lowercase hexadecimal digit.
pub open spec fn hex_digit(d: nat) -> char {
    "0123456789abcdef"@[d as int]
}

/// How `serde_json` writes one character inside a string: `"` and `\` and
/// the control characters that have a short escape get it, the other
/// control characters below `0x20` become `\u00` and two hex digits, and
/// every other character stands as it is.
pub open spec fn json_escape(c: char) -> Seq<char> {
    if c == '"' {
        "\\\""@
    } else if c == '\\' {
        "\\\\"@
    } else if c == '\u{8}' {
        "\\b"@
    } else if c == '\u{c}' {
        "\\f"@
    } else if c == '\n' {
        "\\n"@
    } else if c == '\r' {
        "\\r"@
    } else if c == '\t' {
        "\\t"@
    } else if (c as nat) < 0x20 {
        "\\u00"@ + seq![hex_digit((c as nat) / 16), hex_digit((c as nat) % 16)]
    } else {
        seq![c]
    }
}

/// Each character of a text as `json_escape` writes it.
pub open spec fn json_escaped(s: Seq<char>) -> Seq<char>
    decreases s.len(),
{
    if s.len() == 0 {
        Seq::empty()
    } else {
        json_escaped(s.drop_last()) + json_escape(s.last())
    }
}

/// A text as a JSON string literal, as `serde_json` writes it: in double
/// quotes, each character escaped by `json_escape`.
pub open spec fn json_text(s: Seq<char>) -> Seq<char> {
    "\""@ + json_escaped(s) + "\""@
}

/// `serde_json::to_string` of a string slice. Claimed: the result is `Ok`,
/// holding `json_text` of the slice, as `format_escaped_str` and its
/// `ESCAPE` table write it. (For a `str` the serializer writes into a
/// `Vec<u8>`, which does not fail.)
#[verifier::external_body]
pub(crate) fn json_string(s: &str) -> (r: Result<String, serde_json::Error>)
    ensures
        r is Ok,
        r matches Ok(t) ==> t@ == json_text(s@),
{
    serde_json::to_string(s)
}


/// A text in a foreground colour of the 256-colour palette, as `colorful`
/// writes a coloured string: `ESC[38;5;` and the colour code, `m`, the
/// text, and the reset `ESC[0m`. Styles follow the code after `;`.
pub open spec fn colored(code: Seq<char>, s: Seq<char>) -> Seq<char> {
    "\x1B[38;5;"@ + code + "m"@ + s + "\x1B[0m"@
}

/// The text in green (colour 2).
pub open spec fn green_text(s: Seq<char>) -> Seq<char> {
    colored("2"@, s)
}

/// The text in red (colour 1).
pub open spec fn red_text(s: Seq<char>) -> Seq<char> {
    colored("1"@, s)
}

/// The text in white (colour 15).
pub open spec fn white_text(s: Seq<char>) -> Seq<char> {
    colored("15"@, s)
}

/// The text in red (colour 1), bold (style 1).
pub open spec fn bold_red_text(s: Seq<char>) -> Seq<char> {
    colored("1;1"@, s)
}

/// `Colorful::green` of a text, written out with `Display`. Claimed: the
/// result is `green_text`.
#[verifier::external_body]
pub(crate) fn green(s: &str) -> (r: String)
    ensures
        r@ == green_text(s@),
{
    format!("{}", colorful::Colorful::green(s))
}

/// `Colorful::red` of a text, written out with `Display`. Claimed: the
/// result is `red_text`.
#[verifier::external_body]
pub(crate) fn red(s: &str) -> (r: String)
    ensures
        r@ == red_text(s@),
{
    format!("{}", colorful::Colorful::red(s))
}

/// `Colorful::white` of a text, written out with `Display`. Claimed: the
/// result is `white_text`.
#[verifier::external_body]
pub(crate) fn white(s: &str) -> (r: String)
    ensures
        r@ == white_text(s@),
{
    format!("{}", colorful::Colorful::white(s))
}

/// `Colorful::red` and then `Colorful::bold` of a text (one coloured string
/// with both), written out with `Display`. Claimed: the result is
/// `bold_red_text`.
#[verifier::external_body]
pub(crate) fn bold_red(s: &str) -> (r: String)
    ensures
        r@ == bold_red_text(s@),
{
    format!("{}", colorful::Colorful::bold(colorful::Colorful::red(s)))
}

/// `term_table::Table`.
#[verifier::external_type_specification]
#[verifier::external_body]
pub struct ExTable(term_table::Table);

/// `term_table::row::Row`.
#[verifier::external_type_specification]
#[verifier::external_body]
pub struct ExRow(term_table::row::Row);

/// `term_table::table_cell::TableCell`.
#[verifier::external_type_specification]
#[verifier::external_body]
pub struct ExTableCell(term_table::table_cell::TableCell);

/// A cell of a `term_table` table.
pub type Cell = term_table::table_cell::TableCell;

/// The text of a cell and the number of columns it spans.
pub uninterp spec fn cell_content(c: term_table::table_cell::TableCell) -> (Seq<char>, usize);

/// The cell is centered and padded, as `TableCell::new_with_alignment` with
/// `Alignment::Center` makes it, and spans one or two columns.
pub uninterp spec fn cell_is_centered(c: term_table::table_cell::TableCell) -> bool;

/// The cells of a row, in order, by their content.
pub uninterp spec fn row_cells(r: term_table::row::Row) -> Seq<(Seq<char>, usize)>;

/// The row has a separator, as `Row::new` makes it, and only centered cells.
pub uninterp spec fn row_is_centered(r: term_table::row::Row) -> bool;

/// The rows of a table, in order, by their cells.
pub uninterp spec fn table_rows(t: term_table::Table) -> Seq<Seq<(Seq<char>, usize)>>;

/// Besides its rows, every setting of the table is as `Table::new` leaves it.
pub uninterp spec fn table_has_defaults(t: term_table::Table) -> bool;

/// The table has the simple style, every other setting as `Table::new`
/// leaves it, and only rows that are `row_is_centered`.
pub uninterp spec fn table_is_simple(t: term_table::Table) -> bool;

/// What `Table::render` writes for a table that is `table_is_simple` and has
/// rows with these cell texts and spans.
pub uninterp spec fn simple_table_text(rows: Seq<Seq<(Seq<char>, usize)>>) -> Seq<char>;

/// `TableCell::new_with_alignment` with `Alignment::Center`. Claimed: the
/// cell is centered and holds the text and the span. The span is one or two:
/// `Table::render` panics on a cell that spans no column (it indexes an empty
/// width list, and `Row::format` computes `width + col_span - 1`), and sums
/// and allocates per spanned column.
#[verifier::external_body]
#[allow(deprecated)]
pub(crate) fn centered_cell(text: String, span: usize) -> (c: term_table::table_cell::TableCell)
    requires
        1 <= span <= 2,
    ensures
        cell_content(c) == (text@, span),
        cell_is_centered(c),
{
    term_table::table_cell::TableCell::new_with_alignment(text, span, term_table::table_cell::Alignment::Center)
}

/// `Row::new`. Claimed: the row holds the cells in order, and is centered
/// where all of them are.
#[verifier::external_body]
pub(crate) fn row_of(cells: Vec<term_table::table_cell::TableCell>) -> (r: term_table::row::Row)
    ensures
        row_cells(r) == cells@.map_values(|c: term_table::table_cell::TableCell| cell_content(c)),
        (forall|i: int| 0 <= i < cells@.len() ==> cell_is_centered(#[trigger] cells@[i])) ==> row_is_centered(r),
{
    term_table::row::Row::new(cells)
}

/// `Table::new`. Claimed: the table has no rows and the default settings.
#[verifier::external_body]
pub(crate) fn new_table() -> (t: term_table::Table)
    ensures
        table_rows(t) == Seq::<Seq<(Seq<char>, usize)>>::empty(),
        table_has_defaults(t),
{
    term_table::Table::new()
}

/// Sets the style of a table to `TableStyle::simple()`. Claimed: the rows
/// stay, and a table with no rows and the default settings becomes
/// `table_is_simple`.
#[verifier::external_body]
pub(crate) fn set_simple_style(t: &mut term_table::Table)
    ensures
        table_rows(*final(t)) == table_rows(*old(t)),
        table_has_defaults(*old(t)) && table_rows(*old(t)).len() == 0 ==> table_is_simple(*final(t)),
{
    t.style = term_table::TableStyle::simple();
}

/// `Table::add_row`. Claimed: the row is added after the others, and a
/// simple table stays simple where the row is centered.
#[verifier::external_body]
pub(crate) fn add_row(t: &mut term_table::Table, row: term_table::row::Row)
    ensures
        table_rows(*final(t)) == table_rows(*old(t)).push(row_cells(row)),
        table_is_simple(*old(t)) && row_is_centered(row) ==> table_is_simple(*final(t)),
{
    t.add_row(row);
}

/// `Table::render`, on a simple table only (other tables may hold cells
/// that make it panic). Claimed: the text is what `simple_table_text` names
/// for its rows.
#[verifier::external_body]
pub(crate) fn render(t: &term_table::Table) -> (r: String)
    requires
        table_is_simple(*t),
    ensures
        r@ == simple_table_text(table_rows(*t)),
{
    t.render()
}

/// `str::parse::<u32>`. Claimed, as `u32::from_str_radix` documents it: `Ok`
/// exactly where the text is an optional `+` and digits whose value fits,
/// holding that value.
#[verifier::external_body]
pub(crate) fn parse_u32(s: &str) -> (r: Result<u32, std::num::ParseIntError>)
    ensures
        r is Ok <==> (unsigned_value(s@) matches Some(v) && v <= u32::MAX),
        r matches Ok(v) ==> unsigned_value(s@) == Some(v as nat),
{
    s.parse::<u32>()
}

/// `str::parse::<usize>`. Claimed, as `usize::from_str_radix` documents it:
/// `Ok` exactly where the text is an optional `+` and digits whose value
/// fits, holding that value.
#[verifier::external_body]
pub(crate) fn parse_usize(s: &str) -> (r: Result<usize, std::num::ParseIntError>)
    ensures
        r is Ok <==> (unsigned_value(s@) matches Some(v) && v <= usize::MAX),
        r matches Ok(v) ==> unsigned_value(s@) == Some(v as nat),
{
    s.parse::<usize>()
}

} // verus!
