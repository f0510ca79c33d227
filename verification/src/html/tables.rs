//! HTML tables: reading their rows and cells, and writing them back as
//! Markdown (pipe tables, key/value blocks, or the fields of a page's
//! metadata table).
use vstd::prelude::*;
use crate::text::{
    contains, contains_spec, eq_chars, extend_chars, from_chars, join, join_spec, replace,
    replace_char, replace_char_spec, replace_spec, to_chars, to_lowercase, lowercase, trim,
    trim_spec, views,
};

verus! {

/// One cell of a table row: its text as Markdown, whether it is a header
/// cell (`<th>`), and its column span.
pub struct TableCell {
    pub text: String,
    pub is_header: bool,
    pub colspan: usize,
}

/// What the contracts see of a cell.
pub struct CellView {
    pub text: Seq<char>,
    pub is_header: bool,
    pub colspan: nat,
}

impl View for TableCell {
    type V = CellView;

    open spec fn view(&self) -> CellView {
        CellView { text: self.text@, is_header: self.is_header, colspan: self.colspan as nat }
    }
}

/// The view of a row.
pub open spec fn row_view(r: Vec<TableCell>) -> Seq<CellView> {
    r@.map_values(|c: TableCell| c@)
}

/// The views of rows.
pub open spec fn rows_view(rows: Seq<Vec<TableCell>>) -> Seq<Seq<CellView>> {
    rows.map_values(|r: Vec<TableCell>| row_view(r))
}

// ───────────────────────── small helpers ─────────────────────────

/// std `str::replace` with a literal pattern, on characters.
pub(crate) fn replace_lit_str(s: &[char], f: &str, t: &str) -> (r: Vec<char>)
    requires
        f@.len() > 0,
    ensures
        r@ == replace_spec(s@, f@, t@),
{
    let fv = to_chars(f);
    let tv = to_chars(t);
    replace(s, fv.as_slice(), tv.as_slice())
}

/// Whether some key occurs in `s`.
pub open spec fn contains_any(s: Seq<char>, keys: Seq<Seq<char>>) -> bool
    decreases keys.len(),
{
    if keys.len() == 0 {
        false
    } else {
        contains_spec(s, keys.last()) || contains_any(s, keys.drop_last())
    }
}

fn contains_any_exec(s: &[char], keys: &Vec<Vec<char>>) -> (b: bool)
    ensures
        b == contains_any(s@, views(keys@)),
{
    let mut i: usize = 0;
    let mut found = false;
    while i < keys.len()
        invariant
            i <= keys.len(),
            found == contains_any(s@, views(keys@).take(i as int)),
        decreases keys.len() - i,
    {
        let c = contains(s, keys[i].as_slice());
        found = found || c;
        i = i + 1;
        assert(views(keys@).take(i as int).drop_last() =~= views(keys@).take(i - 1));
    }
    assert(views(keys@).take(keys.len() as int) =~= views(keys@));
    found
}

fn push_lit(v: &mut Vec<Vec<char>>, s: &str)
    ensures
        views(final(v)@) == views(old(v)@).push(s@),
{
    let c = to_chars(s);
    v.push(c);
    assert(views(v@) =~= views(old(v)@).push(s@));
}

/// A cell's text, trimmed and lower-cased.
pub open spec fn cell_key(c: CellView) -> Seq<char> {
    lowercase(trim_spec(c.text))
}

fn cell_key_exec(c: &TableCell) -> (r: Vec<char>)
    ensures
        r@ == cell_key(c@),
{
    let t = from_chars(trim(to_chars(c.text.as_str()).as_slice()).as_slice());
    let l = to_lowercase(t.as_str());
    to_chars(l.as_str())
}

// ───────────────────────── metadata tables ─────────────────────────

/// The header names that mark a page's metadata table.
pub open spec fn meta_keys() -> Seq<Seq<char>> {
    seq![
        "document status"@,
        "document owner"@,
        "platform"@,
        "version"@,
        "author"@,
        "created by"@,
    ]
}

/// A row of the metadata kind: two cells or more, a header first, whose
/// name holds one of `meta_keys`.
pub open spec fn is_meta_row(r: Seq<CellView>) -> bool {
    r.len() >= 2 && r[0].is_header && contains_any(cell_key(r[0]), meta_keys())
}

/// The number of metadata rows.
pub open spec fn meta_row_count(rows: Seq<Seq<CellView>>) -> nat
    decreases rows.len(),
{
    if rows.len() == 0 {
        0
    } else {
        meta_row_count(rows.drop_last()) + if is_meta_row(rows.last()) {
            1nat
        } else {
            0nat
        }
    }
}

/// A table is a page's metadata table when two of its rows or more are
/// metadata rows.
pub open spec fn is_metadata_table_spec(rows: Seq<Seq<CellView>>) -> bool {
    meta_row_count(rows) >= 2
}

fn meta_keys_exec() -> (r: Vec<Vec<char>>)
    ensures
        views(r@) == meta_keys(),
{
    let mut r: Vec<Vec<char>> = Vec::new();
    push_lit(&mut r, "document status");
    push_lit(&mut r, "document owner");
    push_lit(&mut r, "platform");
    push_lit(&mut r, "version");
    push_lit(&mut r, "author");
    push_lit(&mut r, "created by");
    assert(views(r@) =~= meta_keys());
    r
}

/// Whether the rows are those of a page's metadata table.
pub fn is_metadata_table(rows: &[Vec<TableCell>]) -> (b: bool)
    ensures
        b == is_metadata_table_spec(rows_view(rows@)),
{
    let keys = meta_keys_exec();
    let mut matches: usize = 0;
    let mut i: usize = 0;
    while i < rows.len()
        invariant
            i <= rows.len(),
            views(keys@) == meta_keys(),
            matches as nat == meta_row_count(rows_view(rows@).take(i as int)),
            matches <= i,
        decreases rows.len() - i,
    {
        let row = &rows[i];
        proof {
            assert(rows_view(rows@)[i as int] == row_view(*row));
        }
        if row.len() >= 2 && row[0].is_header {
            let key = cell_key_exec(&row[0]);
            if contains_any_exec(key.as_slice(), &keys) {
                matches = matches + 1;
            }
        }
        i = i + 1;
        assert(rows_view(rows@).take(i as int).drop_last() =~= rows_view(rows@).take(i - 1));
    }
    assert(rows_view(rows@).take(rows.len() as int) =~= rows_view(rows@));
    matches >= 2
}

/// The header names whose rows are kept from a metadata table.
pub open spec fn keep_keys() -> Seq<Seq<char>> {
    seq!["figma"@, "designer"@, "mrd"@, "business owner"@, "request type"@, "change log"@]
}

/// What a row gives to the kept metadata: `**label:** value` for a kept row
/// with a value.
pub open spec fn meta_field(r: Seq<CellView>) -> Option<Seq<char>> {
    if r.len() >= 2 && contains_any(cell_key(r[0]), keep_keys()) && trim_spec(r[1].text).len() > 0 {
        Some("**"@ + trim_spec(r[0].text) + ":** "@ + trim_spec(r[1].text))
    } else {
        None
    }
}

/// The kept metadata fields, in row order.
pub open spec fn meta_fields(rows: Seq<Seq<CellView>>) -> Seq<Seq<char>>
    decreases rows.len(),
{
    if rows.len() == 0 {
        seq![]
    } else {
        match meta_field(rows.last()) {
            Some(f) => meta_fields(rows.drop_last()).push(f),
            None => meta_fields(rows.drop_last()),
        }
    }
}

fn keep_keys_exec() -> (r: Vec<Vec<char>>)
    ensures
        views(r@) == keep_keys(),
{
    let mut r: Vec<Vec<char>> = Vec::new();
    push_lit(&mut r, "figma");
    push_lit(&mut r, "designer");
    push_lit(&mut r, "mrd");
    push_lit(&mut r, "business owner");
    push_lit(&mut r, "request type");
    push_lit(&mut r, "change log");
    assert(views(r@) =~= keep_keys());
    r
}

/// The kept fields of a metadata table (Figma link, designer, MRD, ...),
/// one paragraph each.
pub fn extract_metadata_fields(rows: &[Vec<TableCell>]) -> (r: Vec<char>)
    ensures
        r@ == join_spec(meta_fields(rows_view(rows@)), "\n\n"@),
{
    let keys = keep_keys_exec();
    let mut out: Vec<Vec<char>> = Vec::new();
    let mut i: usize = 0;
    while i < rows.len()
        invariant
            i <= rows.len(),
            views(keys@) == keep_keys(),
            views(out@) == meta_fields(rows_view(rows@).take(i as int)),
        decreases rows.len() - i,
    {
        let row = &rows[i];
        let ghost prev = views(out@);
        proof {
            assert(rows_view(rows@)[i as int] == row_view(*row));
            assert(rows_view(rows@).take(i + 1).drop_last() =~= rows_view(rows@).take(i as int));
        }
        if row.len() >= 2 {
            let key = cell_key_exec(&row[0]);
            if contains_any_exec(key.as_slice(), &keys) {
                let label = trim(to_chars(row[0].text.as_str()).as_slice());
                let value = trim(to_chars(row[1].text.as_str()).as_slice());
                if value.len() > 0 {
                    let mut f = to_chars("**");
                    extend_chars(&mut f, label.as_slice());
                    extend_chars(&mut f, to_chars(":** ").as_slice());
                    extend_chars(&mut f, value.as_slice());
                    out.push(f);
                    assert(views(out@) =~= prev.push(f@));
                }
            }
        }
        i = i + 1;
    }
    assert(rows_view(rows@).take(rows.len() as int) =~= rows_view(rows@));
    join(&out, to_chars("\n\n").as_slice())
}


// ───────────────────────── pipe tables ─────────────────────────

/// A cell's text in a pipe table: trimmed, line breaks as spaces, pipes
/// escaped.
pub open spec fn pipe_cell(t: Seq<char>) -> Seq<char> {
    replace_spec(replace_char_spec(trim_spec(t), '\n', ' '), "|"@, "\\|"@)
}

/// The cells of a row in a pipe table, padded with empty cells to `cols`.
pub open spec fn pipe_cells(r: Seq<CellView>, cols: nat) -> Seq<Seq<char>> {
    r.map_values(|c: CellView| pipe_cell(c.text)) + Seq::new(
        if r.len() < cols { (cols - r.len()) as nat } else { 0 },
        |i: int| Seq::<char>::empty(),
    )
}

/// A line of a pipe table.
pub open spec fn pipe_line(cells: Seq<Seq<char>>) -> Seq<char> {
    "| "@ + join_spec(cells, " | "@) + " |"@
}

/// The separator line under the first row of a pipe table.
pub open spec fn separator_line(cols: nat) -> Seq<char> {
    pipe_line(Seq::new(cols, |i: int| "---"@))
}

/// The rows as a Markdown pipe table: the first row, the separator, then
/// the other rows. (Whether the first row was a header row changes
/// nothing: without one the separator still follows the first row.)
pub open spec fn pipe_table_spec(rows: Seq<Seq<CellView>>, cols: nat) -> Seq<char> {
    if rows.len() == 0 {
        seq![]
    } else {
        join_spec(
            seq![pipe_line(pipe_cells(rows[0], cols)), separator_line(cols)] + rows.skip(1).map_values(
                |r: Seq<CellView>| pipe_line(pipe_cells(r, cols)),
            ),
            "\n"@,
        )
    }
}

/// Every line of a pipe table has a cell for each column: rows are
/// padded to the widest row's width, and no row is cut.
pub proof fn law_pipe_rows_padded(r: Seq<CellView>, cols: nat)
    ensures
        pipe_cells(r, cols).len() == if r.len() < cols {
            cols
        } else {
            r.len()
        },
{
}

fn pipe_line_exec(cells: &Vec<Vec<char>>) -> (r: Vec<char>)
    ensures
        r@ == pipe_line(views(cells@)),
{
    let mut r = to_chars("| ");
    let j = join(cells, to_chars(" | ").as_slice());
    extend_chars(&mut r, j.as_slice());
    extend_chars(&mut r, to_chars(" |").as_slice());
    r
}

fn separator_exec(cols: usize) -> (r: Vec<char>)
    ensures
        r@ == separator_line(cols as nat),
{
    let mut cells: Vec<Vec<char>> = Vec::new();
    let mut i: usize = 0;
    while i < cols
        invariant
            i <= cols,
            views(cells@) == Seq::new(i as nat, |k: int| "---"@),
        decreases cols - i,
    {
        push_lit(&mut cells, "---");
        i = i + 1;
        assert(views(cells@) =~= Seq::new(i as nat, |k: int| "---"@));
    }
    pipe_line_exec(&cells)
}

fn pipe_row_exec(row: &Vec<TableCell>, cols: usize) -> (r: Vec<char>)
    ensures
        r@ == pipe_line(pipe_cells(row_view(*row), cols as nat)),
{
    let mut cells: Vec<Vec<char>> = Vec::new();
    let mut i: usize = 0;
    let ghost mapped = row_view(*row).map_values(|c: CellView| pipe_cell(c.text));
    while i < row.len()
        invariant
            i <= row.len(),
            mapped == row_view(*row).map_values(|c: CellView| pipe_cell(c.text)),
            views(cells@) == mapped.take(i as int),
        decreases row.len() - i,
    {
        let t = trim(to_chars(row[i].text.as_str()).as_slice());
        let t = replace_char(t.as_slice(), '\n', ' ');
        proof {
            reveal_strlit("|");
        }
        let t = replace_lit_str(t.as_slice(), "|", "\\|");
        let ghost prev = views(cells@);
        cells.push(t);
        proof {
            assert(row_view(*row)[i as int] == row[i as int]@);
            assert(views(cells@) =~= prev.push(t@));
            assert(views(cells@) =~= mapped.take(i + 1));
        }
        i = i + 1;
    }
    assert(mapped.take(row.len() as int) =~= mapped);
    let target = if cols > row.len() {
        cols
    } else {
        row.len()
    };
    assert(views(cells@) =~= mapped + Seq::new(0nat, |k: int| Seq::<char>::empty()));
    while cells.len() < target
        invariant
            row.len() <= cells.len() <= target,
            target == if cols > row.len() { cols } else { row.len() },
            views(cells@) == mapped + Seq::new(
                (cells.len() - row.len()) as nat,
                |k: int| Seq::<char>::empty(),
            ),
            mapped.len() == row.len(),
        decreases target - cells.len(),
    {
        let ghost prev = views(cells@);
        cells.push(Vec::new());
        assert(views(cells@) =~= prev.push(Seq::<char>::empty()));
        assert(views(cells@) =~= mapped + Seq::new(
            (cells.len() - row.len()) as nat,
            |k: int| Seq::<char>::empty(),
        ));
    }
    assert(views(cells@) =~= pipe_cells(row_view(*row), cols as nat));
    pipe_line_exec(&cells)
}

/// Renders rows as a Markdown pipe table of `max_cols` columns: see
/// `pipe_table_spec`.
pub fn table_to_pipe_table(rows: &[Vec<TableCell>], max_cols: usize, has_header_row: bool) -> (r:
    Vec<char>)
    ensures
        r@ == pipe_table_spec(rows_view(rows@), max_cols as nat),
{
    if rows.len() == 0 {
        return Vec::new();
    }
    let mut lines: Vec<Vec<char>> = Vec::new();
    let l0 = pipe_row_exec(&rows[0], max_cols);
    let sep = separator_exec(max_cols);
    lines.push(l0);
    lines.push(sep);
    let ghost rv = rows_view(rows@);
    let ghost rest = rv.skip(1).map_values(
        |r: Seq<CellView>| pipe_line(pipe_cells(r, max_cols as nat)),
    );
    proof {
        assert(rv[0] == row_view(rows@[0]));
        assert(views(lines@) =~= seq![
            pipe_line(pipe_cells(rv[0], max_cols as nat)),
            separator_line(max_cols as nat),
        ]);
    }
    let ghost head = views(lines@);
    let mut i: usize = 1;
    while i < rows.len()
        invariant
            1 <= i <= rows.len(),
            rv == rows_view(rows@),
            rest == rv.skip(1).map_values(
                |r: Seq<CellView>| pipe_line(pipe_cells(r, max_cols as nat)),
            ),
            views(lines@) == head + rest.take(i - 1),
        decreases rows.len() - i,
    {
        let line = pipe_row_exec(&rows[i], max_cols);
        let ghost prev = views(lines@);
        lines.push(line);
        proof {
            assert(rv[i as int] == row_view(rows@[i as int]));
            assert(rest[i - 1] == pipe_line(pipe_cells(rv[i as int], max_cols as nat)));
            assert(views(lines@) =~= prev.push(line@));
            assert(views(lines@) =~= head + rest.take(i as int));
        }
        i = i + 1;
    }
    assert(rest.take(rows.len() - 1) =~= rest);
    join(&lines, to_chars("\n").as_slice())
}

// ───────────────────────── key/value tables ─────────────────────────

/// The paragraphs a row gives in the key/value form: `**key:** value` (or
/// `**key**` with an empty value) for a header cell and one other cell;
/// otherwise each non-blank cell, trimmed.
pub open spec fn kv_blocks_of_row(r: Seq<CellView>) -> Seq<Seq<char>> {
    if r.len() == 0 {
        seq![]
    } else if r.len() == 2 && r[0].is_header && r[0].text.len() > 0 {
        if r[1].text.len() > 0 {
            seq!["**"@ + r[0].text + ":** "@ + r[1].text]
        } else {
            seq!["**"@ + r[0].text + "**"@]
        }
    } else {
        nonblank_cells(r)
    }
}

/// The trimmed texts of the non-blank cells.
pub open spec fn nonblank_cells(r: Seq<CellView>) -> Seq<Seq<char>>
    decreases r.len(),
{
    if r.len() == 0 {
        seq![]
    } else if trim_spec(r.last().text).len() > 0 {
        nonblank_cells(r.drop_last()).push(trim_spec(r.last().text))
    } else {
        nonblank_cells(r.drop_last())
    }
}

/// The paragraphs of all rows.
pub open spec fn kv_blocks(rows: Seq<Seq<CellView>>) -> Seq<Seq<char>>
    decreases rows.len(),
{
    if rows.len() == 0 {
        seq![]
    } else {
        kv_blocks(rows.drop_last()) + kv_blocks_of_row(rows.last())
    }
}

fn kv_row_exec(row: &Vec<TableCell>, out: &mut Vec<Vec<char>>)
    ensures
        views(final(out)@) == views(old(out)@) + kv_blocks_of_row(row_view(*row)),
{
    let ghost rv = row_view(*row);
    if row.len() == 0 {
        assert(views(out@) =~= views(old(out)@) + kv_blocks_of_row(rv));
        return;
    }
    proof {
        assert(rv[0] == row[0]@);
    }
    let key = to_chars(row[0].text.as_str());
    if row.len() == 2 && row[0].is_header && key.len() > 0 {
        let val = to_chars(row[1].text.as_str());
        proof {
            assert(rv[1] == row[1]@);
        }
        let mut f = to_chars("**");
        extend_chars(&mut f, key.as_slice());
        if val.len() > 0 {
            extend_chars(&mut f, to_chars(":** ").as_slice());
            extend_chars(&mut f, val.as_slice());
        } else {
            extend_chars(&mut f, to_chars("**").as_slice());
        }
        out.push(f);
        assert(views(out@) =~= views(old(out)@) + kv_blocks_of_row(rv));
        return;
    }
    let mut i: usize = 0;
    while i < row.len()
        invariant
            i <= row.len(),
            rv == row_view(*row),
            views(out@) == views(old(out)@) + nonblank_cells(rv.take(i as int)),
        decreases row.len() - i,
    {
        let t = trim(to_chars(row[i].text.as_str()).as_slice());
        let ghost prev = views(out@);
        proof {
            assert(rv[i as int] == row[i as int]@);
            assert(rv.take(i + 1).drop_last() =~= rv.take(i as int));
        }
        if t.len() > 0 {
            out.push(t);
            assert(views(out@) =~= prev.push(t@));
        }
        i = i + 1;
    }
    assert(rv.take(row.len() as int) =~= rv);
    assert(views(out@) =~= views(old(out)@) + kv_blocks_of_row(rv));
}

/// The rows in key/value form, one paragraph per block: see `kv_blocks`.
pub fn table_to_key_values(rows: &[Vec<TableCell>]) -> (r: Vec<char>)
    ensures
        r@ == join_spec(kv_blocks(rows_view(rows@)), "\n\n"@),
{
    let mut out: Vec<Vec<char>> = Vec::new();
    let mut i: usize = 0;
    while i < rows.len()
        invariant
            i <= rows.len(),
            views(out@) == kv_blocks(rows_view(rows@).take(i as int)),
        decreases rows.len() - i,
    {
        kv_row_exec(&rows[i], &mut out);
        proof {
            assert(rows_view(rows@)[i as int] == row_view(rows@[i as int]));
            assert(rows_view(rows@).take(i + 1).drop_last() =~= rows_view(rows@).take(i as int));
        }
        i = i + 1;
    }
    assert(rows_view(rows@).take(rows.len() as int) =~= rows_view(rows@));
    join(&out, to_chars("\n\n").as_slice())
}

/// The widest row's number of cells.
pub open spec fn max_cols_spec(rows: Seq<Seq<CellView>>) -> nat
    decreases rows.len(),
{
    if rows.len() == 0 {
        0
    } else {
        let m = max_cols_spec(rows.drop_last());
        if rows.last().len() > m {
            rows.last().len()
        } else {
            m
        }
    }
}

/// Whether every cell of the first row is a header cell.
pub open spec fn header_row_spec(rows: Seq<Seq<CellView>>) -> bool {
    rows.len() > 0 && forall|j: int| 0 <= j < rows[0].len() ==> (#[trigger] rows[0][j]).is_header
}

/// The number of cells of the widest row: see `max_cols_spec`.
pub fn max_cols_exec(rows: &[Vec<TableCell>]) -> (m: usize)
    ensures
        m as nat == max_cols_spec(rows_view(rows@)),
{
    let mut m: usize = 0;
    let mut i: usize = 0;
    while i < rows.len()
        invariant
            i <= rows.len(),
            m as nat == max_cols_spec(rows_view(rows@).take(i as int)),
        decreases rows.len() - i,
    {
        proof {
            assert(rows_view(rows@)[i as int] == row_view(rows@[i as int]));
            assert(rows_view(rows@).take(i + 1).drop_last() =~= rows_view(rows@).take(i as int));
        }
        if rows[i].len() > m {
            m = rows[i].len();
        }
        i = i + 1;
    }
    assert(rows_view(rows@).take(rows.len() as int) =~= rows_view(rows@));
    m
}

/// Decides `header_row_spec`.
pub fn header_row_exec(rows: &[Vec<TableCell>]) -> (b: bool)
    ensures
        b == header_row_spec(rows_view(rows@)),
{
    if rows.len() == 0 {
        return false;
    }
    let row = &rows[0];
    let ghost rv = rows_view(rows@)[0];
    assert(rv == row_view(*row));
    let mut j: usize = 0;
    while j < row.len()
        invariant
            j <= row.len(),
            rows.len() > 0,
            rv == rows_view(rows@)[0],
            rv == row_view(*row),
            forall|k: int| 0 <= k < j ==> (#[trigger] rv[k]).is_header,
        decreases row.len() - j,
    {
        assert(rv[j as int] == row[j as int]@);
        if !row[j].is_header {
            assert(!rows_view(rows@)[0][j as int].is_header);
            return false;
        }
        j = j + 1;
    }
    true
}

} // verus!
