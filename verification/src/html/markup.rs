//! Regular-expression driven HTML handling: tags and attributes, entities,
//! finding tables in a text, and reading a table's rows and cells, whose
//! text may itself hold tables.
use vstd::prelude::*;
use crate::html::tables::{
    extract_metadata_fields, header_row_exec, header_row_spec, is_metadata_table,
    is_metadata_table_spec, kv_blocks, max_cols_exec, max_cols_spec, meta_fields, pipe_table_spec,
    replace_lit_str, row_view, rows_view, table_to_key_values, table_to_pipe_table, CellView,
    TableCell,
};
use crate::jira_wiki::{repeat, repeat_exec};
use crate::pattern::{
    Caps,
    caps_view, group, group_text, groups_view, regex_captures, regex_compiles, regex_scan,
    regex_split, replace_all_spec, replace_const, replace_lit, replace_with, replace_wrap, splice,
    splice_from, strings_view, whole_matches, const_step, wrap_step,
    Groups,
};
use crate::text::{
    contains, contains_spec, eq_chars, extend_chars, from_chars, join, join_spec, lines, lines_spec,
    replace_spec, slice_vec, starts_with, starts_with_spec, surround, to_chars, trim, trim_spec,
    views,
};

verus! {

// ───────────────────────── numbers ─────────────────────────

/// An ASCII digit.
pub open spec fn is_digit(c: char) -> bool {
    '0' <= c && c <= '9'
}

/// The value of a string of ASCII digits.
pub open spec fn digits_value(s: Seq<char>) -> nat
    decreases s.len(),
{
    if s.len() == 0 {
        0
    } else {
        digits_value(s.drop_last()) * 10 + (s.last() as nat - '0' as nat) as nat
    }
}

/// Every character an ASCII digit.
pub open spec fn all_digits(d: Seq<char>) -> bool {
    forall|i: int| 0 <= i < d.len() ==> is_digit(#[trigger] d[i])
}

/// std `usize::from_str`: an optional `+`, then one ASCII digit or more,
/// whose value fits a `usize`.
pub open spec fn parse_usize_spec(s: Seq<char>) -> Option<nat> {
    let d = if s.len() > 0 && s[0] == '+' {
        s.skip(1)
    } else {
        s
    };
    if d.len() > 0 && all_digits(d) && digits_value(d) <= usize::MAX {
        Some(digits_value(d))
    } else {
        None
    }
}

/// Parses a `usize` as std's `str::parse::<usize>` does: see
/// `parse_usize_spec`.
pub fn parse_usize(s: &[char]) -> (r: Option<usize>)
    ensures
        match r {
            Some(v) => parse_usize_spec(s@) == Some(v as nat),
            None => parse_usize_spec(s@) is None,
        },
{
    let start: usize = if s.len() > 0 && s[0] == '+' {
        1
    } else {
        0
    };
    let ghost d = if s@.len() > 0 && s@[0] == '+' {
        s@.skip(1)
    } else {
        s@
    };
    assert(d =~= s@.skip(start as int));
    if start >= s.len() {
        return None;
    }
    let mut v: usize = 0;
    let mut i: usize = start;
    while i < s.len()
        invariant
            start <= i <= s.len(),
            start < s.len(),
            d == s@.skip(start as int),
            d == (if s@.len() > 0 && s@[0] == '+' { s@.skip(1) } else { s@ }),
            v as nat == digits_value(s@.subrange(start as int, i as int)),
            forall|k: int| start <= k < i ==> is_digit(#[trigger] s@[k]),
        decreases s.len() - i,
    {
        let c = s[i];
        if !('0' <= c && c <= '9') {
            assert(!is_digit(d[i - start]));
            proof {
                lemma_nondigit_none(s@, d, i - start);
            }
            return None;
        }
        let dv: usize = (c as u32 - '0' as u32) as usize;
        proof {
            assert(s@.subrange(start as int, i + 1).drop_last() =~= s@.subrange(
                start as int,
                i as int,
            ));
        }
        match v.checked_mul(10) {
            None => {
                proof {
                    lemma_digits_prefix_bound(d, i - start + 1);
                    assert(d.take(i - start + 1) =~= s@.subrange(start as int, i + 1));
                    assert(digits_value(s@.subrange(start as int, i + 1)) > usize::MAX);
                    lemma_overflow_none(s@, d);
                }
                return None;
            },
            Some(t) => match t.checked_add(dv) {
                None => {
                    proof {
                        lemma_digits_prefix_bound(d, i - start + 1);
                        assert(d.take(i - start + 1) =~= s@.subrange(start as int, i + 1));
                        assert(digits_value(s@.subrange(start as int, i + 1)) > usize::MAX);
                        lemma_overflow_none(s@, d);
                    }
                    return None;
                },
                Some(n) => {
                    v = n;
                },
            },
        }
        i = i + 1;
    }
    assert(s@.subrange(start as int, s.len() as int) =~= d);
    assert forall|k: int| 0 <= k < d.len() implies is_digit(#[trigger] d[k]) by {
        assert(d[k] == s@[k + start]);
    }
    Some(v)
}

proof fn lemma_overflow_none(s: Seq<char>, d: Seq<char>)
    requires
        d == (if s.len() > 0 && s[0] == '+' { s.skip(1) } else { s }),
        digits_value(d) > usize::MAX,
    ensures
        parse_usize_spec(s) is None,
{
}

proof fn lemma_nondigit_none(s: Seq<char>, d: Seq<char>, j: int)
    requires
        d == (if s.len() > 0 && s[0] == '+' { s.skip(1) } else { s }),
        0 <= j < d.len(),
        !is_digit(d[j]),
    ensures
        parse_usize_spec(s) is None,
{
    assert(!all_digits(d));
}

/// A value of digits is at least the value of any prefix of them.
proof fn lemma_digits_prefix_bound(d: Seq<char>, n: int)
    requires
        0 <= n <= d.len(),
    ensures
        digits_value(d.take(n)) <= digits_value(d),
    decreases d.len() - n,
{
    if n < d.len() {
        lemma_digits_prefix_bound(d, n + 1);
        assert(d.take(n + 1).drop_last() =~= d.take(n));
    } else {
        assert(d.take(n) =~= d);
    }
}


// ───────────────────────── tags and entities ─────────────────────────

/// A match replaced by nothing.
pub open spec fn erase_step() -> spec_fn(Caps) -> Seq<char> {
    |c: Caps| Seq::<char>::empty()
}

/// The text with every tag (`<...>`) removed.
pub open spec fn strip_tags_spec(s: Seq<char>) -> Seq<char> {
    replace_all_spec("<[^>]+>"@, s, erase_step())
}

/// Removes every tag: see `strip_tags_spec`.
pub fn strip_tags(html: &[char]) -> (r: Vec<char>)
    ensures
        r@ == strip_tags_spec(html@),
{
    let f = |c: &Groups| -> (v: Vec<char>)
        ensures
            v@ == (erase_step())(groups_view(*c)),
        { Vec::new() };
    let h = from_chars(html);
    let r = replace_with("<[^>]+>", h.as_str(), f, Ghost(erase_step()));
    to_chars(r.as_str())
}

/// The five entities Confluence writes (`&quot;`, `&amp;`, `&lt;`, `&gt;`,
/// `&#39;`) decoded, one after the other in that order.
pub open spec fn decode_spec(s: Seq<char>) -> Seq<char> {
    let s1 = replace_spec(s, "&quot;"@, "\""@);
    let s2 = replace_spec(s1, "&amp;"@, "&"@);
    let s3 = replace_spec(s2, "&lt;"@, "<"@);
    let s4 = replace_spec(s3, "&gt;"@, ">"@);
    replace_spec(s4, "&#39;"@, "'"@)
}

/// Decodes the entities: see `decode_spec`.
pub fn decode_entities(s: &[char]) -> (r: Vec<char>)
    ensures
        r@ == decode_spec(s@),
{
    proof {
        reveal_strlit("&quot;");
        reveal_strlit("&amp;");
        reveal_strlit("&lt;");
        reveal_strlit("&gt;");
        reveal_strlit("&#39;");
    }
    let s1 = replace_lit_str(s, "&quot;", "\"");
    let s2 = replace_lit_str(s1.as_slice(), "&amp;", "&");
    let s3 = replace_lit_str(s2.as_slice(), "&lt;", "<");
    let s4 = replace_lit_str(s3.as_slice(), "&gt;", ">");
    replace_lit_str(s4.as_slice(), "&#39;", "'")
}

/// The pattern that finds `name="value"` in a tag.
pub open spec fn attr_pattern(name: Seq<char>) -> Seq<char> {
    name + "=\"([^\"]*)\""@
}

/// The value of the first `name="value"` in a tag; `None` where there is
/// none (or the name makes no valid pattern).
pub open spec fn extract_attr_spec(tag: Seq<char>, name: Seq<char>) -> Option<Seq<char>> {
    let p = attr_pattern(name);
    if regex_compiles(p) && regex_captures(p, tag).len() > 0 {
        Some(group(regex_captures(p, tag)[0], 1))
    } else {
        None
    }
}

/// Reads an attribute of a tag: see `extract_attr_spec`.
pub fn extract_attr(tag: &[char], attr_name: &[char]) -> (r: Option<Vec<char>>)
    ensures
        match r {
            Some(v) => extract_attr_spec(tag@, attr_name@) == Some(v@),
            None => extract_attr_spec(tag@, attr_name@) is None,
        },
{
    let mut p = slice_vec(attr_name, 0, attr_name.len());
    extend_chars(&mut p, to_chars("=\"([^\"]*)\"").as_slice());
    assert(p@ =~= attr_pattern(attr_name@));
    let ps = from_chars(p.as_slice());
    let ts = from_chars(tag);
    match regex_scan(ps.as_str(), ts.as_str()) {
        None => None,
        Some((_gaps, caps)) => {
            if caps.len() > 0 {
                proof {
                    assert(caps_view(caps@)[0] == groups_view(caps@[0]));
                }
                Some(group_text(&caps[0], 1))
            } else {
                None
            }
        },
    }
}


// ───────────────────────── finding tables ─────────────────────────

/// The characters held by an optional vector.
pub open spec fn opt_chars(o: Option<Vec<char>>) -> Option<Seq<char>> {
    match o {
        Some(v) => Some(v@),
        None => None,
    }
}

/// The table tags: an opening `<table` tag or a closing `</table>`.
pub open spec fn table_tag_pattern() -> Seq<char> {
    r"<table[\s>]|</table>"@
}

/// Walks the table tags from tag `k` on. Before the first opening tag the
/// text goes to `pre` (closing tags there count for nothing); from it on
/// the text goes to the table, opening tags deepen and closing tags
/// lighten it, and the closing tag that brings the depth back to zero ends
/// it: the result is the text before the table, the table, and the text
/// after it.
pub open spec fn top_from(
    g: Seq<Seq<char>>,
    w: Seq<Seq<char>>,
    k: int,
    depth: int,
    pre: Seq<char>,
    tab: Option<Seq<char>>,
) -> Option<(Seq<char>, Seq<char>, Seq<char>)>
    decreases w.len() - k,
{
    if k < 0 || k >= w.len() || k >= g.len() {
        None
    } else {
        let m = w[k];
        let closing = starts_with_spec(m, "</"@);
        match tab {
            None => if closing {
                top_from(g, w, k + 1, depth, pre + g[k] + m, None)
            } else {
                top_from(g, w, k + 1, 1, pre + g[k], Some(m))
            },
            Some(t) => {
                let t2 = t + g[k] + m;
                if !closing {
                    top_from(g, w, k + 1, depth + 1, pre, Some(t2))
                } else if depth - 1 == 0 {
                    Some((pre, t2, splice(g.skip(k + 1), w.skip(k + 1))))
                } else {
                    top_from(g, w, k + 1, depth - 1, pre, Some(t2))
                }
            },
        }
    }
}

/// The first top-level table of a text, nested tables inside it included:
/// the text before it, the table, and the text after it.
pub open spec fn top_table_spec(html: Seq<char>) -> Option<(Seq<char>, Seq<char>, Seq<char>)> {
    let p = table_tag_pattern();
    if regex_compiles(p) {
        top_from(
            regex_split(p, html),
            whole_matches(regex_captures(p, html)),
            0,
            0,
            Seq::<char>::empty(),
            None,
        )
    } else {
        None
    }
}

/// Finds the first top-level table: see `top_table_spec`.
pub fn find_top_level_table(html: &[char]) -> (r: Option<(Vec<char>, Vec<char>, Vec<char>)>)
    ensures
        match r {
            Some((a, b, c)) => top_table_spec(html@) == Some((a@, b@, c@)),
            None => top_table_spec(html@) is None,
        },
{
    let hs = from_chars(html);
    match regex_scan(r"<table[\s>]|</table>", hs.as_str()) {
        None => None,
        Some((gaps, caps)) => {
            let ghost g = strings_view(gaps@);
            let ghost w = whole_matches(caps_view(caps@));
            let mut k: usize = 0;
            let mut depth: usize = 0;
            let mut pre: Vec<char> = Vec::new();
            let mut tab: Option<Vec<char>> = None;
            let close_mark = to_chars("</");
            while k < caps.len()
                invariant
                    gaps@.len() == caps@.len() + 1,
                    g == strings_view(gaps@),
                    w == whole_matches(caps_view(caps@)),
                    close_mark@ == "</"@,
                    k <= caps.len(),
                    depth <= k,
                    tab is Some ==> depth >= 1,
                    top_table_spec(html@) == top_from(
                        g,
                        w,
                        k as int,
                        depth as int,
                        pre@,
                        opt_chars(tab),
                    ),
                decreases caps.len() - k,
            {
                let m = group_text(&caps[k], 0);
                proof {
                    assert(caps_view(caps@)[k as int] == groups_view(caps@[k as int]));
                    assert(w[k as int] == m@);
                }
                let gk = to_chars(gaps[k].as_str());
                let closing = starts_with(m.as_slice(), close_mark.as_slice());
                match tab {
                    None => {
                        extend_chars(&mut pre, gk.as_slice());
                        if closing {
                            extend_chars(&mut pre, m.as_slice());
                            tab = None;
                        } else {
                            tab = Some(m);
                            depth = 1;
                        }
                    },
                    Some(t) => {
                        let mut t2 = t;
                        extend_chars(&mut t2, gk.as_slice());
                        extend_chars(&mut t2, m.as_slice());
                        if !closing {
                            depth = depth + 1;
                            tab = Some(t2);
                        } else if depth == 1 {
                            let rest = splice_from(&gaps, &caps, k + 1);
                            return Some((pre, t2, rest));
                        } else {
                            depth = depth - 1;
                            tab = Some(t2);
                        }
                    },
                }
                k = k + 1;
            }
            None
        },
    }
}


// ───────────────────────── rows, cells and cell text ─────────────────────────
//
// A cell's text may hold tables of its own, which are read with the same
// functions: the three below call each other. Each call carries a budget
// that the nested reading takes one from, and a cell flattens at most
// `budget` nested tables; callers pass the length of the text, which no
// real nesting reaches.

/// The row and table tags (`<tr ...>`, `</tr>`, `<table ...>`, `</table>`).
pub open spec fn row_tag_pattern() -> Seq<char> {
    r"<(/?)(?:table|tr)\b[^>]*>"@
}

/// The cells of a row: tag name, attributes, content.
pub open spec fn cell_pattern() -> Seq<char> {
    r#"(?s)<(t[dh])\b([^>]*)>(.*?)</t[dh]>"#@
}

/// A column span in a cell's attributes.
pub open spec fn colspan_pattern() -> Seq<char> {
    r#"colspan="(\d+)""#@
}

/// The column span a cell's attributes give: the number in the first
/// `colspan="n"`, 1 where there is none or it does not parse.
pub open spec fn colspan_spec(attrs: Seq<char>) -> nat {
    let p = colspan_pattern();
    if regex_compiles(p) && regex_captures(p, attrs).len() > 0 {
        match parse_usize_spec(group(regex_captures(p, attrs)[0], 1)) {
            Some(v) => v,
            None => 1,
        }
    } else {
        1
    }
}

/// The optional text with `x` appended.
pub open spec fn append_opt(o: Option<Seq<char>>, x: Seq<char>) -> Option<Seq<char>> {
    match o {
        Some(t) => Some(t + x),
        None => None,
    }
}

/// The rows of a table's text: see `rows_from`.
pub open spec fn table_rows_spec(html: Seq<char>, fuel: nat) -> Seq<Seq<CellView>>
    decreases fuel, 5nat, 0nat,
{
    let p = row_tag_pattern();
    if regex_compiles(p) {
        rows_from(
            regex_split(p, html),
            whole_matches(regex_captures(p, html)),
            0,
            0,
            None,
            fuel,
        )
    } else {
        seq![]
    }
}

/// Walks the row and table tags from tag `k` on, at table depth `depth`
/// (only rows of the outermost table count), with `cur` the text of the
/// row opened so far. A row's text runs from its `<tr` to its `</tr>`; a
/// row with no cells is dropped.
pub open spec fn rows_from(
    g: Seq<Seq<char>>,
    w: Seq<Seq<char>>,
    k: int,
    depth: int,
    cur: Option<Seq<char>>,
    fuel: nat,
) -> Seq<Seq<CellView>>
    decreases fuel, 4nat, w.len() - k,
{
    if k < 0 || k >= w.len() || k >= g.len() {
        seq![]
    } else {
        let m = w[k];
        let t1 = append_opt(cur, g[k]);
        if starts_with_spec(m, "<table"@) {
            rows_from(g, w, k + 1, depth + 1, append_opt(t1, m), fuel)
        } else if starts_with_spec(m, "</table"@) {
            rows_from(g, w, k + 1, depth - 1, append_opt(t1, m), fuel)
        } else if starts_with_spec(m, "<tr"@) && depth == 1 {
            rows_from(g, w, k + 1, depth, Some(m), fuel)
        } else if starts_with_spec(m, "</tr"@) && depth == 1 {
            match t1 {
                Some(t) => {
                    let row = cells_spec(t + m, fuel);
                    (if row.len() > 0 {
                        seq![row]
                    } else {
                        seq![]
                    }) + rows_from(g, w, k + 1, depth, None, fuel)
                },
                None => rows_from(g, w, k + 1, depth, None, fuel),
            }
        } else {
            rows_from(g, w, k + 1, depth, append_opt(t1, m), fuel)
        }
    }
}

/// The cells of a row's text.
pub open spec fn cells_spec(tr: Seq<char>, fuel: nat) -> Seq<CellView>
    decreases fuel, 3nat, 0nat,
{
    let p = cell_pattern();
    if regex_compiles(p) {
        cells_from(regex_captures(p, tr), 0, fuel)
    } else {
        seq![]
    }
}

/// The cells of the matches from `k` on: header or not by the tag, the
/// column span from the attributes, the text from the content.
pub open spec fn cells_from(caps: Seq<Caps>, k: int, fuel: nat) -> Seq<CellView>
    decreases fuel, 2nat, caps.len() - k,
{
    if k < 0 || k >= caps.len() {
        seq![]
    } else {
        let c = caps[k];
        seq![
            CellView {
                text: cell_text_spec(group(c, 3), fuel),
                is_header: group(c, 1) == "th"@,
                colspan: colspan_spec(group(c, 2)),
            },
        ] + cells_from(caps, k + 1, fuel)
    }
}

/// The text of a cell as Markdown: nested tables flattened, then images,
/// links, headings, bold, italics, line breaks, list items and paragraphs
/// converted, other tags removed, entities decoded, non-breaking spaces
/// made spaces, each line trimmed, runs of blank lines shortened, and the
/// whole trimmed.
pub open spec fn cell_text_spec(html: Seq<char>, fuel: nat) -> Seq<char>
    decreases fuel, 1nat, 0nat,
{
    let t0 = if contains_spec(html, "<table"@) {
        flatten_spec(html, fuel, fuel)
    } else {
        html
    };
    cell_markup_spec(t0)
}

/// Nested tables replaced, one after the other, by their compact form.
pub open spec fn flatten_spec(text: Seq<char>, rounds: nat, fuel: nat) -> Seq<char>
    decreases fuel, 0nat, rounds,
{
    if rounds == 0 || fuel == 0 {
        text
    } else {
        match top_table_spec(text) {
            None => text,
            Some((pre, tab, post)) => flatten_spec(
                pre + "\n"@ + compact_table(table_rows_spec(tab, (fuel - 1) as nat)) + "\n"@ + post,
                (rounds - 1) as nat,
                fuel,
            ),
        }
    }
}

/// One value of a nested table's row: `header: value`, or the value alone
/// where the column has no header; nothing for a blank value.
pub open spec fn compact_value(c: CellView, i: int, headers: Seq<Seq<char>>) -> Option<Seq<char>> {
    let val = trim_spec(c.text);
    if val.len() == 0 {
        None
    } else {
        let header = if 0 <= i < headers.len() {
            headers[i]
        } else {
            Seq::<char>::empty()
        };
        if header.len() == 0 {
            Some(val)
        } else {
            Some(header + ": "@ + val)
        }
    }
}

/// The values of a row, in order.
pub open spec fn compact_values(r: Seq<CellView>, headers: Seq<Seq<char>>) -> Seq<Seq<char>>
    decreases r.len(),
{
    if r.len() == 0 {
        seq![]
    } else {
        match compact_value(r.last(), r.len() - 1, headers) {
            Some(v) => compact_values(r.drop_last(), headers).push(v),
            None => compact_values(r.drop_last(), headers),
        }
    }
}

/// The lines of the rows after the first: each row's values joined by
/// ` | `, rows without values left out.
pub open spec fn compact_lines(rows: Seq<Seq<CellView>>, headers: Seq<Seq<char>>) -> Seq<Seq<char>>
    decreases rows.len(),
{
    if rows.len() == 0 {
        seq![]
    } else {
        let vals = compact_values(rows.last(), headers);
        if vals.len() > 0 {
            compact_lines(rows.drop_last(), headers).push(join_spec(vals, " | "@))
        } else {
            compact_lines(rows.drop_last(), headers)
        }
    }
}

/// A nested table in compact form: the first row gives the headers, and
/// each other row a line.
pub open spec fn compact_table(rows: Seq<Seq<CellView>>) -> Seq<char> {
    if rows.len() == 0 {
        seq![]
    } else {
        join_spec(compact_lines(rows.skip(1), rows[0].map_values(|c: CellView| c.text)), "\n"@)
    }
}

/// An image as a Markdown image on its own line.
pub open spec fn cell_image_step() -> spec_fn(Caps) -> Seq<char> {
    |c: Caps|
        {
            let alt = match extract_attr_spec(group(c, 0), "alt"@) {
                Some(a) => a,
                None => Seq::<char>::empty(),
            };
            "\n\n!["@ + alt + "]("@ + group(c, 1) + ")\n\n"@
        }
}

/// A link as a Markdown link; the bare URL where its text is blank.
pub open spec fn cell_link_step() -> spec_fn(Caps) -> Seq<char> {
    |c: Caps|
        {
            let text = trim_spec(strip_tags_spec(group(c, 2)));
            if text.len() == 0 {
                group(c, 1)
            } else {
                "["@ + text + "]("@ + group(c, 1) + ")"@
            }
        }
}

/// A heading as a Markdown heading of its level (3 where the level does
/// not parse).
pub open spec fn cell_heading_step() -> spec_fn(Caps) -> Seq<char> {
    |c: Caps|
        {
            let level = match parse_usize_spec(group(c, 2)) {
                Some(v) => v,
                None => 3,
            };
            "\n\n"@ + repeat("#"@, level) + " "@ + trim_spec(strip_tags_spec(group(c, 3))) + "\n\n"@
        }
}

/// A list item as a Markdown list line.
pub open spec fn cell_item_step() -> spec_fn(Caps) -> Seq<char> {
    |c: Caps| "\n- "@ + trim_spec(strip_tags_spec(group(c, 1)))
}

/// Each line trimmed.
pub open spec fn trim_lines_spec(s: Seq<char>) -> Seq<char> {
    join_spec(lines_spec(s).map_values(|l: Seq<char>| trim_spec(l)), "\n"@)
}

/// Runs of three line breaks or more made two.
pub open spec fn collapse_blank_spec(s: Seq<char>) -> Seq<char> {
    replace_all_spec(r"\n{3,}"@, s, const_step("\n\n"@))
}

/// The markup of a cell's text converted: see `cell_text_spec`.
pub open spec fn cell_markup_spec(t0: Seq<char>) -> Seq<char> {
    let t1 = replace_all_spec(r#"<img[^>]*\bsrc="([^"]+)"[^>]*>"#@, t0, cell_image_step());
    let t2 = replace_all_spec(r#"(?s)<a[^>]*\bhref="([^"]+)"[^>]*>(.*?)</a>"#@, t1, cell_link_step());
    let t3 = replace_all_spec(r"(?s)<(h)(\d)[^>]*>(.*?)</h\d>"@, t2, cell_heading_step());
    let t4 = replace_all_spec(
        r"(?s)<(?:strong|b)>(.*?)</(?:strong|b)>"@,
        t3,
        wrap_step("**"@, 1, "**"@),
    );
    let t5 = replace_all_spec(r"(?s)<(?:em|i)>(.*?)</(?:em|i)>"@, t4, wrap_step("*"@, 1, "*"@));
    let t6 = replace_all_spec(r"<br\s*/?>"@, t5, const_step("\n"@));
    let t7 = replace_all_spec(r"(?s)<li[^>]*>(.*?)</li>"@, t6, cell_item_step());
    let t8 = replace_all_spec(r"(?s)<p[^>]*>(.*?)</p>"@, t7, wrap_step("\n"@, 1, "\n"@));
    let t9 = decode_spec(strip_tags_spec(t8));
    let t10 = replace_spec(t9, "\u{a0}"@, " "@);
    trim_spec(collapse_blank_spec(trim_lines_spec(t10)))
}


fn cell_image(c: &Groups) -> (v: Vec<char>)
    ensures
        v@ == (cell_image_step())(groups_view(*c)),
{
    let whole = group_text(c, 0);
    let alt = match extract_attr(whole.as_slice(), to_chars("alt").as_slice()) {
        Some(a) => a,
        None => Vec::new(),
    };
    let mut v = surround("\n\n![", alt.as_slice(), "](");
    extend_chars(&mut v, group_text(c, 1).as_slice());
    extend_chars(&mut v, to_chars(")\n\n").as_slice());
    v
}

fn cell_link(c: &Groups) -> (v: Vec<char>)
    ensures
        v@ == (cell_link_step())(groups_view(*c)),
{
    let text = trim(strip_tags(group_text(c, 2).as_slice()).as_slice());
    if text.len() == 0 {
        group_text(c, 1)
    } else {
        let mut v = surround("[", text.as_slice(), "](");
        extend_chars(&mut v, group_text(c, 1).as_slice());
        extend_chars(&mut v, to_chars(")").as_slice());
        v
    }
}

fn cell_heading(c: &Groups) -> (v: Vec<char>)
    ensures
        v@ == (cell_heading_step())(groups_view(*c)),
{
    let level = match parse_usize(group_text(c, 2).as_slice()) {
        Some(n) => n,
        None => 3,
    };
    let hashes = repeat_exec(to_chars("#").as_slice(), level);
    let mut v = surround("\n\n", hashes.as_slice(), " ");
    let content = trim(strip_tags(group_text(c, 3).as_slice()).as_slice());
    extend_chars(&mut v, content.as_slice());
    extend_chars(&mut v, to_chars("\n\n").as_slice());
    v
}

fn cell_item(c: &Groups) -> (v: Vec<char>)
    ensures
        v@ == (cell_item_step())(groups_view(*c)),
{
    let content = trim(strip_tags(group_text(c, 1).as_slice()).as_slice());
    let mut v = to_chars("\n- ");
    extend_chars(&mut v, content.as_slice());
    v
}

/// Trims every line: see `trim_lines_spec`.
pub fn trim_lines(s: &[char]) -> (r: Vec<char>)
    ensures
        r@ == trim_lines_spec(s@),
{
    let ls = lines(s);
    let ghost target = lines_spec(s@).map_values(|l: Seq<char>| trim_spec(l));
    let mut out: Vec<Vec<char>> = Vec::new();
    let mut i: usize = 0;
    while i < ls.len()
        invariant
            i <= ls.len(),
            views(ls@) == lines_spec(s@),
            target == lines_spec(s@).map_values(|l: Seq<char>| trim_spec(l)),
            views(out@) == target.take(i as int),
        decreases ls.len() - i,
    {
        let t = trim(ls[i].as_slice());
        let ghost prev = views(out@);
        out.push(t);
        proof {
            assert(views(ls@)[i as int] == ls@[i as int]@);
            assert(views(out@) =~= prev.push(t@));
            assert(views(out@) =~= target.take(i + 1));
        }
        i = i + 1;
    }
    assert(target.take(ls.len() as int) =~= target);
    join(&out, to_chars("\n").as_slice())
}

/// Shortens runs of blank lines: see `collapse_blank_spec`.
pub fn collapse_blank(s: &[char]) -> (r: Vec<char>)
    ensures
        r@ == collapse_blank_spec(s@),
{
    let h = from_chars(s);
    let r = replace_const(r"\n{3,}", h.as_str(), "\n\n");
    to_chars(r.as_str())
}

/// Converts the markup of a cell's text: see `cell_markup_spec`.
pub fn cell_markup(t0: &[char]) -> (r: Vec<char>)
    ensures
        r@ == cell_markup_spec(t0@),
{
    let h = from_chars(t0);
    let f1 = |c: &Groups| -> (v: Vec<char>)
        ensures
            v@ == (cell_image_step())(groups_view(*c)),
        { cell_image(c) };
    let t1 = replace_with(
        r#"<img[^>]*\bsrc="([^"]+)"[^>]*>"#,
        h.as_str(),
        f1,
        Ghost(cell_image_step()),
    );
    let f2 = |c: &Groups| -> (v: Vec<char>)
        ensures
            v@ == (cell_link_step())(groups_view(*c)),
        { cell_link(c) };
    let t2 = replace_with(
        r#"(?s)<a[^>]*\bhref="([^"]+)"[^>]*>(.*?)</a>"#,
        t1.as_str(),
        f2,
        Ghost(cell_link_step()),
    );
    let f3 = |c: &Groups| -> (v: Vec<char>)
        ensures
            v@ == (cell_heading_step())(groups_view(*c)),
        { cell_heading(c) };
    let t3 = replace_with(
        r"(?s)<(h)(\d)[^>]*>(.*?)</h\d>",
        t2.as_str(),
        f3,
        Ghost(cell_heading_step()),
    );
    let t4 = replace_wrap(r"(?s)<(?:strong|b)>(.*?)</(?:strong|b)>", t3.as_str(), "**", 1, "**");
    let t5 = replace_wrap(r"(?s)<(?:em|i)>(.*?)</(?:em|i)>", t4.as_str(), "*", 1, "*");
    let t6 = replace_const(r"<br\s*/?>", t5.as_str(), "\n");
    let f7 = |c: &Groups| -> (v: Vec<char>)
        ensures
            v@ == (cell_item_step())(groups_view(*c)),
        { cell_item(c) };
    let t7 = replace_with(r"(?s)<li[^>]*>(.*?)</li>", t6.as_str(), f7, Ghost(cell_item_step()));
    let t8 = replace_wrap(r"(?s)<p[^>]*>(.*?)</p>", t7.as_str(), "\n", 1, "\n");
    let t9 = decode_entities(strip_tags(to_chars(t8.as_str()).as_slice()).as_slice());
    proof {
        reveal_strlit("\u{a0}");
    }
    let t10 = replace_lit_str(t9.as_slice(), "\u{a0}", " ");
    let t11 = trim_lines(t10.as_slice());
    let t12 = collapse_blank(t11.as_slice());
    trim(t12.as_slice())
}

/// The column span of a cell: see `colspan_spec`.
pub fn colspan(attrs: &[char]) -> (r: usize)
    ensures
        r as nat == colspan_spec(attrs@),
{
    let a = from_chars(attrs);
    match regex_scan(r#"colspan="(\d+)""#, a.as_str()) {
        None => 1,
        Some((_gaps, caps)) => {
            if caps.len() > 0 {
                proof {
                    assert(caps_view(caps@)[0] == groups_view(caps@[0]));
                }
                match parse_usize(group_text(&caps[0], 1).as_slice()) {
                    Some(v) => v,
                    None => 1,
                }
            } else {
                1
            }
        },
    }
}

fn compact_values_exec(row: &Vec<TableCell>, headers: &Vec<Vec<char>>) -> (r: Vec<Vec<char>>)
    ensures
        views(r@) == compact_values(row_view(*row), views(headers@)),
{
    let ghost rv = row_view(*row);
    let ghost hv = views(headers@);
    let mut out: Vec<Vec<char>> = Vec::new();
    let mut i: usize = 0;
    while i < row.len()
        invariant
            i <= row.len(),
            rv == row_view(*row),
            hv == views(headers@),
            views(out@) == compact_values(rv.take(i as int), hv),
        decreases row.len() - i,
    {
        let ghost prev = views(out@);
        proof {
            assert(rv[i as int] == row[i as int]@);
            assert(rv.take(i + 1).drop_last() =~= rv.take(i as int));
            assert(rv.take(i + 1).last() == rv[i as int]);
        }
        let val = trim(to_chars(row[i].text.as_str()).as_slice());
        if val.len() > 0 {
            let header: Vec<char> = if i < headers.len() {
                slice_vec(headers[i].as_slice(), 0, headers[i].len())
            } else {
                Vec::new()
            };
            proof {
                if i < headers.len() {
                    assert(hv[i as int] == headers@[i as int]@);
                    assert(header@ =~= hv[i as int]);
                }
            }
            let v = if header.len() == 0 {
                val
            } else {
                let mut v = surround("", header.as_slice(), ": ");
                proof {
                    reveal_strlit("");
                    assert(v@ =~= header@ + ": "@);
                }
                extend_chars(&mut v, val.as_slice());
                v
            };
            out.push(v);
            assert(views(out@) =~= prev.push(v@));
        }
        i = i + 1;
    }
    assert(rv.take(row.len() as int) =~= rv);
    out
}

/// A nested table in compact form: see `compact_table`.
pub fn compact_table_exec(rows: &Vec<Vec<TableCell>>) -> (r: Vec<char>)
    ensures
        r@ == compact_table(rows_view(rows@)),
{
    let ghost rv = rows_view(rows@);
    if rows.len() == 0 {
        return Vec::new();
    }
    let mut headers: Vec<Vec<char>> = Vec::new();
    let first = &rows[0];
    let mut j: usize = 0;
    while j < first.len()
        invariant
            j <= first.len(),
            rows.len() > 0,
            first == &rows@[0],
            views(headers@) == row_view(*first).map_values(|c: CellView| c.text).take(j as int),
        decreases first.len() - j,
    {
        let ghost prev = views(headers@);
        let t = to_chars(first[j].text.as_str());
        headers.push(t);
        proof {
            assert(row_view(*first)[j as int] == first[j as int]@);
            assert(views(headers@) =~= prev.push(t@));
            assert(views(headers@) =~= row_view(*first).map_values(|c: CellView| c.text).take(
                j + 1,
            ));
        }
        j = j + 1;
    }
    assert(row_view(*first).map_values(|c: CellView| c.text).take(first.len() as int)
        =~= row_view(*first).map_values(|c: CellView| c.text));
    assert(rv[0] == row_view(*first));
    let ghost hv = views(headers@);
    assert(hv == rv[0].map_values(|c: CellView| c.text));
    let mut lines_out: Vec<Vec<char>> = Vec::new();
    let mut i: usize = 1;
    let ghost rest = rv.skip(1);
    while i < rows.len()
        invariant
            1 <= i <= rows.len(),
            rv == rows_view(rows@),
            rest == rv.skip(1),
            hv == views(headers@),
            views(lines_out@) == compact_lines(rest.take(i - 1), hv),
        decreases rows.len() - i,
    {
        let ghost prev = views(lines_out@);
        let vals = compact_values_exec(&rows[i], &headers);
        proof {
            assert(rv[i as int] == row_view(rows@[i as int]));
            assert(rest.take(i as int).drop_last() =~= rest.take(i - 1));
            assert(rest.take(i as int).last() == rv[i as int]);
        }
        if vals.len() > 0 {
            let line = join(&vals, to_chars(" | ").as_slice());
            lines_out.push(line);
            assert(views(lines_out@) =~= prev.push(line@));
        }
        i = i + 1;
    }
    assert(rest.take(rows.len() - 1) =~= rest);
    join(&lines_out, to_chars("\n").as_slice())
}

/// Reads the rows of a table's text: see `table_rows_spec`.
pub fn table_rows(html: &[char], fuel: usize) -> (r: Vec<Vec<TableCell>>)
    ensures
        rows_view(r@) == table_rows_spec(html@, fuel as nat),
    decreases fuel, 5nat, 0nat,
{
    let hs = from_chars(html);
    match regex_scan(r"<(/?)(?:table|tr)\b[^>]*>", hs.as_str()) {
        None => Vec::new(),
        Some((gaps, caps)) => {
            let ghost g = strings_view(gaps@);
            let ghost w = whole_matches(caps_view(caps@));
            let mut out: Vec<Vec<TableCell>> = Vec::new();
            let mut opens: usize = 0;
            let mut closes: usize = 0;
            let mut cur: Option<Vec<char>> = None;
            let mut k: usize = 0;
            let open_table = to_chars("<table");
            let close_table = to_chars("</table");
            let open_row = to_chars("<tr");
            let close_row = to_chars("</tr");
            while k < caps.len()
                invariant
                    gaps@.len() == caps@.len() + 1,
                    g == strings_view(gaps@),
                    w == whole_matches(caps_view(caps@)),
                    open_table@ == "<table"@,
                    close_table@ == "</table"@,
                    open_row@ == "<tr"@,
                    close_row@ == "</tr"@,
                    k <= caps.len(),
                    opens <= k,
                    closes <= k,
                    rows_view(out@) + rows_from(
                        g,
                        w,
                        k as int,
                        opens - closes,
                        opt_chars(cur),
                        fuel as nat,
                    ) == table_rows_spec(html@, fuel as nat),
                decreases caps.len() - k,
            {
                let m = group_text(&caps[k], 0);
                proof {
                    assert(caps_view(caps@)[k as int] == groups_view(caps@[k as int]));
                    assert(w[k as int] == m@);
                }
                let gk = to_chars(gaps[k].as_str());
                let t1: Option<Vec<char>> = match cur {
                    Some(t) => {
                        let mut t = t;
                        extend_chars(&mut t, gk.as_slice());
                        Some(t)
                    },
                    None => None,
                };
                let ghost t1v = opt_chars(t1);
                let depth_one = opens == closes + 1;
                if starts_with(m.as_slice(), open_table.as_slice()) {
                    opens = opens + 1;
                    cur = match t1 {
                        Some(t) => {
                            let mut t = t;
                            extend_chars(&mut t, m.as_slice());
                            Some(t)
                        },
                        None => None,
                    };
                } else if starts_with(m.as_slice(), close_table.as_slice()) {
                    closes = closes + 1;
                    cur = match t1 {
                        Some(t) => {
                            let mut t = t;
                            extend_chars(&mut t, m.as_slice());
                            Some(t)
                        },
                        None => None,
                    };
                } else if starts_with(m.as_slice(), open_row.as_slice()) && depth_one {
                    cur = Some(m);
                } else if starts_with(m.as_slice(), close_row.as_slice()) && depth_one {
                    match t1 {
                        Some(t) => {
                            let mut t = t;
                            extend_chars(&mut t, m.as_slice());
                            let row = extract_cells(t.as_slice(), fuel);
                            if row.len() > 0 {
                                let ghost prev = rows_view(out@);
                                out.push(row);
                                assert(rows_view(out@) =~= prev + seq![row_view(row)]);
                            } else {
                                assert(row_view(row) =~= Seq::<CellView>::empty());
                            }
                        },
                        None => {},
                    }
                    cur = None;
                } else {
                    cur = match t1 {
                        Some(t) => {
                            let mut t = t;
                            extend_chars(&mut t, m.as_slice());
                            Some(t)
                        },
                        None => None,
                    };
                }
                k = k + 1;
            }
            assert(rows_view(out@) + Seq::<Seq<CellView>>::empty() =~= rows_view(out@));
            out
        },
    }
}

/// Reads the cells of a row's text: see `cells_spec`.
pub fn extract_cells(tr_html: &[char], fuel: usize) -> (r: Vec<TableCell>)
    ensures
        row_view(r) == cells_spec(tr_html@, fuel as nat),
    decreases fuel, 3nat, 0nat,
{
    let ts = from_chars(tr_html);
    match regex_scan(r#"(?s)<(t[dh])\b([^>]*)>(.*?)</t[dh]>"#, ts.as_str()) {
        None => Vec::new(),
        Some((_gaps, caps)) => {
            let ghost cv = caps_view(caps@);
            let mut cells: Vec<TableCell> = Vec::new();
            let mut k: usize = 0;
            let th = to_chars("th");
            assert(cv == regex_captures(cell_pattern(), tr_html@));
            while k < caps.len()
                invariant
                    k <= caps.len(),
                    cv == caps_view(caps@),
                    th@ == "th"@,
                    row_view(cells) + cells_from(cv, k as int, fuel as nat) == cells_from(
                        cv,
                        0,
                        fuel as nat,
                    ),
                decreases caps.len() - k,
            {
                let c = &caps[k];
                proof {
                    assert(cv[k as int] == groups_view(*c));
                }
                let text = cell_to_text(group_text(c, 3).as_slice(), fuel);
                let is_header = eq_chars(group_text(c, 1).as_slice(), th.as_slice());
                let span = colspan(group_text(c, 2).as_slice());
                let cell = TableCell { text: from_chars(text.as_slice()), is_header, colspan: span };
                let ghost prev = row_view(cells);
                cells.push(cell);
                assert(row_view(cells) =~= prev.push(cell@));
                assert(row_view(cells) + cells_from(cv, k + 1, fuel as nat) =~= prev + cells_from(
                    cv,
                    k as int,
                    fuel as nat,
                ));
                k = k + 1;
            }
            assert(row_view(cells) + Seq::<CellView>::empty() =~= row_view(cells));
            cells
        },
    }
}

/// Nested tables flattened: see `flatten_spec`.
fn flatten(text: Vec<char>, rounds: usize, fuel: usize) -> (r: Vec<char>)
    ensures
        r@ == flatten_spec(text@, rounds as nat, fuel as nat),
    decreases fuel, 0nat, rounds,
{
    if rounds == 0 || fuel == 0 {
        return text;
    }
    match find_top_level_table(text.as_slice()) {
        None => text,
        Some((pre, tab, post)) => {
            let rows = table_rows(tab.as_slice(), fuel - 1);
            let md = compact_table_exec(&rows);
            let mut next = surround("", pre.as_slice(), "\n");
            proof {
                reveal_strlit("");
                assert(next@ =~= pre@ + "\n"@);
            }
            extend_chars(&mut next, md.as_slice());
            extend_chars(&mut next, to_chars("\n").as_slice());
            extend_chars(&mut next, post.as_slice());
            flatten(next, rounds - 1, fuel)
        },
    }
}

/// The text of a cell as Markdown: see `cell_text_spec`.
pub fn cell_to_text(html: &[char], fuel: usize) -> (r: Vec<char>)
    ensures
        r@ == cell_text_spec(html@, fuel as nat),
    decreases fuel, 1nat, 0nat,
{
    let text = if contains(html, to_chars("<table").as_slice()) {
        flatten(slice_vec(html, 0, html.len()), fuel, fuel)
    } else {
        slice_vec(html, 0, html.len())
    };
    assert(html@.subrange(0, html@.len() as int) =~= html@);
    cell_markup(text.as_slice())
}


// ───────────────────────── whole tables ─────────────────────────

/// A table's text as Markdown. Its rows are read with a budget of its
/// length. A table without rows loses its tags; a page's metadata table
/// keeps only its chosen fields; a table of three columns or more, or of
/// two with a header row, becomes a pipe table; any other table becomes
/// key/value paragraphs.
pub open spec fn table_md_spec(html: Seq<char>) -> Seq<char> {
    let rows = table_rows_spec(html, html.len());
    if rows.len() == 0 {
        strip_tags_spec(html)
    } else if is_metadata_table_spec(rows) {
        join_spec(meta_fields(rows), "\n\n"@)
    } else {
        let cols = max_cols_spec(rows);
        if cols >= 3 || (header_row_spec(rows) && cols >= 2) {
            pipe_table_spec(rows, cols)
        } else {
            join_spec(kv_blocks(rows), "\n\n"@)
        }
    }
}

/// Converts a table's text to Markdown: see `table_md_spec`.
pub fn table_to_markdown(table_html: &[char]) -> (r: Vec<char>)
    ensures
        r@ == table_md_spec(table_html@),
{
    let rows = table_rows(table_html, table_html.len());
    if rows.len() == 0 {
        return strip_tags(table_html);
    }
    if is_metadata_table(rows.as_slice()) {
        return extract_metadata_fields(rows.as_slice());
    }
    let has_header_row = header_row_exec(rows.as_slice());
    let max_cols = max_cols_exec(rows.as_slice());
    if max_cols >= 3 || (has_header_row && max_cols >= 2) {
        return table_to_pipe_table(rows.as_slice(), max_cols, has_header_row);
    }
    table_to_key_values(rows.as_slice())
}

} // verus!
