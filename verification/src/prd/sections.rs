//! Reading the markdown of a wiki page into the sections of a PRD: headings
//! are normalised, the page is cut at its headings, and each block goes to
//! the part of the PRD its heading names.
use vstd::prelude::*;
use vstd::utf8::encode_utf8;
use crate::text::{
    contains, contains_spec, count_matches, count_matches_spec, ends_with, ends_with_spec,
    eq_chars, extend_chars, from_chars, join, join_spec, lines, lines_spec, lowercase, replace,
    replace_spec, slice_vec, starts_with, starts_with_spec, to_chars, to_lowercase, trim,
    trim_char, trim_char_spec, trim_end_char, trim_end_char_spec, trim_spec, trim_start_char,
    trim_start_char_spec, views, is_whitespace, is_ws,
};

verus! {

// ───────────────────────── helpers ─────────────────────────

/// The first whitespace-separated word of a string that does not start with
/// whitespace (std `split_whitespace().next()` on such a string).
pub open spec fn first_word_from(s: Seq<char>, i: int) -> Seq<char>
    decreases s.len() - i,
{
    if i < 0 || i >= s.len() || is_ws(s[i]) {
        s.take(i)
    } else {
        first_word_from(s, i + 1)
    }
}

fn first_word(s: &[char]) -> (r: Vec<char>)
    ensures
        r@ == first_word_from(s@, 0),
{
    let mut i: usize = 0;
    while i < s.len() && !is_whitespace(s[i])
        invariant
            i <= s.len(),
            first_word_from(s@, 0) == first_word_from(s@, i as int),
        decreases s.len() - i,
    {
        i = i + 1;
    }
    slice_vec(s, 0, i)
}

/// The number of UTF-8 bytes of a text (std `str::len`).
pub open spec fn byte_len(s: Seq<char>) -> nat {
    encode_utf8(s).len()
}

/// The number of UTF-8 bytes of a text: see `byte_len`.
pub fn byte_len_exec(s: &[char]) -> (n: usize)
    ensures
        n == byte_len(s@),
{
    let st = from_chars(s);
    st.as_str().as_bytes().len()
}

fn lit(s: &str) -> (r: Vec<char>)
    ensures
        r@ == s@,
{
    to_chars(s)
}

fn seq_contains_exec(v: &Vec<Vec<char>>, x: &[char]) -> (b: bool)
    ensures
        b == views(v@).contains(x@),
{
    let mut i: usize = 0;
    while i < v.len()
        invariant
            i <= v.len(),
            forall|k: int| 0 <= k < i ==> views(v@)[k] != x@,
        decreases v.len() - i,
    {
        if eq_chars(v[i].as_slice(), x) {
            assert(views(v@)[i as int] == x@);
            return true;
        }
        i = i + 1;
    }
    false
}

// ───────────────────────── table column headers ─────────────────────────

/// The column headers of the design tables that pages repeat as lines of
/// their own.
pub open spec fn is_table_column_header_spec(s: Seq<char>) -> bool {
    s == "Previous"@ || s == "Current"@ || s == "Requirement"@ || s == "Hi Fi Design"@ || s
        == "Design Notes"@ || s == "What Jie Li Have"@ || s == "Change from Jieli"@ || s
        == "Jie Li Jiao Yi Bao"@ || s == "Tuntun Design"@
}

/// Whether a line is one of the design tables' column headers.
pub fn is_table_column_header(s: &[char]) -> (b: bool)
    ensures
        b == is_table_column_header_spec(s@),
{
    eq_chars(s, lit("Previous").as_slice()) || eq_chars(s, lit("Current").as_slice()) || eq_chars(
        s,
        lit("Requirement").as_slice(),
    ) || eq_chars(s, lit("Hi Fi Design").as_slice()) || eq_chars(
        s,
        lit("Design Notes").as_slice(),
    ) || eq_chars(s, lit("What Jie Li Have").as_slice()) || eq_chars(
        s,
        lit("Change from Jieli").as_slice(),
    ) || eq_chars(s, lit("Jie Li Jiao Yi Bao").as_slice()) || eq_chars(
        s,
        lit("Tuntun Design").as_slice(),
    )
}


// ───────────────────────── normalising headings ─────────────────────────

/// Every character of `s` is `c`.
pub open spec fn all_char(s: Seq<char>, c: char) -> bool {
    forall|k: int| 0 <= k < s.len() ==> s[k] == c
}

fn all_char_exec(s: &[char], c: char) -> (b: bool)
    ensures
        b == all_char(s@, c),
{
    let mut i: usize = 0;
    while i < s.len()
        invariant
            i <= s.len(),
            forall|k: int| 0 <= k < i ==> s@[k] == c,
        decreases s.len() - i,
    {
        if s[i] != c {
            return false;
        }
        i = i + 1;
    }
    true
}

/// A setext underline: at least three bytes, all `=` or all `-`.
pub open spec fn is_underline(s: Seq<char>) -> bool {
    byte_len(s) >= 3 && (all_char(s, '=') || all_char(s, '-'))
}

/// The text of a setext heading line.
pub open spec fn setext_heading_text(t: Seq<char>) -> Seq<char> {
    trim_spec(trim_char_spec(replace_spec(t, "**"@, seq![]), '#'))
}

/// The text of an ATX (`#`) heading line.
pub open spec fn atx_heading_text(t: Seq<char>) -> Seq<char> {
    trim_spec(trim_char_spec(replace_spec(trim_spec(trim_start_char_spec(t, '#')), "**"@, seq![]), '#'))
}

/// A heading that names the page itself (in either direction of
/// containment, lower-cased).
pub open spec fn names_title(key: Seq<char>, title_lower: Seq<char>) -> bool {
    contains_spec(key, title_lower) || contains_spec(title_lower, key)
}

/// The cleaned lines of the page from line `i` on, given the heading keys
/// seen so far: design-table noise is dropped, setext headings become `##`
/// (`=`) or `###` (`-`) headings, headings are normalised, and a heading
/// that repeats the page title is kept only the first time.
pub open spec fn clean_from(
    ls: Seq<Seq<char>>,
    i: int,
    title_lower: Seq<char>,
    seen: Seq<Seq<char>>,
) -> Seq<Seq<char>>
    decreases ls.len() - i,
{
    if i < 0 || i >= ls.len() {
        seq![]
    } else {
        let line = ls[i];
        let t = trim_spec(line);
        if starts_with_spec(t, "**Hi Fi"@) || starts_with_spec(t, "**Hi-Fi"@) {
            clean_from(ls, i + 1, title_lower, seen)
        } else if is_table_column_header_spec(t) {
            clean_from(ls, i + 1, title_lower, seen)
        } else if i + 1 < ls.len() && is_underline(trim_spec(ls[i + 1])) {
            let h = setext_heading_text(t);
            let key = lowercase(h);
            if names_title(key, title_lower) && seen.contains(key) {
                clean_from(ls, i + 2, title_lower, seen)
            } else {
                let level = if starts_with_spec(trim_spec(ls[i + 1]), "="@) {
                    "##"@
                } else {
                    "###"@
                };
                seq![level + " "@ + h] + clean_from(ls, i + 2, title_lower, seen.push(key))
            }
        } else if starts_with_spec(t, "#"@) {
            let h = atx_heading_text(t);
            let key = lowercase(h);
            if names_title(key, title_lower) && seen.contains(key) {
                clean_from(ls, i + 1, title_lower, seen)
            } else {
                seq![first_word_from(t, 0) + " "@ + h] + clean_from(
                    ls,
                    i + 1,
                    title_lower,
                    seen.push(key),
                )
            }
        } else {
            seq![line] + clean_from(ls, i + 1, title_lower, seen)
        }
    }
}

/// The page's markdown with headings normalised (see `clean_from`).
pub open spec fn clean_raw_md_spec(md: Seq<char>, page_title: Seq<char>) -> Seq<char> {
    join_spec(clean_from(lines_spec(md), 0, lowercase(page_title), seq![]), "\n"@)
}

fn heading_key(h: &[char]) -> (k: Vec<char>)
    ensures
        k@ == lowercase(h@),
{
    let s = from_chars(h);
    let l = to_lowercase(s.as_str());
    to_chars(l.as_str())
}

/// Normalises the headings of a page's markdown: see `clean_raw_md_spec`.
pub fn clean_raw_md(md: &str, page_title: &str) -> (r: String)
    ensures
        r@ == clean_raw_md_spec(md@, page_title@),
{
    let mdc = to_chars(md);
    let ls = lines(mdc.as_slice());
    let tl_s = to_lowercase(page_title);
    let tl = to_chars(tl_s.as_str());
    let mut seen: Vec<Vec<char>> = Vec::new();
    let mut out: Vec<Vec<char>> = Vec::new();
    let hifi = lit("**Hi Fi");
    let hifi2 = lit("**Hi-Fi");
    let stars = lit("**");
    let nothing: Vec<char> = Vec::new();
    let eq = lit("=");
    let hash = lit("#");
    proof {
        reveal_strlit("**");
    }
    let ghost lsv = views(ls@);
    let mut i: usize = 0;
    assert(views(seen@) =~= Seq::<Seq<char>>::empty());
    assert(views(out@) =~= Seq::<Seq<char>>::empty());
    while i < ls.len()
        invariant
            i <= ls.len(),
            lsv == views(ls@),
            lsv == lines_spec(mdc@),
            mdc@ == md@,
            tl@ == lowercase(page_title@),
            hifi@ == "**Hi Fi"@,
            hifi2@ == "**Hi-Fi"@,
            stars@ == "**"@,
            stars.len() == 2,
            nothing@ == Seq::<char>::empty(),
            eq@ == "="@,
            hash@ == "#"@,
            views(out@) + clean_from(lsv, i as int, tl@, views(seen@)) == clean_from(
                lsv,
                0,
                tl@,
                seq![],
            ),
        decreases ls.len() - i,
    {
        let ghost prev_out = views(out@);
        let ghost prev_seen = views(seen@);
        let line = &ls[i];
        assert(lsv[i as int] == line@);
        let t = trim(line.as_slice());
        if starts_with(t.as_slice(), hifi.as_slice()) || starts_with(t.as_slice(), hifi2.as_slice()) {
            i = i + 1;
            continue;
        }
        if is_table_column_header(t.as_slice()) {
            i = i + 1;
            continue;
        }
        if i + 1 < ls.len() {
            assert(lsv[i + 1] == ls@[i + 1]@);
            let next = trim(ls[i + 1].as_slice());
            if byte_len_exec(next.as_slice()) >= 3 && (all_char_exec(next.as_slice(), '=')
                || all_char_exec(next.as_slice(), '-')) {
                let no_stars = replace(t.as_slice(), stars.as_slice(), nothing.as_slice());
                let h = trim(trim_char(no_stars.as_slice(), '#').as_slice());
                let key = heading_key(h.as_slice());
                if (contains(key.as_slice(), tl.as_slice()) || contains(tl.as_slice(), key.as_slice()))
                    && seq_contains_exec(&seen, key.as_slice()) {
                    i = i + 2;
                    continue;
                }
                let mut l = if starts_with(next.as_slice(), eq.as_slice()) {
                    lit("##")
                } else {
                    lit("###")
                };
                l.push(' ');
                extend_chars(&mut l, h.as_slice());
                out.push(l);
                seen.push(key);
                proof {
                    assert(views(seen@) =~= prev_seen.push(lowercase(h@)));
                    assert(views(out@) =~= prev_out.push(l@));
                    reveal_strlit(" ");
                    reveal_strlit("##");
                    reveal_strlit("###");
                    let level = if starts_with_spec(next@, "="@) {
                        "##"@
                    } else {
                        "###"@
                    };
                    assert(l@ =~= level + " "@ + h@);
                    assert(prev_out + clean_from(lsv, i as int, tl@, prev_seen) =~= views(out@)
                        + clean_from(lsv, i + 2, tl@, views(seen@)));
                }
                i = i + 2;
                continue;
            }
        }
        if starts_with(t.as_slice(), hash.as_slice()) {
            let a = trim_start_char(t.as_slice(), '#');
            let b = trim(a.as_slice());
            let c = replace(b.as_slice(), stars.as_slice(), nothing.as_slice());
            let h = trim(trim_char(c.as_slice(), '#').as_slice());
            let key = heading_key(h.as_slice());
            if (contains(key.as_slice(), tl.as_slice()) || contains(tl.as_slice(), key.as_slice()))
                && seq_contains_exec(&seen, key.as_slice()) {
                i = i + 1;
                continue;
            }
            let mut l = first_word(t.as_slice());
            l.push(' ');
            extend_chars(&mut l, h.as_slice());
            out.push(l);
            seen.push(key);
            proof {
                assert(views(seen@) =~= prev_seen.push(lowercase(h@)));
                assert(views(out@) =~= prev_out.push(l@));
                reveal_strlit(" ");
                assert(l@ =~= first_word_from(t@, 0) + " "@ + h@);
                assert(prev_out + clean_from(lsv, i as int, tl@, prev_seen) =~= views(out@)
                    + clean_from(lsv, i + 1, tl@, views(seen@)));
            }
            i = i + 1;
            continue;
        }
        out.push(slice_vec(line.as_slice(), 0, line.len()));
        proof {
            assert(line@.subrange(0, line@.len() as int) =~= line@);
            assert(views(out@) =~= prev_out.push(line@));
        }
        i = i + 1;
    }
    assert(views(out@) + Seq::<Seq<char>>::empty() =~= views(out@));
    let nl = lit("\n");
    let joined = join(&out, nl.as_slice());
    from_chars(joined.as_slice())
}


// ───────────────────────── cutting at headings ─────────────────────────

/// The title of a heading line: `#`s, `**` and surrounding whitespace removed.
pub open spec fn heading_title(t: Seq<char>) -> Seq<char> {
    replace_spec(
        trim_spec(trim_end_char_spec(trim_spec(trim_start_char_spec(t, '#')), '#')),
        "**"@,
        seq![],
    )
}

/// The block that a heading and its lines make, unless both are empty.
pub open spec fn close_block(heading: Seq<char>, content: Seq<Seq<char>>) -> Seq<
    (Seq<char>, Seq<char>),
> {
    let c = trim_spec(join_spec(content, "\n"@));
    if c.len() > 0 || heading.len() > 0 {
        seq![(heading, c)]
    } else {
        seq![]
    }
}

/// The blocks of the lines from `i` on, given the current heading and the
/// lines gathered under it.
pub open spec fn split_headings_from(
    ls: Seq<Seq<char>>,
    i: int,
    heading: Seq<char>,
    content: Seq<Seq<char>>,
) -> Seq<(Seq<char>, Seq<char>)>
    decreases ls.len() - i,
{
    if i < 0 || i >= ls.len() {
        close_block(heading, content)
    } else {
        let t = trim_spec(ls[i]);
        if starts_with_spec(t, "#"@) {
            close_block(heading, content) + split_headings_from(ls, i + 1, heading_title(t), seq![])
        } else {
            split_headings_from(ls, i + 1, heading, content.push(ls[i]))
        }
    }
}

/// The page cut at its headings: (heading title, trimmed text under it),
/// with the text before the first heading under an empty title.
pub open spec fn split_by_headings_spec(md: Seq<char>) -> Seq<(Seq<char>, Seq<char>)> {
    split_headings_from(lines_spec(md), 0, seq![], seq![])
}

/// The views of pairs of character vectors.
pub open spec fn pair_views(v: Seq<(Vec<char>, Vec<char>)>) -> Seq<(Seq<char>, Seq<char>)> {
    v.map_values(|p: (Vec<char>, Vec<char>)| (p.0@, p.1@))
}

fn close_block_exec(
    blocks: &mut Vec<(Vec<char>, Vec<char>)>,
    heading: &Vec<char>,
    content: &Vec<Vec<char>>,
)
    ensures
        pair_views(final(blocks)@) == pair_views(old(blocks)@) + close_block(
            heading@,
            views(content@),
        ),
{
    let nl = lit("\n");
    let j = join(content, nl.as_slice());
    let c = trim(j.as_slice());
    if c.len() > 0 || heading.len() > 0 {
        blocks.push((slice_vec(heading.as_slice(), 0, heading.len()), c));
        assert(heading@.subrange(0, heading@.len() as int) =~= heading@);
        assert(pair_views(blocks@) =~= pair_views(old(blocks)@) + close_block(
            heading@,
            views(content@),
        ));
    } else {
        assert(pair_views(blocks@) =~= pair_views(old(blocks)@) + close_block(
            heading@,
            views(content@),
        ));
    }
}

/// Cuts a page's markdown at its headings: see `split_by_headings_spec`.
pub fn split_by_headings(md: &[char]) -> (r: Vec<(Vec<char>, Vec<char>)>)
    ensures
        pair_views(r@) == split_by_headings_spec(md@),
{
    let ls = lines(md);
    let ghost lsv = views(ls@);
    let hash = lit("#");
    let stars = lit("**");
    let nothing: Vec<char> = Vec::new();
    proof {
        reveal_strlit("**");
    }
    let mut blocks: Vec<(Vec<char>, Vec<char>)> = Vec::new();
    let mut heading: Vec<char> = Vec::new();
    let mut content: Vec<Vec<char>> = Vec::new();
    let mut i: usize = 0;
    assert(pair_views(blocks@) =~= Seq::<(Seq<char>, Seq<char>)>::empty());
    assert(views(content@) =~= Seq::<Seq<char>>::empty());
    assert(heading@ =~= Seq::<char>::empty());
    while i < ls.len()
        invariant
            i <= ls.len(),
            lsv == views(ls@),
            lsv == lines_spec(md@),
            hash@ == "#"@,
            stars@ == "**"@,
            stars.len() == 2,
            nothing@ == Seq::<char>::empty(),
            pair_views(blocks@) + split_headings_from(lsv, i as int, heading@, views(content@))
                == split_by_headings_spec(md@),
        decreases ls.len() - i,
    {
        let ghost prev = pair_views(blocks@);
        let ghost prev_heading = heading@;
        let ghost prev_content = views(content@);
        assert(lsv[i as int] == ls@[i as int]@);
        let t = trim(ls[i].as_slice());
        if starts_with(t.as_slice(), hash.as_slice()) {
            close_block_exec(&mut blocks, &heading, &content);
            let a = trim_start_char(t.as_slice(), '#');
            let b = trim(a.as_slice());
            let c = trim_end_char(b.as_slice(), '#');
            let d = trim(c.as_slice());
            heading = replace(d.as_slice(), stars.as_slice(), nothing.as_slice());
            content = Vec::new();
            assert(views(content@) =~= Seq::<Seq<char>>::empty());
            assert(prev + split_headings_from(lsv, i as int, prev_heading, prev_content)
                =~= pair_views(blocks@) + split_headings_from(
                lsv,
                i + 1,
                heading@,
                views(content@),
            ));
        } else {
            content.push(slice_vec(ls[i].as_slice(), 0, ls[i].len()));
            assert(ls@[i as int]@.subrange(0, ls@[i as int]@.len() as int) =~= ls@[i as int]@);
            assert(views(content@) =~= prev_content.push(lsv[i as int]));
        }
        i = i + 1;
    }
    close_block_exec(&mut blocks, &heading, &content);
    blocks
}


// ───────────────────────── assigning blocks to PRD sections ─────────────────────────

/// A titled block of requirements.
pub struct SectionBlock {
    pub title: String,
    pub content: String,
}

/// A wiki page read into the parts of a PRD.
pub struct ParsedSections {
    pub overview: Option<String>,
    pub scope: Option<String>,
    pub requirements: Vec<SectionBlock>,
    pub acceptance_criteria: Vec<String>,
    /// Acceptance-criteria blocks kept as they are (they hold pipe tables).
    pub acceptance_criteria_raw: Vec<String>,
    pub notes: Option<String>,
    pub remaining: String,
}

/// The model of `ParsedSections`.
pub struct SectionsModel {
    pub overview: Option<Seq<char>>,
    pub scope: Option<Seq<char>>,
    pub requirements: Seq<(Seq<char>, Seq<char>)>,
    pub acceptance_criteria: Seq<Seq<char>>,
    pub acceptance_criteria_raw: Seq<Seq<char>>,
    pub notes: Option<Seq<char>>,
    pub remaining: Seq<char>,
}

/// The view of an optional string.
pub open spec fn opt_str(o: Option<String>) -> Option<Seq<char>> {
    match o {
        Some(s) => Some(s@),
        None => None,
    }
}

/// The views of strings.
pub open spec fn strs(v: Seq<String>) -> Seq<Seq<char>> {
    v.map_values(|s: String| s@)
}

/// The views of requirement blocks.
pub open spec fn blocks_view(v: Seq<SectionBlock>) -> Seq<(Seq<char>, Seq<char>)> {
    v.map_values(|b: SectionBlock| (b.title@, b.content@))
}

impl View for ParsedSections {
    type V = SectionsModel;

    open spec fn view(&self) -> SectionsModel {
        SectionsModel {
            overview: opt_str(self.overview),
            scope: opt_str(self.scope),
            requirements: blocks_view(self.requirements@),
            acceptance_criteria: strs(self.acceptance_criteria@),
            acceptance_criteria_raw: strs(self.acceptance_criteria_raw@),
            notes: opt_str(self.notes),
            remaining: self.remaining@,
        }
    }
}

/// An empty PRD.
pub open spec fn empty_sections() -> SectionsModel {
    SectionsModel {
        overview: None,
        scope: None,
        requirements: seq![],
        acceptance_criteria: seq![],
        acceptance_criteria_raw: seq![],
        notes: None,
        remaining: seq![],
    }
}

/// A part that gathers blocks: the first one as it is, later ones after a
/// blank line.
pub open spec fn merge(existing: Option<Seq<char>>, content: Seq<char>) -> Option<Seq<char>> {
    match existing {
        None => Some(content),
        Some(e) => if e.len() == 0 {
            Some(content)
        } else {
            Some(e + "\n\n"@ + content)
        },
    }
}

/// A line of a pipe table: trimmed, it starts and ends with `|` and holds at
/// least three of them.
pub open spec fn is_pipe_row(l: Seq<char>) -> bool {
    let t = trim_spec(l);
    starts_with_spec(t, "|"@) && ends_with_spec(t, "|"@) && count_matches_spec(t, "|"@) >= 3
}

/// Some line of the text is a pipe-table line.
pub open spec fn has_pipe_table(s: Seq<char>) -> bool {
    exists|i: int| 0 <= i < lines_spec(s).len() && is_pipe_row(#[trigger] lines_spec(s)[i])
}

/// The acceptance criterion a line gives: a list item's text, or a line of
/// more than three bytes that is not a heading.
pub open spec fn criterion_of(line: Seq<char>) -> Seq<Seq<char>> {
    let t = trim_spec(line);
    if starts_with_spec(t, "- "@) || starts_with_spec(t, "* "@) {
        seq![t.skip(2)]
    } else if t.len() > 0 && !starts_with_spec(t, "#"@) && byte_len(t) > 3 {
        seq![t]
    } else {
        seq![]
    }
}

/// The acceptance criteria of lines.
pub open spec fn criteria_of(ls: Seq<Seq<char>>) -> Seq<Seq<char>>
    decreases ls.len(),
{
    if ls.len() == 0 {
        seq![]
    } else {
        criteria_of(ls.drop_last()) + criterion_of(ls.last())
    }
}

/// Where a heading's block goes: the overview (general / overview /
/// background, or no heading), the scope, the acceptance criteria, the notes
/// (notes, dependencies, constraints, limitations), or the requirements.
/// Empty blocks are dropped.
pub open spec fn absorb(m: SectionsModel, heading: Seq<char>, raw: Seq<char>) -> SectionsModel {
    let hl = lowercase(heading);
    let content = trim_spec(raw);
    if content.len() == 0 {
        m
    } else if heading.len() == 0 || contains_spec(hl, "general"@) || contains_spec(hl, "overview"@)
        || contains_spec(hl, "background"@) {
        if m.overview is None {
            SectionsModel { overview: Some(content), ..m }
        } else {
            SectionsModel { requirements: m.requirements.push((heading, content)), ..m }
        }
    } else if contains_spec(hl, "scope"@) {
        SectionsModel { scope: merge(m.scope, content), ..m }
    } else if contains_spec(hl, "acceptance"@) || contains_spec(hl, "criteria"@) {
        if has_pipe_table(content) {
            SectionsModel { acceptance_criteria_raw: m.acceptance_criteria_raw.push(content), ..m }
        } else {
            SectionsModel {
                acceptance_criteria: m.acceptance_criteria + criteria_of(lines_spec(content)),
                ..m
            }
        }
    } else if contains_spec(hl, "note"@) || contains_spec(hl, "dependency"@) || contains_spec(
        hl,
        "constraint"@,
    ) || contains_spec(hl, "limitation"@) {
        SectionsModel { notes: merge(m.notes, content), ..m }
    } else {
        SectionsModel { requirements: m.requirements.push((heading, content)), ..m }
    }
}

/// The PRD after the first `n` blocks.
pub open spec fn absorb_all(blocks: Seq<(Seq<char>, Seq<char>)>, n: int) -> SectionsModel
    decreases n,
{
    if n <= 0 || n > blocks.len() {
        empty_sections()
    } else {
        absorb(absorb_all(blocks, n - 1), blocks[n - 1].0, blocks[n - 1].1)
    }
}

/// Without an overview, a short first requirement block (at most five lines,
/// no images) becomes the overview.
pub open spec fn promote_overview(m: SectionsModel) -> SectionsModel {
    if m.overview is None && m.requirements.len() > 0 {
        let first = m.requirements[0].1;
        if lines_spec(first).len() <= 5 && !contains_spec(first, "!["@) {
            SectionsModel {
                overview: Some(first),
                requirements: m.requirements.drop_first(),
                ..m
            }
        } else {
            m
        }
    } else {
        m
    }
}

/// A wiki page's markdown read into the parts of a PRD.
pub open spec fn parse_into_sections_spec(md: Seq<char>, page_title: Seq<char>) -> SectionsModel {
    let cleaned = clean_raw_md_spec(md, page_title);
    let blocks = split_by_headings_spec(cleaned);
    if blocks.len() == 0 && trim_spec(cleaned).len() > 0 {
        SectionsModel { remaining: trim_spec(cleaned), ..empty_sections() }
    } else {
        promote_overview(absorb_all(blocks, blocks.len() as int))
    }
}

fn contains_lit(s: &[char], p: &str) -> (b: bool)
    ensures
        b == contains_spec(s@, p@),
{
    contains(s, lit(p).as_slice())
}

fn merge_exec(existing: Option<String>, content: &Vec<char>) -> (r: Option<String>)
    ensures
        opt_str(r) == merge(opt_str(existing), content@),
{
    match existing {
        None => Some(from_chars(content.as_slice())),
        Some(e) => {
            let ev = to_chars(e.as_str());
            if ev.len() == 0 {
                Some(from_chars(content.as_slice()))
            } else {
                let mut v = ev;
                let sep = lit("\n\n");
                extend_chars(&mut v, sep.as_slice());
                extend_chars(&mut v, content.as_slice());
                Some(from_chars(v.as_slice()))
            }
        },
    }
}

fn has_pipe_table_exec(s: &[char]) -> (b: bool)
    ensures
        b == has_pipe_table(s@),
{
    let ls = lines(s);
    let bar = lit("|");
    proof {
        reveal_strlit("|");
    }
    let mut i: usize = 0;
    while i < ls.len()
        invariant
            i <= ls.len(),
            views(ls@) == lines_spec(s@),
            bar@ == "|"@,
            bar.len() == 1,
            forall|k: int| 0 <= k < i ==> !is_pipe_row(#[trigger] lines_spec(s@)[k]),
        decreases ls.len() - i,
    {
        assert(views(ls@)[i as int] == ls@[i as int]@);
        let t = trim(ls[i].as_slice());
        if starts_with(t.as_slice(), bar.as_slice()) && ends_with(t.as_slice(), bar.as_slice())
            && count_matches(t.as_slice(), bar.as_slice()) >= 3 {
            return true;
        }
        i = i + 1;
    }
    false
}

fn push_criteria(out: &mut Vec<String>, content: &[char])
    ensures
        strs(final(out)@) == strs(old(out)@) + criteria_of(lines_spec(content@)),
{
    let ls = lines(content);
    let dash = lit("- ");
    let star = lit("* ");
    let hash = lit("#");
    proof {
        reveal_strlit("- ");
        reveal_strlit("* ");
    }
    let mut i: usize = 0;
    while i < ls.len()
        invariant
            i <= ls.len(),
            views(ls@) == lines_spec(content@),
            dash@ == "- "@,
            star@ == "* "@,
            hash@ == "#"@,
            dash.len() == 2,
            star.len() == 2,
            strs(out@) == strs(old(out)@) + criteria_of(views(ls@).take(i as int)),
        decreases ls.len() - i,
    {
        let ghost prev = strs(out@);
        assert(views(ls@)[i as int] == ls@[i as int]@);
        let t = trim(ls[i].as_slice());
        if starts_with(t.as_slice(), dash.as_slice()) || starts_with(t.as_slice(), star.as_slice()) {
            let rest = slice_vec(t.as_slice(), 2, t.len());
            assert(rest@ =~= t@.skip(2));
            out.push(from_chars(rest.as_slice()));
        } else if t.len() > 0 && !starts_with(t.as_slice(), hash.as_slice()) && byte_len_exec(
            t.as_slice(),
        ) > 3 {
            out.push(from_chars(t.as_slice()));
        }
        i = i + 1;
        proof {
            let tk = views(ls@).take(i as int);
            assert(tk.drop_last() =~= views(ls@).take(i - 1));
            assert(tk.last() == ls@[i - 1]@);
            assert(strs(out@) =~= prev + criterion_of(ls@[i - 1]@));
            assert(strs(old(out)@) + criteria_of(tk) =~= strs(old(out)@) + criteria_of(
                views(ls@).take(i - 1),
            ) + criterion_of(ls@[i - 1]@));
        }
    }
    assert(views(ls@).take(ls.len() as int) =~= views(ls@));
}

fn absorb_exec(m: &mut ParsedSections, heading: &Vec<char>, raw: &Vec<char>)
    ensures
        final(m)@ == absorb(old(m)@, heading@, raw@),
{
    let hl = heading_key(heading.as_slice());
    let content = trim(raw.as_slice());
    let ghost before = m@;
    if content.len() == 0 {
        return ;
    }
    if heading.len() == 0 || contains_lit(hl.as_slice(), "general") || contains_lit(
        hl.as_slice(),
        "overview",
    ) || contains_lit(hl.as_slice(), "background") {
        if m.overview.is_none() {
            m.overview = Some(from_chars(content.as_slice()));
        } else {
            m.requirements.push(
                SectionBlock {
                    title: from_chars(heading.as_slice()),
                    content: from_chars(content.as_slice()),
                },
            );
            assert(m@.requirements =~= before.requirements.push((heading@, content@)));
        }
    } else if contains_lit(hl.as_slice(), "scope") {
        let existing = m.scope.take();
        m.scope = merge_exec(existing, &content);
    } else if contains_lit(hl.as_slice(), "acceptance") || contains_lit(hl.as_slice(), "criteria") {
        if has_pipe_table_exec(content.as_slice()) {
            m.acceptance_criteria_raw.push(from_chars(content.as_slice()));
            assert(m@.acceptance_criteria_raw =~= before.acceptance_criteria_raw.push(content@));
        } else {
            push_criteria(&mut m.acceptance_criteria, content.as_slice());
        }
    } else if contains_lit(hl.as_slice(), "note") || contains_lit(hl.as_slice(), "dependency")
        || contains_lit(hl.as_slice(), "constraint") || contains_lit(hl.as_slice(), "limitation") {
        let existing = m.notes.take();
        m.notes = merge_exec(existing, &content);
    } else {
        m.requirements.push(
            SectionBlock {
                title: from_chars(heading.as_slice()),
                content: from_chars(content.as_slice()),
            },
        );
        assert(m@.requirements =~= before.requirements.push((heading@, content@)));
    }
}

/// Reads a wiki page's markdown into the parts of a PRD: see
/// `parse_into_sections_spec`.
pub fn parse_into_sections(md: &str, page_title: &str) -> (r: ParsedSections)
    ensures
        r@ == parse_into_sections_spec(md@, page_title@),
{
    let mut result = ParsedSections {
        overview: None,
        scope: None,
        requirements: Vec::new(),
        acceptance_criteria: Vec::new(),
        acceptance_criteria_raw: Vec::new(),
        notes: None,
        remaining: String::new(),
    };
    assert(result@.requirements =~= empty_sections().requirements);
    assert(result@.acceptance_criteria =~= empty_sections().acceptance_criteria);
    assert(result@.acceptance_criteria_raw =~= empty_sections().acceptance_criteria_raw);
    assert(result@.remaining =~= empty_sections().remaining);
    let cleaned = clean_raw_md(md, page_title);
    let cc = to_chars(cleaned.as_str());
    let blocks = split_by_headings(cc.as_slice());
    let tc = trim(cc.as_slice());
    if blocks.len() == 0 && tc.len() > 0 {
        result.remaining = from_chars(tc.as_slice());
        return result;
    }
    let ghost bv = pair_views(blocks@);
    let mut i: usize = 0;
    while i < blocks.len()
        invariant
            i <= blocks.len(),
            bv == pair_views(blocks@),
            result@ == absorb_all(bv, i as int),
        decreases blocks.len() - i,
    {
        assert(bv[i as int] == (blocks@[i as int].0@, blocks@[i as int].1@));
        absorb_exec(&mut result, &blocks[i].0, &blocks[i].1);
        i = i + 1;
    }
    if result.overview.is_none() && result.requirements.len() > 0 {
        let first = to_chars(result.requirements[0].content.as_str());
        let n = lines(first.as_slice()).len();
        if n <= 5 && !contains_lit(first.as_slice(), "![") {
            let ghost before = result@;
            let removed = result.requirements.remove(0);
            result.overview = Some(removed.content);
            assert(result@.requirements =~= before.requirements.drop_first());
        }
    }
    result
}

/// Whether a block under this heading belongs to the scope: the heading
/// names the scope and is not an overview heading.
pub open spec fn goes_to_scope(heading: Seq<char>) -> bool {
    let hl = lowercase(heading);
    &&& heading.len() > 0
    &&& !contains_spec(hl, "general"@)
    &&& !contains_spec(hl, "overview"@)
    &&& !contains_spec(hl, "background"@)
    &&& contains_spec(hl, "scope"@)
}

/// Whether a block under this heading belongs to the notes: the heading
/// names notes, dependencies, constraints or limitations, and no part
/// that comes first.
pub open spec fn goes_to_notes(heading: Seq<char>) -> bool {
    let hl = lowercase(heading);
    &&& heading.len() > 0
    &&& !contains_spec(hl, "general"@)
    &&& !contains_spec(hl, "overview"@)
    &&& !contains_spec(hl, "background"@)
    &&& !contains_spec(hl, "scope"@)
    &&& !contains_spec(hl, "acceptance"@)
    &&& !contains_spec(hl, "criteria"@)
    &&& (contains_spec(hl, "note"@) || contains_spec(hl, "dependency"@) || contains_spec(
        hl,
        "constraint"@,
    ) || contains_spec(hl, "limitation"@))
}

/// A gathered part is never empty text.
proof fn lemma_parts_not_blank(blocks: Seq<(Seq<char>, Seq<char>)>, n: int)
    ensures
        absorb_all(blocks, n).scope matches Some(t) ==> t.len() > 0,
        absorb_all(blocks, n).notes matches Some(t) ==> t.len() > 0,
    decreases n,
{
    if 0 < n <= blocks.len() {
        lemma_parts_not_blank(blocks, n - 1);
    }
}

/// The scope and the notes gather every block whose heading names them: a
/// further such block (not blank) is added after what was gathered, behind
/// a blank line, and nothing gathered before is lost; any other block
/// leaves them as they were.
pub proof fn law_parts_gather_their_blocks(blocks: Seq<(Seq<char>, Seq<char>)>, n: int)
    requires
        0 <= n < blocks.len(),
    ensures
        ({
            let before = absorb_all(blocks, n);
            let after = absorb_all(blocks, n + 1);
            let c = trim_spec(blocks[n].1);
            &&& goes_to_scope(blocks[n].0) && c.len() > 0 ==> after.scope == Some(
                match before.scope {
                    Some(t) => t + "\n\n"@ + c,
                    None => c,
                },
            )
            &&& !(goes_to_scope(blocks[n].0) && c.len() > 0) ==> after.scope == before.scope
            &&& goes_to_notes(blocks[n].0) && c.len() > 0 ==> after.notes == Some(
                match before.notes {
                    Some(t) => t + "\n\n"@ + c,
                    None => c,
                },
            )
            &&& !(goes_to_notes(blocks[n].0) && c.len() > 0) ==> after.notes == before.notes
        }),
{
    lemma_parts_not_blank(blocks, n);
}

/// Whether a block under this heading is overview material: no heading,
/// or one that names the general part, an overview or the background.
pub open spec fn is_overview_heading(heading: Seq<char>) -> bool {
    let hl = lowercase(heading);
    heading.len() == 0 || contains_spec(hl, "general"@) || contains_spec(hl, "overview"@)
        || contains_spec(hl, "background"@)
}

/// Whether a block under this heading holds acceptance criteria.
pub open spec fn goes_to_acceptance(heading: Seq<char>) -> bool {
    let hl = lowercase(heading);
    !is_overview_heading(heading) && !contains_spec(hl, "scope"@) && (contains_spec(
        hl,
        "acceptance"@,
    ) || contains_spec(hl, "criteria"@))
}

/// Whether a block under this heading is a requirement: it names none of
/// the other parts.
pub open spec fn goes_to_requirements(heading: Seq<char>) -> bool {
    let hl = lowercase(heading);
    &&& !is_overview_heading(heading)
    &&& !contains_spec(hl, "scope"@)
    &&& !contains_spec(hl, "acceptance"@)
    &&& !contains_spec(hl, "criteria"@)
    &&& !contains_spec(hl, "note"@)
    &&& !contains_spec(hl, "dependency"@)
    &&& !contains_spec(hl, "constraint"@)
    &&& !contains_spec(hl, "limitation"@)
}

/// The other parts: the first overview block is the overview and later
/// ones are requirements; a requirement block is added, with its heading,
/// after the requirements so far; an acceptance block with a pipe table is
/// added to the raw criteria, and one without adds its criteria after
/// those so far. Nothing gathered before is lost, and a blank block
/// changes nothing.
pub proof fn law_blocks_go_to_their_parts(blocks: Seq<(Seq<char>, Seq<char>)>, n: int)
    requires
        0 <= n < blocks.len(),
    ensures
        ({
            let before = absorb_all(blocks, n);
            let after = absorb_all(blocks, n + 1);
            let h = blocks[n].0;
            let c = trim_spec(blocks[n].1);
            &&& c.len() == 0 ==> after == before
            &&& c.len() > 0 && is_overview_heading(h) && before.overview is None ==> after.overview
                == Some(c) && after.requirements == before.requirements
            &&& c.len() > 0 && is_overview_heading(h) && before.overview is Some ==> after.overview
                == before.overview && after.requirements == before.requirements.push((h, c))
            &&& c.len() > 0 && goes_to_requirements(h) ==> after.requirements
                == before.requirements.push((h, c))
            &&& c.len() > 0 && goes_to_acceptance(h) && has_pipe_table(c)
                ==> after.acceptance_criteria_raw == before.acceptance_criteria_raw.push(c)
            &&& after.requirements.take(before.requirements.len() as int) == before.requirements
            &&& after.acceptance_criteria.take(before.acceptance_criteria.len() as int)
                == before.acceptance_criteria
            &&& after.acceptance_criteria_raw.take(before.acceptance_criteria_raw.len() as int)
                == before.acceptance_criteria_raw
            &&& before.overview is Some ==> after.overview == before.overview
        }),
{
    let before = absorb_all(blocks, n);
    let after = absorb_all(blocks, n + 1);
    assert(after == absorb(before, blocks[n].0, blocks[n].1));
    assert(before.requirements.push((blocks[n].0, trim_spec(blocks[n].1))).take(
        before.requirements.len() as int,
    ) =~= before.requirements);
    assert(before.requirements.take(before.requirements.len() as int) =~= before.requirements);
    assert(before.acceptance_criteria_raw.push(trim_spec(blocks[n].1)).take(
        before.acceptance_criteria_raw.len() as int,
    ) =~= before.acceptance_criteria_raw);
    assert(before.acceptance_criteria_raw.take(before.acceptance_criteria_raw.len() as int)
        =~= before.acceptance_criteria_raw);
    let extra = criteria_of(lines_spec(trim_spec(blocks[n].1)));
    assert((before.acceptance_criteria + extra).take(before.acceptance_criteria.len() as int)
        =~= before.acceptance_criteria);
    assert(before.acceptance_criteria.take(before.acceptance_criteria.len() as int)
        =~= before.acceptance_criteria);
}

/// Reading a page into a PRD keeps the scope and the notes as gathered from
/// its blocks (see `law_parts_gather_their_blocks`): moving a short first
/// block to the overview touches neither.
pub proof fn law_parse_keeps_gathered_parts(md: Seq<char>, page_title: Seq<char>)
    ensures
        ({
            let blocks = split_by_headings_spec(clean_raw_md_spec(md, page_title));
            let r = parse_into_sections_spec(md, page_title);
            blocks.len() > 0 ==> r.scope == absorb_all(blocks, blocks.len() as int).scope
                && r.notes == absorb_all(blocks, blocks.len() as int).notes
        }),
{
}

} // verus!
