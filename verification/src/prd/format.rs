//! The PRD written from a wiki page: the structured form (metadata, then
//! the page's content sorted into PRD sections) and the raw form (metadata,
//! then the page's lightweight Markdown).
use vstd::prelude::*;
use crate::html::markup::{collapse_blank, collapse_blank_spec};
use crate::jira::models::wiki::{space_key, WikiPage};
use crate::jira::render::{page_address, page_address_exec, version_number};
use crate::prd::sections::{parse_into_sections, parse_into_sections_spec, SectionsModel};
use crate::text::{
    decimal, decimal_spec, extend_chars, from_chars, signed_decimal, to_chars, trim, trim_spec,
};

verus! {

fn push(out: &mut Vec<char>, s: &str)
    ensures
        final(out)@ == old(out)@ + s@,
{
    extend_chars(out, to_chars(s).as_slice());
}

fn push_string(out: &mut Vec<char>, s: &String)
    ensures
        final(out)@ == old(out)@ + s@,
{
    extend_chars(out, to_chars(s.as_str()).as_slice());
}

// ───────────────────────── metadata ─────────────────────────

/// One metadata line: `- **label:** value` as a bullet, `label: value`
/// otherwise.
pub open spec fn meta_line(bullet: bool, label: Seq<char>, value: Seq<char>) -> Seq<char> {
    if bullet {
        "- **"@ + label + ":** "@ + value + "\n"@
    } else {
        label + ": "@ + value + "\n"@
    }
}

/// A metadata line where there is a value.
pub open spec fn opt_meta_line(bullet: bool, label: Seq<char>, value: Option<Seq<char>>) -> Seq<char> {
    match value {
        Some(v) => meta_line(bullet, label, v),
        None => Seq::<char>::empty(),
    }
}

/// Who made the page's version, where known.
pub open spec fn version_author(page: WikiPage) -> Option<Seq<char>> {
    match page.version {
        Some(v) => match v.by {
            Some(u) => Some(u.display_name@),
            None => None,
        },
        None => None,
    }
}

/// A page's metadata lines: id; space, version, its author and the
/// page's address where known.
pub open spec fn page_meta_spec(page: WikiPage, bullet: bool) -> Seq<char> {
    meta_line(bullet, "Page ID"@, page.id@) + opt_meta_line(bullet, "Space"@, space_key(page.space))
        + opt_meta_line(bullet, "Version"@, version_number(page.version)) + opt_meta_line(
        bullet,
        "Last Updated By"@,
        version_author(page),
    ) + opt_meta_line(bullet, "Source"@, page_address(page))
}

fn push_meta_line(out: &mut Vec<char>, bullet: bool, label: &str, value: &[char])
    ensures
        final(out)@ == old(out)@ + meta_line(bullet, label@, value@),
{
    if bullet {
        push(out, "- **");
        push(out, label);
        push(out, ":** ");
    } else {
        push(out, label);
        push(out, ": ");
    }
    extend_chars(out, value);
    push(out, "\n");
}

fn push_opt_meta_line(out: &mut Vec<char>, bullet: bool, label: &str, value: Option<Vec<char>>)
    ensures
        final(out)@ == old(out)@ + opt_meta_line(
            bullet,
            label@,
            match value {
                Some(v) => Some(v@),
                None => None,
            },
        ),
{
    match value {
        Some(v) => push_meta_line(out, bullet, label, v.as_slice()),
        None => {
            assert(old(out)@ + Seq::<char>::empty() =~= old(out)@);
        },
    }
}

/// A page's metadata lines: see `page_meta_spec`.
pub fn page_meta(page: &WikiPage, bullet: bool) -> (r: Vec<char>)
    ensures
        r@ == page_meta_spec(*page, bullet),
{
    let mut out: Vec<char> = Vec::new();
    push_meta_line(&mut out, bullet, "Page ID", to_chars(page.id.as_str()).as_slice());
    push_opt_meta_line(
        &mut out,
        bullet,
        "Space",
        match &page.space {
            Some(s) => Some(to_chars(s.key.as_str())),
            None => None,
        },
    );
    push_opt_meta_line(
        &mut out,
        bullet,
        "Version",
        match &page.version {
            Some(v) => Some(signed_decimal(v.number)),
            None => None,
        },
    );
    push_opt_meta_line(
        &mut out,
        bullet,
        "Last Updated By",
        match &page.version {
            Some(v) => match &v.by {
                Some(u) => Some(to_chars(u.display_name.as_str())),
                None => None,
            },
            None => None,
        },
    );
    push_opt_meta_line(&mut out, bullet, "Source", page_address_exec(page));
    assert(out@ =~= page_meta_spec(*page, bullet));
    out
}

// ───────────────────────── the raw PRD ─────────────────────────

/// The raw PRD: title line, metadata lines, a rule, then the page's text.
pub open spec fn raw_prd_spec(page: WikiPage, text: Seq<char>) -> Seq<char> {
    "PRD: "@ + page.title@ + "\n\n"@ + page_meta_spec(page, false) + "\n---\n\n"@ + text
}

/// The raw PRD of a page whose lightweight Markdown is `text`: see
/// `raw_prd_spec`.
pub fn raw_prd_content(page: &WikiPage, text: &str) -> (r: String)
    ensures
        r@ == raw_prd_spec(*page, text@),
{
    let mut out = to_chars("PRD: ");
    push_string(&mut out, &page.title);
    push(&mut out, "\n\n");
    let meta = page_meta(page, false);
    extend_chars(&mut out, meta.as_slice());
    push(&mut out, "\n---\n\n");
    push(&mut out, text);
    from_chars(out.as_slice())
}

// ───────────────────────── the structured PRD ─────────────────────────

/// The requirement blocks: a titled block under a `###` heading.
pub open spec fn requirements_md(reqs: Seq<(Seq<char>, Seq<char>)>) -> Seq<char>
    decreases reqs.len(),
{
    if reqs.len() == 0 {
        Seq::<char>::empty()
    } else {
        let (title, content) = reqs.last();
        requirements_md(reqs.drop_last()) + (if title.len() == 0 {
            content
        } else {
            "### "@ + title + "\n\n"@ + content
        }) + "\n\n"@
    }
}

/// Texts each followed by a blank line.
pub open spec fn paragraphs_md(ps: Seq<Seq<char>>) -> Seq<char>
    decreases ps.len(),
{
    if ps.len() == 0 {
        Seq::<char>::empty()
    } else {
        paragraphs_md(ps.drop_last()) + ps.last() + "\n\n"@
    }
}

/// Criteria as a numbered list.
pub open spec fn numbered_md(items: Seq<Seq<char>>) -> Seq<char>
    decreases items.len(),
{
    if items.len() == 0 {
        Seq::<char>::empty()
    } else {
        numbered_md(items.drop_last()) + decimal_spec(items.len()) + ". "@ + items.last() + "\n"@
    }
}

/// The overview section: the page's overview, or a sentence naming it.
pub open spec fn overview_md(s: SectionsModel, title: Seq<char>) -> Seq<char> {
    "## Overview\n\n"@ + match s.overview {
        Some(o) => o,
        None => "This document describes the requirements for **"@ + title + "**.\n"@,
    } + "\n\n"@
}

/// A section with a heading where there is content for it.
pub open spec fn opt_section_md(heading: Seq<char>, content: Option<Seq<char>>) -> Seq<char> {
    match content {
        Some(c) => heading + c + "\n\n"@,
        None => Seq::<char>::empty(),
    }
}

/// The requirements section, where there are requirement blocks.
pub open spec fn reqs_section_md(s: SectionsModel) -> Seq<char> {
    if s.requirements.len() > 0 {
        "## Requirements\n\n"@ + requirements_md(s.requirements)
    } else {
        Seq::<char>::empty()
    }
}

/// The acceptance-criteria section, where there are criteria: raw blocks,
/// then the numbered criteria.
pub open spec fn ac_section_md(s: SectionsModel) -> Seq<char> {
    if s.acceptance_criteria_raw.len() > 0 || s.acceptance_criteria.len() > 0 {
        "## Acceptance Criteria\n\n"@ + paragraphs_md(s.acceptance_criteria_raw) + numbered_md(
            s.acceptance_criteria,
        ) + "\n"@
    } else {
        Seq::<char>::empty()
    }
}

/// The remaining details, where there are any.
pub open spec fn rest_section_md(s: SectionsModel) -> Seq<char> {
    if s.remaining.len() > 0 {
        "## Additional Details\n\n"@ + s.remaining + "\n"@
    } else {
        Seq::<char>::empty()
    }
}

/// The sections of the structured PRD: overview, then scope, requirements,
/// acceptance criteria, notes and remaining details, each where present.
pub open spec fn prd_sections_md(s: SectionsModel, title: Seq<char>) -> Seq<char> {
    overview_md(s, title) + opt_section_md("## Scope\n\n"@, s.scope) + reqs_section_md(s)
        + ac_section_md(s) + opt_section_md("## Notes\n\n"@, s.notes) + rest_section_md(s)
}

/// The structured PRD of a page whose Markdown is `raw_md`: title, the
/// metadata as bullets, then the page's content sorted into PRD sections;
/// runs of blank lines shortened and the whole trimmed.
pub open spec fn format_prd_spec(page: WikiPage, raw_md: Seq<char>) -> Seq<char> {
    let body = "# PRD: "@ + page.title@ + "\n\n"@ + "## Metadata\n\n"@ + page_meta_spec(page, true)
        + "\n"@ + prd_sections_md(parse_into_sections_spec(raw_md, page.title@), page.title@);
    trim_spec(collapse_blank_spec(body))
}

fn opt_section(out: &mut Vec<char>, heading: &str, content: &Option<String>)
    ensures
        final(out)@ == old(out)@ + opt_section_md(
            heading@,
            match content {
                Some(c) => Some(c@),
                None => None,
            },
        ),
{
    match content {
        Some(c) => {
            push(out, heading);
            push_string(out, c);
            push(out, "\n\n");
        },
        None => {
            assert(old(out)@ + Seq::<char>::empty() =~= old(out)@);
        },
    }
}

fn reqs_section(out: &mut Vec<char>, s: &crate::prd::sections::ParsedSections)
    ensures
        final(out)@ == old(out)@ + reqs_section_md(s@),
{
    if s.requirements.len() == 0 {
        assert(old(out)@ + Seq::<char>::empty() =~= old(out)@);
        return;
    }
    push(out, "## Requirements\n\n");
    let ghost start = out@;
    let mut i: usize = 0;
    while i < s.requirements.len()
        invariant
            i <= s.requirements.len(),
            out@ == start + requirements_md(s@.requirements.take(i as int)),
        decreases s.requirements.len() - i,
    {
        let req = &s.requirements[i];
        let t = to_chars(req.title.as_str());
        if t.len() == 0 {
            push_string(out, &req.content);
        } else {
            push(out, "### ");
            extend_chars(out, t.as_slice());
            push(out, "\n\n");
            push_string(out, &req.content);
        }
        push(out, "\n\n");
        proof {
            assert(s@.requirements.take(i + 1).drop_last() =~= s@.requirements.take(i as int));
            assert(s@.requirements[i as int] == (req.title@, req.content@));
        }
        i = i + 1;
    }
    assert(s@.requirements.take(s.requirements.len() as int) =~= s@.requirements);
}

fn ac_section(out: &mut Vec<char>, s: &crate::prd::sections::ParsedSections)
    ensures
        final(out)@ == old(out)@ + ac_section_md(s@),
{
    if s.acceptance_criteria_raw.len() == 0 && s.acceptance_criteria.len() == 0 {
        assert(old(out)@ + Seq::<char>::empty() =~= old(out)@);
        return;
    }
    push(out, "## Acceptance Criteria\n\n");
    let ghost start = out@;
    let mut i: usize = 0;
    while i < s.acceptance_criteria_raw.len()
        invariant
            i <= s.acceptance_criteria_raw.len(),
            out@ == start + paragraphs_md(s@.acceptance_criteria_raw.take(i as int)),
        decreases s.acceptance_criteria_raw.len() - i,
    {
        push_string(out, &s.acceptance_criteria_raw[i]);
        push(out, "\n\n");
        proof {
            assert(s@.acceptance_criteria_raw.take(i + 1).drop_last()
                =~= s@.acceptance_criteria_raw.take(i as int));
        }
        i = i + 1;
    }
    assert(s@.acceptance_criteria_raw.take(s.acceptance_criteria_raw.len() as int)
        =~= s@.acceptance_criteria_raw);
    let ghost mid = out@;
    let mut j: usize = 0;
    while j < s.acceptance_criteria.len()
        invariant
            j <= s.acceptance_criteria.len(),
            out@ == mid + numbered_md(s@.acceptance_criteria.take(j as int)),
        decreases s.acceptance_criteria.len() - j,
    {
        extend_chars(out, decimal((j + 1) as u64).as_slice());
        push(out, ". ");
        push_string(out, &s.acceptance_criteria[j]);
        push(out, "\n");
        proof {
            assert(s@.acceptance_criteria.take(j + 1).drop_last() =~= s@.acceptance_criteria.take(
                j as int,
            ));
        }
        j = j + 1;
    }
    assert(s@.acceptance_criteria.take(s.acceptance_criteria.len() as int)
        =~= s@.acceptance_criteria);
    push(out, "\n");
}

fn sections_md(s: &crate::prd::sections::ParsedSections, title: &String) -> (r: Vec<char>)
    ensures
        r@ == prd_sections_md(s@, title@),
{
    let mut out = to_chars("## Overview\n\n");
    match &s.overview {
        Some(o) => push_string(&mut out, o),
        None => {
            push(&mut out, "This document describes the requirements for **");
            push_string(&mut out, title);
            push(&mut out, "**.\n");
        },
    }
    push(&mut out, "\n\n");
    opt_section(&mut out, "## Scope\n\n", &s.scope);
    reqs_section(&mut out, s);
    ac_section(&mut out, s);
    opt_section(&mut out, "## Notes\n\n", &s.notes);
    if to_chars(s.remaining.as_str()).len() > 0 {
        push(&mut out, "## Additional Details\n\n");
        push_string(&mut out, &s.remaining);
        push(&mut out, "\n");
    }
    out
}

/// The structured PRD of a page whose Markdown is `raw_md`: see
/// `format_prd_spec`.
pub fn format_prd(page: &WikiPage, raw_md: &str) -> (r: String)
    ensures
        r@ == format_prd_spec(*page, raw_md@),
{
    let sections = parse_into_sections(raw_md, page.title.as_str());
    let mut out = to_chars("# PRD: ");
    push_string(&mut out, &page.title);
    push(&mut out, "\n\n");
    push(&mut out, "## Metadata\n\n");
    let meta = page_meta(page, true);
    extend_chars(&mut out, meta.as_slice());
    push(&mut out, "\n");
    let body = sections_md(&sections, &page.title);
    extend_chars(&mut out, body.as_slice());
    let collapsed = collapse_blank(out.as_slice());
    from_chars(trim(collapsed.as_slice()).as_slice())
}

} // verus!
