//! Whole Confluence pages: the HTML cleaned up before conversion, tables
//! taken out and converted on their own, the rest converted (by `html2md`,
//! or by the library's own lightweight rules), and the Markdown cleaned up.
use vstd::prelude::*;
use crate::html::markup::{
    collapse_blank, collapse_blank_spec, decode_entities, decode_spec, extract_attr,
    extract_attr_spec, find_top_level_table, parse_usize, parse_usize_spec, strip_tags,
    strip_tags_spec, table_md_spec, table_to_markdown, top_table_spec, trim_lines,
    trim_lines_spec,
};
use crate::html::tables::replace_lit_str;
use crate::html::guard::{html2md_safe, html2md_safe_exec};
use crate::jira_wiki::{repeat, repeat_exec};
use crate::pattern::{
    Caps,
    const_step, group, group_text, groups_view, regex_captures, regex_compiles, regex_split,
    replace_all_spec, replace_const, replace_with, replace_wrap, replace_wrap2, splice,
    wrap2_step, wrap_step, Groups,
};
use crate::text::{
    decimal, decimal_spec, eq_chars, extend_chars, from_chars, join, join_spec, replace_spec,
    split_char, split_once_char, split_once_spec, split_spec, starts_with, starts_with_spec,
    surround, to_chars, trim, trim_end, trim_end_char, trim_end_char_spec, trim_end_spec,
    trim_spec, views,
};

verus! {

// ───────────────────────── code languages ─────────────────────────

/// The languages a Confluence code block may name on its first line.
pub open spec fn known_lang_spec(s: Seq<char>) -> bool {
    ||| s == "json"@
    ||| s == "bash"@
    ||| s == "yaml"@
    ||| s == "xml"@
    ||| s == "java"@
    ||| s == "go"@
    ||| s == "python"@
    ||| s == "javascript"@
    ||| s == "typescript"@
    ||| s == "sql"@
    ||| s == "shell"@
    ||| s == "sh"@
    ||| s == "html"@
    ||| s == "css"@
    ||| s == "groovy"@
    ||| s == "kotlin"@
    ||| s == "swift"@
    ||| s == "ruby"@
    ||| s == "php"@
    ||| s == "text"@
    ||| s == "plain"@
    ||| s == "properties"@
    ||| s == "toml"@
}

fn is_lit(s: &[char], l: &str) -> (b: bool)
    ensures
        b == (s@ == l@),
{
    eq_chars(s, to_chars(l).as_slice())
}

/// Whether a code block's first line names a known language.
pub fn is_known_lang(s: &[char]) -> (b: bool)
    ensures
        b == known_lang_spec(s@),
{
    is_lit(s, "json") || is_lit(s, "bash") || is_lit(s, "yaml") || is_lit(s, "xml") || is_lit(
        s,
        "java",
    ) || is_lit(s, "go") || is_lit(s, "python") || is_lit(s, "javascript") || is_lit(
        s,
        "typescript",
    ) || is_lit(s, "sql") || is_lit(s, "shell") || is_lit(s, "sh") || is_lit(s, "html") || is_lit(
        s,
        "css",
    ) || is_lit(s, "groovy") || is_lit(s, "kotlin") || is_lit(s, "swift") || is_lit(s, "ruby")
        || is_lit(s, "php") || is_lit(s, "text") || is_lit(s, "plain") || is_lit(s, "properties")
        || is_lit(s, "toml")
}

// ───────────────────────── before conversion ─────────────────────────

/// Relative links and image sources made absolute against `base`.
pub open spec fn absolute_links_spec(html: Seq<char>, base: Seq<char>) -> Seq<char> {
    if base.len() == 0 {
        html
    } else {
        let h1 = replace_spec(html, "src=\"/download/"@, "src=\""@ + base + "/download/"@);
        let h2 = replace_spec(h1, "src=\"/rest/"@, "src=\""@ + base + "/rest/"@);
        let h3 = replace_spec(
            h2,
            "data-image-src=\"/download/"@,
            "data-image-src=\""@ + base + "/download/"@,
        );
        let h4 = replace_spec(h3, "href=\"/display/"@, "href=\""@ + base + "/display/"@);
        let h5 = replace_spec(h4, "href=\"/download/"@, "href=\""@ + base + "/download/"@);
        replace_spec(h5, "href=\"/pages/"@, "href=\""@ + base + "/pages/"@)
    }
}

fn replace_prefixed(s: &[char], f: &str, pre: &str, base: &[char], post: &str) -> (r: Vec<char>)
    requires
        f@.len() > 0,
    ensures
        r@ == replace_spec(s@, f@, pre@ + base@ + post@),
{
    let t = surround(pre, base, post);
    crate::text::replace(s, to_chars(f).as_slice(), t.as_slice())
}

fn absolute_links(html: &[char], base: &[char]) -> (r: Vec<char>)
    ensures
        r@ == absolute_links_spec(html@, base@),
{
    if base.len() == 0 {
        return crate::text::slice_vec(html, 0, html.len());
    }
    proof {
        reveal_strlit("src=\"/download/");
        reveal_strlit("src=\"/rest/");
        reveal_strlit("data-image-src=\"/download/");
        reveal_strlit("href=\"/display/");
        reveal_strlit("href=\"/download/");
        reveal_strlit("href=\"/pages/");
    }
    let h1 = replace_prefixed(html, "src=\"/download/", "src=\"", base, "/download/");
    let h2 = replace_prefixed(h1.as_slice(), "src=\"/rest/", "src=\"", base, "/rest/");
    let h3 = replace_prefixed(
        h2.as_slice(),
        "data-image-src=\"/download/",
        "data-image-src=\"",
        base,
        "/download/",
    );
    let h4 = replace_prefixed(h3.as_slice(), "href=\"/display/", "href=\"", base, "/display/");
    let h5 = replace_prefixed(h4.as_slice(), "href=\"/download/", "href=\"", base, "/download/");
    replace_prefixed(h5.as_slice(), "href=\"/pages/", "href=\"", base, "/pages/")
}

/// A syntax-highlighted code block as a fenced block: entities decoded,
/// a known language on the first line taken as the fence's language, the
/// code trimmed.
pub open spec fn code_block_step() -> spec_fn(Caps) -> Seq<char> {
    |c: Caps|
        {
            let content = decode_spec(group(c, 1));
            let (first, rest) = match split_once_spec(content, '\n') {
                Some((a, b)) => (a, b),
                None => (content, Seq::<char>::empty()),
            };
            let (lang, code) = if known_lang_spec(trim_spec(first)) {
                (trim_spec(first), rest)
            } else {
                (Seq::<char>::empty(), content)
            };
            "\n\n```"@ + lang + "\n"@ + trim_spec(code) + "\n```\n\n"@
        }
}

/// An image tag reduced to its source and alternative text (the `alt`
/// attribute, else `data-linked-resource-default-alias`, else nothing).
pub open spec fn simple_image_step() -> spec_fn(Caps) -> Seq<char> {
    |c: Caps|
        {
            let alt = match extract_attr_spec(group(c, 0), "alt"@) {
                Some(a) => a,
                None => match extract_attr_spec(group(c, 0), "data-linked-resource-default-alias"@) {
                    Some(a) => a,
                    None => Seq::<char>::empty(),
                },
            };
            "<img src=\""@ + group(c, 1) + "\" alt=\""@ + alt + "\">"@
        }
}

/// Confluence HTML made plain before conversion: links made absolute, code
/// blocks fenced, status macros bold and bracketed, user mentions bold,
/// tables of contents, colour and highlighting spans and wrapper divisions
/// removed, images reduced to source and alternative text, and information
/// macros made block quotes.
pub open spec fn preprocess_spec(html: Seq<char>, base: Seq<char>) -> Seq<char> {
    let h0 = absolute_links_spec(html, base);
    let h1 = replace_all_spec(
        r#"(?s)<pre class="syntaxhighlighter-pre"[^>]*>(.*?)</pre>"#@,
        h0,
        code_block_step(),
    );
    let h2 = replace_all_spec(
        r#"<span[^>]*class="[^"]*status-macro[^"]*"[^>]*>([^<]*)</span>"#@,
        h1,
        wrap_step("**["@, 1, "]**"@),
    );
    let h3 = replace_all_spec(
        r#"<a[^>]*class="[^"]*user-mention[^"]*"[^>]*>([^<]+)</a>"#@,
        h2,
        wrap_step("**"@, 1, "**"@),
    );
    let h4 = replace_all_spec(
        r#"(?s)<div[^>]*class="[^"]*toc-macro[^"]*"[^>]*>.*?</div>"#@,
        h3,
        const_step(Seq::<char>::empty()),
    );
    let h5 = replace_all_spec(
        r#"<span\s+style="color:\s*rgb\([^)]+\);?[^"]*">"#@,
        h4,
        const_step(Seq::<char>::empty()),
    );
    let h6 = replace_all_spec(
        r#"<span[^>]*class="mtk\d+"[^>]*>"#@,
        h5,
        const_step(Seq::<char>::empty()),
    );
    let h7 = replace_spec(h6, "<div class=\"content-wrapper\">"@, Seq::<char>::empty());
    let h8 = replace_spec(h7, "<div class=\"table-wrap\">"@, Seq::<char>::empty());
    let h9 = replace_all_spec(
        r#"<div[^>]*class="code panel[^"]*"[^>]*>"#@,
        h8,
        const_step(Seq::<char>::empty()),
    );
    let h10 = replace_all_spec(
        r#"<div[^>]*class="codeContent[^"]*"[^>]*>"#@,
        h9,
        const_step(Seq::<char>::empty()),
    );
    let h11 = replace_all_spec(r#"(?s)<img[^>]*\bsrc="([^"]+)"[^>]*>"#@, h10, simple_image_step());
    replace_all_spec(
        r#"<div[^>]*class="[^"]*confluence-information-macro[^"]*"[^>]*>"#@,
        h11,
        const_step("<blockquote>"@),
    )
}

fn code_block(c: &Groups) -> (v: Vec<char>)
    ensures
        v@ == (code_block_step())(groups_view(*c)),
{
    let content = decode_entities(group_text(c, 1).as_slice());
    let (first, rest) = match split_once_char(content.as_slice(), '\n') {
        Some((a, b)) => (a, b),
        None => (crate::text::slice_vec(content.as_slice(), 0, content.len()), Vec::new()),
    };
    assert(content@.subrange(0, content@.len() as int) =~= content@);
    let tf = trim(first.as_slice());
    let (lang, code) = if is_known_lang(tf.as_slice()) {
        (tf, rest)
    } else {
        (Vec::new(), content)
    };
    let mut v = surround("\n\n```", lang.as_slice(), "\n");
    extend_chars(&mut v, trim(code.as_slice()).as_slice());
    extend_chars(&mut v, to_chars("\n```\n\n").as_slice());
    v
}

fn simple_image(c: &Groups) -> (v: Vec<char>)
    ensures
        v@ == (simple_image_step())(groups_view(*c)),
{
    let whole = group_text(c, 0);
    let alt = match extract_attr(whole.as_slice(), to_chars("alt").as_slice()) {
        Some(a) => a,
        None => match extract_attr(
            whole.as_slice(),
            to_chars("data-linked-resource-default-alias").as_slice(),
        ) {
            Some(a) => a,
            None => Vec::new(),
        },
    };
    let mut v = surround("<img src=\"", group_text(c, 1).as_slice(), "\" alt=\"");
    extend_chars(&mut v, alt.as_slice());
    extend_chars(&mut v, to_chars("\">").as_slice());
    v
}

/// Cleans Confluence HTML before conversion: see `preprocess_spec`.
pub fn preprocess_html(html: &[char], base_url: &[char]) -> (r: Vec<char>)
    ensures
        r@ == preprocess_spec(html@, base_url@),
{
    let h0 = from_chars(absolute_links(html, base_url).as_slice());
    let f1 = |c: &Groups| -> (v: Vec<char>)
        ensures
            v@ == (code_block_step())(groups_view(*c)),
        { code_block(c) };
    let h1 = replace_with(
        r#"(?s)<pre class="syntaxhighlighter-pre"[^>]*>(.*?)</pre>"#,
        h0.as_str(),
        f1,
        Ghost(code_block_step()),
    );
    let h2 = replace_wrap(
        r#"<span[^>]*class="[^"]*status-macro[^"]*"[^>]*>([^<]*)</span>"#,
        h1.as_str(),
        "**[",
        1,
        "]**",
    );
    let h3 = replace_wrap(
        r#"<a[^>]*class="[^"]*user-mention[^"]*"[^>]*>([^<]+)</a>"#,
        h2.as_str(),
        "**",
        1,
        "**",
    );
    proof {
        reveal_strlit("");
        assert(""@ =~= Seq::<char>::empty());
    }
    let h4 = replace_const(
        r#"(?s)<div[^>]*class="[^"]*toc-macro[^"]*"[^>]*>.*?</div>"#,
        h3.as_str(),
        "",
    );
    let h5 = replace_const(r#"<span\s+style="color:\s*rgb\([^)]+\);?[^"]*">"#, h4.as_str(), "");
    let h6 = replace_const(r#"<span[^>]*class="mtk\d+"[^>]*>"#, h5.as_str(), "");
    proof {
        reveal_strlit("<div class=\"content-wrapper\">");
        reveal_strlit("<div class=\"table-wrap\">");
    }
    let h7 = replace_lit_str(to_chars(h6.as_str()).as_slice(), "<div class=\"content-wrapper\">", "");
    let h8 = replace_lit_str(h7.as_slice(), "<div class=\"table-wrap\">", "");
    let h8s = from_chars(h8.as_slice());
    let h9 = replace_const(r#"<div[^>]*class="code panel[^"]*"[^>]*>"#, h8s.as_str(), "");
    let h10 = replace_const(r#"<div[^>]*class="codeContent[^"]*"[^>]*>"#, h9.as_str(), "");
    let f11 = |c: &Groups| -> (v: Vec<char>)
        ensures
            v@ == (simple_image_step())(groups_view(*c)),
        { simple_image(c) };
    let h11 = replace_with(
        r#"(?s)<img[^>]*\bsrc="([^"]+)"[^>]*>"#,
        h10.as_str(),
        f11,
        Ghost(simple_image_step()),
    );
    let h12 = replace_const(
        r#"<div[^>]*class="[^"]*confluence-information-macro[^"]*"[^>]*>"#,
        h11.as_str(),
        "<blockquote>",
    );
    to_chars(h12.as_str())
}


// ───────────────────────── after conversion ─────────────────────────

/// A line outside code blocks with its Markdown escapes undone (`\[`,
/// `\]`, `\*`, `\\`) and its trailing whitespace removed.
pub open spec fn unescape_line(l: Seq<char>) -> Seq<char> {
    let l1 = replace_spec(l, "\\["@, "["@);
    let l2 = replace_spec(l1, "\\]"@, "]"@);
    let l3 = replace_spec(l2, "\\*"@, "*"@);
    trim_end_spec(replace_spec(l3, "\\\\"@, "\\"@))
}

/// The lines with escapes undone outside code blocks; a line that starts
/// with a fence opens or closes a block and stays as it is.
pub open spec fn unescape_lines(ls: Seq<Seq<char>>, in_code: bool) -> Seq<Seq<char>>
    decreases ls.len(),
{
    if ls.len() == 0 {
        seq![]
    } else {
        let l = ls[0];
        if starts_with_spec(l, "```"@) {
            seq![l] + unescape_lines(ls.skip(1), !in_code)
        } else if in_code {
            seq![l] + unescape_lines(ls.skip(1), in_code)
        } else {
            seq![unescape_line(l)] + unescape_lines(ls.skip(1), in_code)
        }
    }
}

/// Markdown cleaned after conversion: entities decoded, non-breaking
/// spaces made spaces, bold removed from headings, escapes undone outside
/// code blocks, leftover tags removed, a stray quote after an image's
/// closing parenthesis removed, runs of blank lines shortened, and the
/// whole trimmed.
pub open spec fn postprocess_spec(md: Seq<char>) -> Seq<char> {
    let m1 = replace_spec(decode_spec(md), "\u{a0}"@, " "@);
    let m2 = replace_all_spec(
        r"(?m)^(#{1,6}\s+)\*\*(.+?)\*\*\s*$"@,
        m1,
        wrap2_step(Seq::<char>::empty(), 1, Seq::<char>::empty(), 2, Seq::<char>::empty()),
    );
    let m3 = join_spec(unescape_lines(split_spec(m2, '\n'), false), "\n"@);
    let m4 = replace_all_spec(
        r"</(?:span|div|colgroup|col|thead|tbody)>"@,
        m3,
        const_step(Seq::<char>::empty()),
    );
    let m5 = replace_all_spec(
        r#"<(?:colgroup|col|thead|tbody)[^>]*>"#@,
        m4,
        const_step(Seq::<char>::empty()),
    );
    let m6 = replace_spec(m5, ")\""@, ")"@);
    trim_spec(collapse_blank_spec(m6))
}

fn unescape_line_exec(l: &[char]) -> (r: Vec<char>)
    ensures
        r@ == unescape_line(l@),
{
    proof {
        reveal_strlit("\\[");
        reveal_strlit("\\]");
        reveal_strlit("\\*");
        reveal_strlit("\\\\");
    }
    let l1 = replace_lit_str(l, "\\[", "[");
    let l2 = replace_lit_str(l1.as_slice(), "\\]", "]");
    let l3 = replace_lit_str(l2.as_slice(), "\\*", "*");
    let l4 = replace_lit_str(l3.as_slice(), "\\\\", "\\");
    trim_end(l4.as_slice())
}

fn unescape_lines_exec(ls: &Vec<Vec<char>>) -> (r: Vec<Vec<char>>)
    ensures
        views(r@) == unescape_lines(views(ls@), false),
{
    let ghost all = views(ls@);
    let fence = to_chars("```");
    let mut out: Vec<Vec<char>> = Vec::new();
    let mut in_code = false;
    let mut i: usize = 0;
    assert(all.skip(0) =~= all);
    while i < ls.len()
        invariant
            i <= ls.len(),
            all == views(ls@),
            out@.len() == i,
            fence@ == "```"@,
            views(out@) + unescape_lines(all.skip(i as int), in_code) == unescape_lines(all, false),
        decreases ls.len() - i,
    {
        let ghost prev = views(out@);
        let l = &ls[i];
        proof {
            assert(all.skip(i as int)[0] == l@);
            assert(all.skip(i as int).skip(1) =~= all.skip(i + 1));
        }
        let was = in_code;
        if starts_with(l.as_slice(), fence.as_slice()) {
            out.push(crate::text::slice_vec(l.as_slice(), 0, l.len()));
            in_code = !in_code;
        } else if in_code {
            out.push(crate::text::slice_vec(l.as_slice(), 0, l.len()));
        } else {
            out.push(unescape_line_exec(l.as_slice()));
        }
        proof {
            assert(l@.subrange(0, l@.len() as int) =~= l@);
            assert(views(out@) =~= prev.push(out@[i as int]@));
            assert(prev + unescape_lines(all.skip(i as int), was) =~= views(out@) + unescape_lines(
                all.skip(i + 1),
                in_code,
            ));
        }
        i = i + 1;
    }
    assert(all.skip(ls.len() as int) =~= Seq::<Seq<char>>::empty());
    assert(views(out@) + Seq::<Seq<char>>::empty() =~= views(out@));
    out
}

/// Cleans Markdown after conversion: see `postprocess_spec`.
pub fn postprocess_markdown(md: &[char]) -> (r: Vec<char>)
    ensures
        r@ == postprocess_spec(md@),
{
    proof {
        reveal_strlit("\u{a0}");
        reveal_strlit(")\"");
        reveal_strlit("");
        assert(""@ =~= Seq::<char>::empty());
    }
    let m0 = decode_entities(md);
    let m1 = from_chars(replace_lit_str(m0.as_slice(), "\u{a0}", " ").as_slice());
    let m2 = crate::pattern::replace_wrap2(
        r"(?m)^(#{1,6}\s+)\*\*(.+?)\*\*\s*$",
        m1.as_str(),
        "",
        1,
        "",
        2,
        "",
    );
    let parts = split_char(to_chars(m2.as_str()).as_slice(), '\n');
    let fixed = unescape_lines_exec(&parts);
    let m3 = from_chars(join(&fixed, to_chars("\n").as_slice()).as_slice());
    let m4 = replace_const(r"</(?:span|div|colgroup|col|thead|tbody)>", m3.as_str(), "");
    let m5 = replace_const(r#"<(?:colgroup|col|thead|tbody)[^>]*>"#, m4.as_str(), "");
    let m6 = replace_lit_str(to_chars(m5.as_str()).as_slice(), ")\"", ")");
    trim(collapse_blank(m6.as_slice()).as_slice())
}

// ───────────────────────── tables set aside ─────────────────────────

/// The placeholder for the `n`-th table set aside.
pub open spec fn placeholder(kp: Seq<char>, n: nat, ks: Seq<char>) -> Seq<char> {
    kp + decimal_spec(n) + ks
}

/// Top-level tables taken out one after the other (at most `rounds` of
/// them), each replaced by its placeholder on a paragraph of its own; the
/// text left, and the placeholders with the tables' Markdown appended to
/// `acc` in order.
pub open spec fn set_aside_spec(
    html: Seq<char>,
    rounds: nat,
    counter: nat,
    kp: Seq<char>,
    ks: Seq<char>,
    acc: Seq<(Seq<char>, Seq<char>)>,
) -> (Seq<char>, Seq<(Seq<char>, Seq<char>)>)
    decreases rounds,
{
    if rounds == 0 {
        (html, acc)
    } else {
        match top_table_spec(html) {
            None => (html, acc),
            Some((pre, tab, post)) => {
                let key = placeholder(kp, counter, ks);
                set_aside_spec(
                    pre + "\n\n"@ + key + "\n\n"@ + post,
                    (rounds - 1) as nat,
                    counter + 1,
                    kp,
                    ks,
                    acc.push((key, table_md_spec(tab))),
                )
            },
        }
    }
}

/// Each placeholder, in order, replaced by its table's Markdown on lines
/// of its own.
pub open spec fn restore_spec(md: Seq<char>, ts: Seq<(Seq<char>, Seq<char>)>) -> Seq<char>
    decreases ts.len(),
{
    if ts.len() == 0 {
        md
    } else {
        restore_spec(replace_spec(md, ts[0].0, "\n"@ + ts[0].1 + "\n"@), ts.skip(1))
    }
}

/// The views of the set-aside tables.
pub open spec fn pairs_chars(v: Seq<(Vec<char>, Vec<char>)>) -> Seq<(Seq<char>, Seq<char>)> {
    v.map_values(|p: (Vec<char>, Vec<char>)| (p.0@, p.1@))
}

fn set_aside_tables(html: Vec<char>, kp: &str, ks: &str) -> (r: (Vec<char>, Vec<(Vec<char>, Vec<char>)>))
    requires
        kp@.len() > 0,
    ensures
        (r.0@, pairs_chars(r.1@)) == set_aside_spec(
            html@,
            html@.len(),
            0,
            kp@,
            ks@,
            Seq::empty(),
        ),
        forall|i: int| 0 <= i < r.1@.len() ==> (#[trigger] r.1@[i]).0@.len() > 0,
{
    let ghost h0 = html@;
    let ghost target = set_aside_spec(h0, h0.len(), 0, kp@, ks@, Seq::empty());
    let mut rounds: usize = html.len();
    let mut text = html;
    let mut tables: Vec<(Vec<char>, Vec<char>)> = Vec::new();
    let mut counter: usize = 0;
    assert(pairs_chars(tables@) =~= Seq::<(Seq<char>, Seq<char>)>::empty());
    loop
        invariant
            kp@.len() > 0,
            counter <= h0.len(),
            rounds + counter == h0.len(),
            h0 == html@,
            h0.len() <= usize::MAX,
            target == set_aside_spec(html@, html@.len(), 0, kp@, ks@, Seq::empty()),
            set_aside_spec(text@, rounds as nat, counter as nat, kp@, ks@, pairs_chars(tables@))
                == target,
            forall|i: int| 0 <= i < tables@.len() ==> (#[trigger] tables@[i]).0@.len() > 0,
        decreases rounds,
    {
        if rounds == 0 {
            assert((text@, pairs_chars(tables@)) == target);
            return (text, tables);
        }
        match find_top_level_table(text.as_slice()) {
            None => {
                assert((text@, pairs_chars(tables@)) == target);
                return (text, tables);
            },
            Some((pre, tab, post)) => {
                let mut key = to_chars(kp);
                extend_chars(&mut key, decimal(counter as u64).as_slice());
                extend_chars(&mut key, to_chars(ks).as_slice());
                let md = table_to_markdown(tab.as_slice());
                let mut next = surround("", pre.as_slice(), "\n\n");
                proof {
                    reveal_strlit("");
                    assert(next@ =~= pre@ + "\n\n"@);
                }
                extend_chars(&mut next, key.as_slice());
                extend_chars(&mut next, to_chars("\n\n").as_slice());
                extend_chars(&mut next, post.as_slice());
                let ghost prev = pairs_chars(tables@);
                let ghost k = key@;
                tables.push((key, md));
                proof {
                    assert(pairs_chars(tables@) =~= prev.push((k, md@)));
                    assert(k =~= placeholder(kp@, counter as nat, ks@));
                }
                text = next;
                rounds = rounds - 1;
                counter = counter + 1;
            },
        }
    }
}

fn restore_tables(md: Vec<char>, tables: &Vec<(Vec<char>, Vec<char>)>) -> (r: Vec<char>)
    requires
        forall|i: int| 0 <= i < tables@.len() ==> (#[trigger] tables@[i]).0@.len() > 0,
    ensures
        r@ == restore_spec(md@, pairs_chars(tables@)),
{
    let ghost all = pairs_chars(tables@);
    let mut m = md;
    let mut i: usize = 0;
    assert(all.skip(0) =~= all);
    while i < tables.len()
        invariant
            i <= tables.len(),
            all == pairs_chars(tables@),
            forall|j: int| 0 <= j < tables@.len() ==> (#[trigger] tables@[j]).0@.len() > 0,
            restore_spec(m@, all.skip(i as int)) == restore_spec(md@, all),
        decreases tables.len() - i,
    {
        let (key, t) = &tables[i];
        let rep = surround("\n", t.as_slice(), "\n");
        proof {
            assert(all.skip(i as int)[0] == (key@, t@));
            assert(all.skip(i as int).skip(1) =~= all.skip(i + 1));
        }
        m = crate::text::replace(m.as_slice(), key.as_slice(), rep.as_slice());
        i = i + 1;
    }
    m
}

/// What `html2md::parse_html` makes of an HTML text.
pub uninterp spec fn html2md_spec(html: Seq<char>) -> Seq<char>;

/// Converts HTML to Markdown with `html2md::parse_html`. The contract names
/// the result; what the crate's tag handlers produce is not stated here.
/// `parse_html` fails on a list item outside any list (its handler strips
/// the start of the whole output and an enclosing handler then slices past
/// its end), so the text must pass `html2md_safe`; the crate's source shows
/// no other failure on such a text, though nothing here proves that.
#[verifier::external_body]
fn html_to_markdown(html: &str) -> (r: String)
    requires
        html2md_safe(html@),
    ensures
        r@ == html2md_spec(html@),
{
    html2md::parse_html(html)
}

/// The cleaned HTML with its tables set aside, and the tables: what
/// `html2md` is handed, and what is put back into its result.
pub open spec fn convert_parts_spec(raw_html: Seq<char>, base_url: Seq<char>) -> (
    Seq<char>,
    Seq<(Seq<char>, Seq<char>)>,
) {
    let base = trim_end_char_spec(base_url, '/');
    let h = preprocess_spec(raw_html, base);
    set_aside_spec(h, h.len(), 0, "TBLPLACEHOLDER"@, ""@, Seq::empty())
}

/// Whether `html2md` can convert what a page's HTML becomes before the
/// conversion (see `html2md_safe`).
pub open spec fn convertible(raw_html: Seq<char>, base_url: Seq<char>) -> bool {
    html2md_safe(convert_parts_spec(raw_html, base_url).0)
}

/// A Confluence page's HTML as Markdown: the base URL without trailing
/// slashes, the HTML cleaned against it, its top-level tables set aside
/// (`TBLPLACEHOLDER0`, `TBLPLACEHOLDER1`, ...), the rest converted by
/// `html2md`, the tables' Markdown put back in order, and the Markdown
/// cleaned.
pub open spec fn convert_to_markdown_spec(raw_html: Seq<char>, base_url: Seq<char>) -> Seq<char> {
    let (h2, ts) = convert_parts_spec(raw_html, base_url);
    postprocess_spec(restore_spec(html2md_spec(h2), ts))
}

fn convert_parts(raw_html: &str, base_url: &str) -> (r: (Vec<char>, Vec<(Vec<char>, Vec<char>)>))
    ensures
        (r.0@, pairs_chars(r.1@)) == convert_parts_spec(raw_html@, base_url@),
        forall|i: int| 0 <= i < r.1@.len() ==> (#[trigger] r.1@[i]).0@.len() > 0,
{
    let base = trim_end_char(to_chars(base_url).as_slice(), '/');
    let h = preprocess_html(to_chars(raw_html).as_slice(), base.as_slice());
    proof {
        reveal_strlit("TBLPLACEHOLDER");
    }
    set_aside_tables(h, "TBLPLACEHOLDER", "")
}

fn finish_markdown(h2: &[char], tables: &Vec<(Vec<char>, Vec<char>)>) -> (r: String)
    requires
        html2md_safe(h2@),
        forall|i: int| 0 <= i < tables@.len() ==> (#[trigger] tables@[i]).0@.len() > 0,
    ensures
        r@ == postprocess_spec(restore_spec(html2md_spec(h2@), pairs_chars(tables@))),
{
    let html = from_chars(h2);
    let md = html_to_markdown(html.as_str());
    let restored = restore_tables(to_chars(md.as_str()), tables);
    from_chars(postprocess_markdown(restored.as_slice()).as_slice())
}

/// Converts a Confluence page's HTML to Markdown: see
/// `convert_to_markdown_spec`. The HTML must be `convertible`:
/// `try_convert_to_markdown` tests that first.
pub fn convert_to_markdown(raw_html: &str, base_url: &str) -> (r: String)
    requires
        convertible(raw_html@, base_url@),
    ensures
        r@ == convert_to_markdown_spec(raw_html@, base_url@),
{
    let (h2, tables) = convert_parts(raw_html, base_url);
    finish_markdown(h2.as_slice(), &tables)
}

/// Converts a Confluence page's HTML to Markdown where it is `convertible`
/// (`Some`, as `convert_to_markdown` does), and gives `None` where it is
/// not.
pub fn try_convert_to_markdown(raw_html: &str, base_url: &str) -> (r: Option<String>)
    ensures
        r is Some <==> convertible(raw_html@, base_url@),
        r matches Some(m) ==> m@ == convert_to_markdown_spec(raw_html@, base_url@),
{
    let (h2, tables) = convert_parts(raw_html, base_url);
    if html2md_safe_exec(h2.as_slice()) {
        Some(finish_markdown(h2.as_slice(), &tables))
    } else {
        None
    }
}


// ───────────────────────── lightweight conversion ─────────────────────────

/// A heading as a Markdown heading of its level (2 where the level does
/// not parse), its text without tags and trimmed.
pub open spec fn light_heading_step() -> spec_fn(Caps) -> Seq<char> {
    |c: Caps|
        {
            let level = match parse_usize_spec(group(c, 1)) {
                Some(v) => v,
                None => 2,
            };
            "\n"@ + repeat("#"@, level) + " "@ + trim_spec(strip_tags_spec(group(c, 2))) + "\n"@
        }
}

/// The inline and block markup of the lightweight conversion, then every
/// tag left removed.
pub open spec fn light_markup_spec(h: Seq<char>) -> Seq<char> {
    let e = Seq::<char>::empty();
    let h1 = replace_all_spec(r"(?is)<h([1-6])[^>]*>(.*?)</h[1-6]>"@, h, light_heading_step());
    let h2 = replace_all_spec(
        r"(?is)<(strong|b)\b[^>]*>(.*?)</(strong|b)>"@,
        h1,
        wrap_step("**"@, 2, "**"@),
    );
    let h3 = replace_all_spec(r"(?is)<(em|i)\b[^>]*>(.*?)</(em|i)>"@, h2, wrap_step("*"@, 2, "*"@));
    let h4 = replace_all_spec(
        r"(?is)<(del|s|strike)\b[^>]*>(.*?)</(del|s|strike)>"@,
        h3,
        wrap_step("~~"@, 2, "~~"@),
    );
    let h5 = replace_all_spec(r"(?is)<code>(.*?)</code>"@, h4, wrap_step("`"@, 1, "`"@));
    let h6 = replace_all_spec(
        r"(?is)<pre[^>]*>(.*?)</pre>"@,
        h5,
        wrap_step("\n```\n"@, 1, "\n```\n"@),
    );
    let h7 = replace_all_spec(r"(?i)<br\s*/?>"@, h6, const_step("\n"@));
    let h8 = replace_all_spec(r"(?is)<li[^>]*>(.*?)</li>"@, h7, wrap_step("\n- "@, 1, e));
    let h9 = replace_all_spec(r"(?i)<(p|div)\b[^>]*>"@, h8, const_step("\n"@));
    let h10 = replace_all_spec(r"(?i)</(p|div)>"@, h9, const_step("\n"@));
    let h11 = replace_all_spec(r"(?i)<hr\s*/?>"@, h10, const_step("\n---\n"@));
    let h12 = replace_all_spec(
        r#"<img[^>]*?src="([^"]*)"[^>]*?alt="([^"]*)"[^>]*/?\s*>"#@,
        h11,
        wrap2_step("!["@, 2, "]("@, 1, ")"@),
    );
    let h13 = replace_all_spec(
        r#"<img[^>]*?alt="([^"]*)"[^>]*?src="([^"]*)"[^>]*/?\s*>"#@,
        h12,
        wrap2_step("!["@, 1, "]("@, 2, ")"@),
    );
    let h14 = replace_all_spec(
        r#"<img[^>]*?src="([^"]*)"[^>]*/?\s*>"#@,
        h13,
        wrap_step("![]("@, 1, ")"@),
    );
    let h15 = replace_all_spec(
        r#"(?s)<a[^>]*?href="([^"]*)"[^>]*>(.*?)</a>"#@,
        h14,
        wrap2_step("["@, 2, "]("@, 1, ")"@),
    );
    let h16 = replace_all_spec(r"(?i)<blockquote[^>]*>"@, h15, const_step("\n> "@));
    let h17 = replace_all_spec(r"(?i)</blockquote>"@, h16, const_step("\n"@));
    strip_tags_spec(h17)
}

/// The patterns of the lightweight markup that come before links:
/// headings, emphasis, code, line breaks, list items, paragraphs, rules and
/// images.
pub open spec fn light_inline_patterns() -> Seq<Seq<char>> {
    seq![
        r"(?is)<h([1-6])[^>]*>(.*?)</h[1-6]>"@,
        r"(?is)<(strong|b)\b[^>]*>(.*?)</(strong|b)>"@,
        r"(?is)<(em|i)\b[^>]*>(.*?)</(em|i)>"@,
        r"(?is)<(del|s|strike)\b[^>]*>(.*?)</(del|s|strike)>"@,
        r"(?is)<code>(.*?)</code>"@,
        r"(?is)<pre[^>]*>(.*?)</pre>"@,
        r"(?i)<br\s*/?>"@,
        r"(?is)<li[^>]*>(.*?)</li>"@,
        r"(?i)<(p|div)\b[^>]*>"@,
        r"(?i)</(p|div)>"@,
        r"(?i)<hr\s*/?>"@,
        r#"<img[^>]*?src="([^"]*)"[^>]*?alt="([^"]*)"[^>]*/?\s*>"#@,
        r#"<img[^>]*?alt="([^"]*)"[^>]*?src="([^"]*)"[^>]*/?\s*>"#@,
        r#"<img[^>]*?src="([^"]*)"[^>]*/?\s*>"#@,
    ]
}

/// The pattern of a link: `<a .. href="u" ..>t</a>`, `u` as group 1 and `t`
/// as group 2.
pub open spec fn light_link_pattern() -> Seq<char> {
    r#"(?s)<a[^>]*?href="([^"]*)"[^>]*>(.*?)</a>"#@
}

/// A link as Markdown: `[t](u)`.
pub open spec fn markdown_link(c: Caps) -> Seq<char> {
    "["@ + group(c, 2) + "]("@ + group(c, 1) + ")"@
}

/// Whether a pattern changes nothing in a text: it does not compile, or it
/// does not match anywhere in it.
pub open spec fn leaves_alone(pattern: Seq<char>, x: Seq<char>) -> bool {
    !regex_compiles(pattern) || (regex_split(pattern, x) == seq![x] && regex_captures(
        pattern,
        x,
    ).len() == 0)
}

proof fn lemma_leaves_alone(pattern: Seq<char>, x: Seq<char>)
    requires
        leaves_alone(pattern, x),
    ensures
        forall|f: spec_fn(Caps) -> Seq<char>| #[trigger] replace_all_spec(pattern, x, f) == x,
{
    assert forall|f: spec_fn(Caps) -> Seq<char>| #[trigger] replace_all_spec(pattern, x, f) == x by {
        if regex_compiles(pattern) {
            assert(regex_captures(pattern, x).map_values(f).len() == 0);
        }
    }
}

/// The text with every link match made a Markdown link.
pub open spec fn links_made_markdown(h: Seq<char>) -> Seq<char> {
    splice(
        regex_split(light_link_pattern(), h),
        regex_captures(light_link_pattern(), h).map_values(|c: Caps| markdown_link(c)),
    )
}

/// Links survive the lightweight markup: in a text with no other markup
/// (none of the earlier patterns matches, nor a blockquote tag once the
/// links are made), every match of the link pattern becomes `[t](u)`, the
/// text between the matches stays, and then the tags left are removed.
pub proof fn law_light_links_become_markdown(h: Seq<char>)
    requires
        forall|k: int| 0 <= k < light_inline_patterns().len() ==> leaves_alone(
            #[trigger] light_inline_patterns()[k],
            h,
        ),
        regex_compiles(light_link_pattern()),
        leaves_alone(r"(?i)<blockquote[^>]*>"@, links_made_markdown(h)),
        leaves_alone(r"(?i)</blockquote>"@, links_made_markdown(h)),
    ensures
        light_markup_spec(h) == strip_tags_spec(links_made_markdown(h)),
{
    let ps = light_inline_patterns();
    assert(leaves_alone(ps[0], h));
    lemma_leaves_alone(ps[0], h);
    assert(leaves_alone(ps[1], h));
    lemma_leaves_alone(ps[1], h);
    assert(leaves_alone(ps[2], h));
    lemma_leaves_alone(ps[2], h);
    assert(leaves_alone(ps[3], h));
    lemma_leaves_alone(ps[3], h);
    assert(leaves_alone(ps[4], h));
    lemma_leaves_alone(ps[4], h);
    assert(leaves_alone(ps[5], h));
    lemma_leaves_alone(ps[5], h);
    assert(leaves_alone(ps[6], h));
    lemma_leaves_alone(ps[6], h);
    assert(leaves_alone(ps[7], h));
    lemma_leaves_alone(ps[7], h);
    assert(leaves_alone(ps[8], h));
    lemma_leaves_alone(ps[8], h);
    assert(leaves_alone(ps[9], h));
    lemma_leaves_alone(ps[9], h);
    assert(leaves_alone(ps[10], h));
    lemma_leaves_alone(ps[10], h);
    assert(leaves_alone(ps[11], h));
    lemma_leaves_alone(ps[11], h);
    assert(leaves_alone(ps[12], h));
    lemma_leaves_alone(ps[12], h);
    assert(leaves_alone(ps[13], h));
    lemma_leaves_alone(ps[13], h);
    lemma_leaves_alone(r"(?i)<blockquote[^>]*>"@, links_made_markdown(h));
    lemma_leaves_alone(r"(?i)</blockquote>"@, links_made_markdown(h));
    let caps = regex_captures(light_link_pattern(), h);
    assert(caps.map_values(wrap2_step("["@, 2, "]("@, 1, ")"@)) =~= caps.map_values(
        |c: Caps| markdown_link(c),
    ));
}

/// The patterns of the lightweight markup, in the order they apply.
pub open spec fn light_patterns() -> Seq<Seq<char>> {
    seq![
        r"(?is)<h([1-6])[^>]*>(.*?)</h[1-6]>"@,
        r"(?is)<(strong|b)\b[^>]*>(.*?)</(strong|b)>"@,
        r"(?is)<(em|i)\b[^>]*>(.*?)</(em|i)>"@,
        r"(?is)<(del|s|strike)\b[^>]*>(.*?)</(del|s|strike)>"@,
        r"(?is)<code>(.*?)</code>"@,
        r"(?is)<pre[^>]*>(.*?)</pre>"@,
        r"(?i)<br\s*/?>"@,
        r"(?is)<li[^>]*>(.*?)</li>"@,
        r"(?i)<(p|div)\b[^>]*>"@,
        r"(?i)</(p|div)>"@,
        r"(?i)<hr\s*/?>"@,
        r#"<img[^>]*?src="([^"]*)"[^>]*?alt="([^"]*)"[^>]*/?\s*>"#@,
        r#"<img[^>]*?alt="([^"]*)"[^>]*?src="([^"]*)"[^>]*/?\s*>"#@,
        r#"<img[^>]*?src="([^"]*)"[^>]*/?\s*>"#@,
        r#"(?s)<a[^>]*?href="([^"]*)"[^>]*>(.*?)</a>"#@,
        r"(?i)<blockquote[^>]*>"@,
        r"(?i)</blockquote>"@,
    ]
}

/// What a match of each pattern becomes: a heading `#`s of its level and
/// its text; `**t**`, `*t*`, `~~t~~` for bold, italics and struck text;
/// `` `t` `` and a fenced block for code; a line break for `<br>`, `- t`
/// on a new line for a list item; a line break for a paragraph or
/// division tag; `---` for a rule; `![alt](src)` and `![](src)` for
/// images; `[t](u)` for links; `> ` on a new line for a quotation and a
/// line break at its end.
pub open spec fn light_rule(k: int) -> spec_fn(Caps) -> Seq<char> {
    if k == 0 {
        light_heading_step()
    } else if k == 1 {
        |c: Caps| "**"@ + group(c, 2) + "**"@
    } else if k == 2 {
        |c: Caps| "*"@ + group(c, 2) + "*"@
    } else if k == 3 {
        |c: Caps| "~~"@ + group(c, 2) + "~~"@
    } else if k == 4 {
        |c: Caps| "`"@ + group(c, 1) + "`"@
    } else if k == 5 {
        |c: Caps| "\n```\n"@ + group(c, 1) + "\n```\n"@
    } else if k == 6 {
        |c: Caps| "\n"@
    } else if k == 7 {
        |c: Caps| "\n- "@ + group(c, 1)
    } else if k == 8 {
        |c: Caps| "\n"@
    } else if k == 9 {
        |c: Caps| "\n"@
    } else if k == 10 {
        |c: Caps| "\n---\n"@
    } else if k == 11 {
        |c: Caps| "!["@ + group(c, 2) + "]("@ + group(c, 1) + ")"@
    } else if k == 12 {
        |c: Caps| "!["@ + group(c, 1) + "]("@ + group(c, 2) + ")"@
    } else if k == 13 {
        |c: Caps| "![]("@ + group(c, 1) + ")"@
    } else if k == 14 {
        |c: Caps| markdown_link(c)
    } else if k == 15 {
        |c: Caps| "\n> "@
    } else {
        |c: Caps| "\n"@
    }
}

proof fn lemma_light_one_kind_0(h: Seq<char>, r: Seq<char>)
    requires
        forall|j: int| 0 <= j < 0 ==> leaves_alone(#[trigger] light_patterns()[j], h),
        regex_compiles(light_patterns()[0]),
        r == splice(regex_split(light_patterns()[0], h), regex_captures(light_patterns()[0], h).map_values(light_rule(0))),
        forall|j: int| 0 < j < 17 ==> leaves_alone(#[trigger] light_patterns()[j], r),
    ensures
        light_markup_spec(h) == strip_tags_spec(r),
{
    let ps = light_patterns();
    assert(leaves_alone(ps[1], r));
    lemma_leaves_alone(ps[1], r);
    assert(leaves_alone(ps[2], r));
    lemma_leaves_alone(ps[2], r);
    assert(leaves_alone(ps[3], r));
    lemma_leaves_alone(ps[3], r);
    assert(leaves_alone(ps[4], r));
    lemma_leaves_alone(ps[4], r);
    assert(leaves_alone(ps[5], r));
    lemma_leaves_alone(ps[5], r);
    assert(leaves_alone(ps[6], r));
    lemma_leaves_alone(ps[6], r);
    assert(leaves_alone(ps[7], r));
    lemma_leaves_alone(ps[7], r);
    assert(leaves_alone(ps[8], r));
    lemma_leaves_alone(ps[8], r);
    assert(leaves_alone(ps[9], r));
    lemma_leaves_alone(ps[9], r);
    assert(leaves_alone(ps[10], r));
    lemma_leaves_alone(ps[10], r);
    assert(leaves_alone(ps[11], r));
    lemma_leaves_alone(ps[11], r);
    assert(leaves_alone(ps[12], r));
    lemma_leaves_alone(ps[12], r);
    assert(leaves_alone(ps[13], r));
    lemma_leaves_alone(ps[13], r);
    assert(leaves_alone(ps[14], r));
    lemma_leaves_alone(ps[14], r);
    assert(leaves_alone(ps[15], r));
    lemma_leaves_alone(ps[15], r);
    assert(leaves_alone(ps[16], r));
    lemma_leaves_alone(ps[16], r);
    let caps = regex_captures(ps[0], h);
    assert(caps.map_values(light_heading_step()) =~= caps.map_values(light_rule(0)));
}

proof fn lemma_light_one_kind_1(h: Seq<char>, r: Seq<char>)
    requires
        forall|j: int| 0 <= j < 1 ==> leaves_alone(#[trigger] light_patterns()[j], h),
        regex_compiles(light_patterns()[1]),
        r == splice(regex_split(light_patterns()[1], h), regex_captures(light_patterns()[1], h).map_values(light_rule(1))),
        forall|j: int| 1 < j < 17 ==> leaves_alone(#[trigger] light_patterns()[j], r),
    ensures
        light_markup_spec(h) == strip_tags_spec(r),
{
    let ps = light_patterns();
    assert(leaves_alone(ps[0], h));
    lemma_leaves_alone(ps[0], h);
    assert(leaves_alone(ps[2], r));
    lemma_leaves_alone(ps[2], r);
    assert(leaves_alone(ps[3], r));
    lemma_leaves_alone(ps[3], r);
    assert(leaves_alone(ps[4], r));
    lemma_leaves_alone(ps[4], r);
    assert(leaves_alone(ps[5], r));
    lemma_leaves_alone(ps[5], r);
    assert(leaves_alone(ps[6], r));
    lemma_leaves_alone(ps[6], r);
    assert(leaves_alone(ps[7], r));
    lemma_leaves_alone(ps[7], r);
    assert(leaves_alone(ps[8], r));
    lemma_leaves_alone(ps[8], r);
    assert(leaves_alone(ps[9], r));
    lemma_leaves_alone(ps[9], r);
    assert(leaves_alone(ps[10], r));
    lemma_leaves_alone(ps[10], r);
    assert(leaves_alone(ps[11], r));
    lemma_leaves_alone(ps[11], r);
    assert(leaves_alone(ps[12], r));
    lemma_leaves_alone(ps[12], r);
    assert(leaves_alone(ps[13], r));
    lemma_leaves_alone(ps[13], r);
    assert(leaves_alone(ps[14], r));
    lemma_leaves_alone(ps[14], r);
    assert(leaves_alone(ps[15], r));
    lemma_leaves_alone(ps[15], r);
    assert(leaves_alone(ps[16], r));
    lemma_leaves_alone(ps[16], r);
    let caps = regex_captures(ps[1], h);
    assert(caps.map_values(wrap_step("**"@, 2, "**"@)) =~= caps.map_values(light_rule(1)));
}

proof fn lemma_light_one_kind_2(h: Seq<char>, r: Seq<char>)
    requires
        forall|j: int| 0 <= j < 2 ==> leaves_alone(#[trigger] light_patterns()[j], h),
        regex_compiles(light_patterns()[2]),
        r == splice(regex_split(light_patterns()[2], h), regex_captures(light_patterns()[2], h).map_values(light_rule(2))),
        forall|j: int| 2 < j < 17 ==> leaves_alone(#[trigger] light_patterns()[j], r),
    ensures
        light_markup_spec(h) == strip_tags_spec(r),
{
    let ps = light_patterns();
    assert(leaves_alone(ps[0], h));
    lemma_leaves_alone(ps[0], h);
    assert(leaves_alone(ps[1], h));
    lemma_leaves_alone(ps[1], h);
    assert(leaves_alone(ps[3], r));
    lemma_leaves_alone(ps[3], r);
    assert(leaves_alone(ps[4], r));
    lemma_leaves_alone(ps[4], r);
    assert(leaves_alone(ps[5], r));
    lemma_leaves_alone(ps[5], r);
    assert(leaves_alone(ps[6], r));
    lemma_leaves_alone(ps[6], r);
    assert(leaves_alone(ps[7], r));
    lemma_leaves_alone(ps[7], r);
    assert(leaves_alone(ps[8], r));
    lemma_leaves_alone(ps[8], r);
    assert(leaves_alone(ps[9], r));
    lemma_leaves_alone(ps[9], r);
    assert(leaves_alone(ps[10], r));
    lemma_leaves_alone(ps[10], r);
    assert(leaves_alone(ps[11], r));
    lemma_leaves_alone(ps[11], r);
    assert(leaves_alone(ps[12], r));
    lemma_leaves_alone(ps[12], r);
    assert(leaves_alone(ps[13], r));
    lemma_leaves_alone(ps[13], r);
    assert(leaves_alone(ps[14], r));
    lemma_leaves_alone(ps[14], r);
    assert(leaves_alone(ps[15], r));
    lemma_leaves_alone(ps[15], r);
    assert(leaves_alone(ps[16], r));
    lemma_leaves_alone(ps[16], r);
    let caps = regex_captures(ps[2], h);
    assert(caps.map_values(wrap_step("*"@, 2, "*"@)) =~= caps.map_values(light_rule(2)));
}

proof fn lemma_light_one_kind_3(h: Seq<char>, r: Seq<char>)
    requires
        forall|j: int| 0 <= j < 3 ==> leaves_alone(#[trigger] light_patterns()[j], h),
        regex_compiles(light_patterns()[3]),
        r == splice(regex_split(light_patterns()[3], h), regex_captures(light_patterns()[3], h).map_values(light_rule(3))),
        forall|j: int| 3 < j < 17 ==> leaves_alone(#[trigger] light_patterns()[j], r),
    ensures
        light_markup_spec(h) == strip_tags_spec(r),
{
    let ps = light_patterns();
    assert(leaves_alone(ps[0], h));
    lemma_leaves_alone(ps[0], h);
    assert(leaves_alone(ps[1], h));
    lemma_leaves_alone(ps[1], h);
    assert(leaves_alone(ps[2], h));
    lemma_leaves_alone(ps[2], h);
    assert(leaves_alone(ps[4], r));
    lemma_leaves_alone(ps[4], r);
    assert(leaves_alone(ps[5], r));
    lemma_leaves_alone(ps[5], r);
    assert(leaves_alone(ps[6], r));
    lemma_leaves_alone(ps[6], r);
    assert(leaves_alone(ps[7], r));
    lemma_leaves_alone(ps[7], r);
    assert(leaves_alone(ps[8], r));
    lemma_leaves_alone(ps[8], r);
    assert(leaves_alone(ps[9], r));
    lemma_leaves_alone(ps[9], r);
    assert(leaves_alone(ps[10], r));
    lemma_leaves_alone(ps[10], r);
    assert(leaves_alone(ps[11], r));
    lemma_leaves_alone(ps[11], r);
    assert(leaves_alone(ps[12], r));
    lemma_leaves_alone(ps[12], r);
    assert(leaves_alone(ps[13], r));
    lemma_leaves_alone(ps[13], r);
    assert(leaves_alone(ps[14], r));
    lemma_leaves_alone(ps[14], r);
    assert(leaves_alone(ps[15], r));
    lemma_leaves_alone(ps[15], r);
    assert(leaves_alone(ps[16], r));
    lemma_leaves_alone(ps[16], r);
    let caps = regex_captures(ps[3], h);
    assert(caps.map_values(wrap_step("~~"@, 2, "~~"@)) =~= caps.map_values(light_rule(3)));
}

proof fn lemma_light_one_kind_4(h: Seq<char>, r: Seq<char>)
    requires
        forall|j: int| 0 <= j < 4 ==> leaves_alone(#[trigger] light_patterns()[j], h),
        regex_compiles(light_patterns()[4]),
        r == splice(regex_split(light_patterns()[4], h), regex_captures(light_patterns()[4], h).map_values(light_rule(4))),
        forall|j: int| 4 < j < 17 ==> leaves_alone(#[trigger] light_patterns()[j], r),
    ensures
        light_markup_spec(h) == strip_tags_spec(r),
{
    let ps = light_patterns();
    assert(leaves_alone(ps[0], h));
    lemma_leaves_alone(ps[0], h);
    assert(leaves_alone(ps[1], h));
    lemma_leaves_alone(ps[1], h);
    assert(leaves_alone(ps[2], h));
    lemma_leaves_alone(ps[2], h);
    assert(leaves_alone(ps[3], h));
    lemma_leaves_alone(ps[3], h);
    assert(leaves_alone(ps[5], r));
    lemma_leaves_alone(ps[5], r);
    assert(leaves_alone(ps[6], r));
    lemma_leaves_alone(ps[6], r);
    assert(leaves_alone(ps[7], r));
    lemma_leaves_alone(ps[7], r);
    assert(leaves_alone(ps[8], r));
    lemma_leaves_alone(ps[8], r);
    assert(leaves_alone(ps[9], r));
    lemma_leaves_alone(ps[9], r);
    assert(leaves_alone(ps[10], r));
    lemma_leaves_alone(ps[10], r);
    assert(leaves_alone(ps[11], r));
    lemma_leaves_alone(ps[11], r);
    assert(leaves_alone(ps[12], r));
    lemma_leaves_alone(ps[12], r);
    assert(leaves_alone(ps[13], r));
    lemma_leaves_alone(ps[13], r);
    assert(leaves_alone(ps[14], r));
    lemma_leaves_alone(ps[14], r);
    assert(leaves_alone(ps[15], r));
    lemma_leaves_alone(ps[15], r);
    assert(leaves_alone(ps[16], r));
    lemma_leaves_alone(ps[16], r);
    let caps = regex_captures(ps[4], h);
    assert(caps.map_values(wrap_step("`"@, 1, "`"@)) =~= caps.map_values(light_rule(4)));
}

proof fn lemma_light_one_kind_5(h: Seq<char>, r: Seq<char>)
    requires
        forall|j: int| 0 <= j < 5 ==> leaves_alone(#[trigger] light_patterns()[j], h),
        regex_compiles(light_patterns()[5]),
        r == splice(regex_split(light_patterns()[5], h), regex_captures(light_patterns()[5], h).map_values(light_rule(5))),
        forall|j: int| 5 < j < 17 ==> leaves_alone(#[trigger] light_patterns()[j], r),
    ensures
        light_markup_spec(h) == strip_tags_spec(r),
{
    let ps = light_patterns();
    assert(leaves_alone(ps[0], h));
    lemma_leaves_alone(ps[0], h);
    assert(leaves_alone(ps[1], h));
    lemma_leaves_alone(ps[1], h);
    assert(leaves_alone(ps[2], h));
    lemma_leaves_alone(ps[2], h);
    assert(leaves_alone(ps[3], h));
    lemma_leaves_alone(ps[3], h);
    assert(leaves_alone(ps[4], h));
    lemma_leaves_alone(ps[4], h);
    assert(leaves_alone(ps[6], r));
    lemma_leaves_alone(ps[6], r);
    assert(leaves_alone(ps[7], r));
    lemma_leaves_alone(ps[7], r);
    assert(leaves_alone(ps[8], r));
    lemma_leaves_alone(ps[8], r);
    assert(leaves_alone(ps[9], r));
    lemma_leaves_alone(ps[9], r);
    assert(leaves_alone(ps[10], r));
    lemma_leaves_alone(ps[10], r);
    assert(leaves_alone(ps[11], r));
    lemma_leaves_alone(ps[11], r);
    assert(leaves_alone(ps[12], r));
    lemma_leaves_alone(ps[12], r);
    assert(leaves_alone(ps[13], r));
    lemma_leaves_alone(ps[13], r);
    assert(leaves_alone(ps[14], r));
    lemma_leaves_alone(ps[14], r);
    assert(leaves_alone(ps[15], r));
    lemma_leaves_alone(ps[15], r);
    assert(leaves_alone(ps[16], r));
    lemma_leaves_alone(ps[16], r);
    let caps = regex_captures(ps[5], h);
    assert(caps.map_values(wrap_step("\n```\n"@, 1, "\n```\n"@)) =~= caps.map_values(light_rule(5)));
}

proof fn lemma_light_one_kind_6(h: Seq<char>, r: Seq<char>)
    requires
        forall|j: int| 0 <= j < 6 ==> leaves_alone(#[trigger] light_patterns()[j], h),
        regex_compiles(light_patterns()[6]),
        r == splice(regex_split(light_patterns()[6], h), regex_captures(light_patterns()[6], h).map_values(light_rule(6))),
        forall|j: int| 6 < j < 17 ==> leaves_alone(#[trigger] light_patterns()[j], r),
    ensures
        light_markup_spec(h) == strip_tags_spec(r),
{
    let ps = light_patterns();
    assert(leaves_alone(ps[0], h));
    lemma_leaves_alone(ps[0], h);
    assert(leaves_alone(ps[1], h));
    lemma_leaves_alone(ps[1], h);
    assert(leaves_alone(ps[2], h));
    lemma_leaves_alone(ps[2], h);
    assert(leaves_alone(ps[3], h));
    lemma_leaves_alone(ps[3], h);
    assert(leaves_alone(ps[4], h));
    lemma_leaves_alone(ps[4], h);
    assert(leaves_alone(ps[5], h));
    lemma_leaves_alone(ps[5], h);
    assert(leaves_alone(ps[7], r));
    lemma_leaves_alone(ps[7], r);
    assert(leaves_alone(ps[8], r));
    lemma_leaves_alone(ps[8], r);
    assert(leaves_alone(ps[9], r));
    lemma_leaves_alone(ps[9], r);
    assert(leaves_alone(ps[10], r));
    lemma_leaves_alone(ps[10], r);
    assert(leaves_alone(ps[11], r));
    lemma_leaves_alone(ps[11], r);
    assert(leaves_alone(ps[12], r));
    lemma_leaves_alone(ps[12], r);
    assert(leaves_alone(ps[13], r));
    lemma_leaves_alone(ps[13], r);
    assert(leaves_alone(ps[14], r));
    lemma_leaves_alone(ps[14], r);
    assert(leaves_alone(ps[15], r));
    lemma_leaves_alone(ps[15], r);
    assert(leaves_alone(ps[16], r));
    lemma_leaves_alone(ps[16], r);
    let caps = regex_captures(ps[6], h);
    assert(caps.map_values(const_step("\n"@)) =~= caps.map_values(light_rule(6)));
}

proof fn lemma_light_one_kind_7(h: Seq<char>, r: Seq<char>)
    requires
        forall|j: int| 0 <= j < 7 ==> leaves_alone(#[trigger] light_patterns()[j], h),
        regex_compiles(light_patterns()[7]),
        r == splice(regex_split(light_patterns()[7], h), regex_captures(light_patterns()[7], h).map_values(light_rule(7))),
        forall|j: int| 7 < j < 17 ==> leaves_alone(#[trigger] light_patterns()[j], r),
    ensures
        light_markup_spec(h) == strip_tags_spec(r),
{
    let ps = light_patterns();
    assert(leaves_alone(ps[0], h));
    lemma_leaves_alone(ps[0], h);
    assert(leaves_alone(ps[1], h));
    lemma_leaves_alone(ps[1], h);
    assert(leaves_alone(ps[2], h));
    lemma_leaves_alone(ps[2], h);
    assert(leaves_alone(ps[3], h));
    lemma_leaves_alone(ps[3], h);
    assert(leaves_alone(ps[4], h));
    lemma_leaves_alone(ps[4], h);
    assert(leaves_alone(ps[5], h));
    lemma_leaves_alone(ps[5], h);
    assert(leaves_alone(ps[6], h));
    lemma_leaves_alone(ps[6], h);
    assert(leaves_alone(ps[8], r));
    lemma_leaves_alone(ps[8], r);
    assert(leaves_alone(ps[9], r));
    lemma_leaves_alone(ps[9], r);
    assert(leaves_alone(ps[10], r));
    lemma_leaves_alone(ps[10], r);
    assert(leaves_alone(ps[11], r));
    lemma_leaves_alone(ps[11], r);
    assert(leaves_alone(ps[12], r));
    lemma_leaves_alone(ps[12], r);
    assert(leaves_alone(ps[13], r));
    lemma_leaves_alone(ps[13], r);
    assert(leaves_alone(ps[14], r));
    lemma_leaves_alone(ps[14], r);
    assert(leaves_alone(ps[15], r));
    lemma_leaves_alone(ps[15], r);
    assert(leaves_alone(ps[16], r));
    lemma_leaves_alone(ps[16], r);
    let caps = regex_captures(ps[7], h);
    assert(caps.map_values(wrap_step("\n- "@, 1, Seq::<char>::empty())) =~= caps.map_values(light_rule(7)));
}

proof fn lemma_light_one_kind_8(h: Seq<char>, r: Seq<char>)
    requires
        forall|j: int| 0 <= j < 8 ==> leaves_alone(#[trigger] light_patterns()[j], h),
        regex_compiles(light_patterns()[8]),
        r == splice(regex_split(light_patterns()[8], h), regex_captures(light_patterns()[8], h).map_values(light_rule(8))),
        forall|j: int| 8 < j < 17 ==> leaves_alone(#[trigger] light_patterns()[j], r),
    ensures
        light_markup_spec(h) == strip_tags_spec(r),
{
    let ps = light_patterns();
    assert(leaves_alone(ps[0], h));
    lemma_leaves_alone(ps[0], h);
    assert(leaves_alone(ps[1], h));
    lemma_leaves_alone(ps[1], h);
    assert(leaves_alone(ps[2], h));
    lemma_leaves_alone(ps[2], h);
    assert(leaves_alone(ps[3], h));
    lemma_leaves_alone(ps[3], h);
    assert(leaves_alone(ps[4], h));
    lemma_leaves_alone(ps[4], h);
    assert(leaves_alone(ps[5], h));
    lemma_leaves_alone(ps[5], h);
    assert(leaves_alone(ps[6], h));
    lemma_leaves_alone(ps[6], h);
    assert(leaves_alone(ps[7], h));
    lemma_leaves_alone(ps[7], h);
    assert(leaves_alone(ps[9], r));
    lemma_leaves_alone(ps[9], r);
    assert(leaves_alone(ps[10], r));
    lemma_leaves_alone(ps[10], r);
    assert(leaves_alone(ps[11], r));
    lemma_leaves_alone(ps[11], r);
    assert(leaves_alone(ps[12], r));
    lemma_leaves_alone(ps[12], r);
    assert(leaves_alone(ps[13], r));
    lemma_leaves_alone(ps[13], r);
    assert(leaves_alone(ps[14], r));
    lemma_leaves_alone(ps[14], r);
    assert(leaves_alone(ps[15], r));
    lemma_leaves_alone(ps[15], r);
    assert(leaves_alone(ps[16], r));
    lemma_leaves_alone(ps[16], r);
    let caps = regex_captures(ps[8], h);
    assert(caps.map_values(const_step("\n"@)) =~= caps.map_values(light_rule(8)));
}

proof fn lemma_light_one_kind_9(h: Seq<char>, r: Seq<char>)
    requires
        forall|j: int| 0 <= j < 9 ==> leaves_alone(#[trigger] light_patterns()[j], h),
        regex_compiles(light_patterns()[9]),
        r == splice(regex_split(light_patterns()[9], h), regex_captures(light_patterns()[9], h).map_values(light_rule(9))),
        forall|j: int| 9 < j < 17 ==> leaves_alone(#[trigger] light_patterns()[j], r),
    ensures
        light_markup_spec(h) == strip_tags_spec(r),
{
    let ps = light_patterns();
    assert(leaves_alone(ps[0], h));
    lemma_leaves_alone(ps[0], h);
    assert(leaves_alone(ps[1], h));
    lemma_leaves_alone(ps[1], h);
    assert(leaves_alone(ps[2], h));
    lemma_leaves_alone(ps[2], h);
    assert(leaves_alone(ps[3], h));
    lemma_leaves_alone(ps[3], h);
    assert(leaves_alone(ps[4], h));
    lemma_leaves_alone(ps[4], h);
    assert(leaves_alone(ps[5], h));
    lemma_leaves_alone(ps[5], h);
    assert(leaves_alone(ps[6], h));
    lemma_leaves_alone(ps[6], h);
    assert(leaves_alone(ps[7], h));
    lemma_leaves_alone(ps[7], h);
    assert(leaves_alone(ps[8], h));
    lemma_leaves_alone(ps[8], h);
    assert(leaves_alone(ps[10], r));
    lemma_leaves_alone(ps[10], r);
    assert(leaves_alone(ps[11], r));
    lemma_leaves_alone(ps[11], r);
    assert(leaves_alone(ps[12], r));
    lemma_leaves_alone(ps[12], r);
    assert(leaves_alone(ps[13], r));
    lemma_leaves_alone(ps[13], r);
    assert(leaves_alone(ps[14], r));
    lemma_leaves_alone(ps[14], r);
    assert(leaves_alone(ps[15], r));
    lemma_leaves_alone(ps[15], r);
    assert(leaves_alone(ps[16], r));
    lemma_leaves_alone(ps[16], r);
    let caps = regex_captures(ps[9], h);
    assert(caps.map_values(const_step("\n"@)) =~= caps.map_values(light_rule(9)));
}

proof fn lemma_light_one_kind_10(h: Seq<char>, r: Seq<char>)
    requires
        forall|j: int| 0 <= j < 10 ==> leaves_alone(#[trigger] light_patterns()[j], h),
        regex_compiles(light_patterns()[10]),
        r == splice(regex_split(light_patterns()[10], h), regex_captures(light_patterns()[10], h).map_values(light_rule(10))),
        forall|j: int| 10 < j < 17 ==> leaves_alone(#[trigger] light_patterns()[j], r),
    ensures
        light_markup_spec(h) == strip_tags_spec(r),
{
    let ps = light_patterns();
    assert(leaves_alone(ps[0], h));
    lemma_leaves_alone(ps[0], h);
    assert(leaves_alone(ps[1], h));
    lemma_leaves_alone(ps[1], h);
    assert(leaves_alone(ps[2], h));
    lemma_leaves_alone(ps[2], h);
    assert(leaves_alone(ps[3], h));
    lemma_leaves_alone(ps[3], h);
    assert(leaves_alone(ps[4], h));
    lemma_leaves_alone(ps[4], h);
    assert(leaves_alone(ps[5], h));
    lemma_leaves_alone(ps[5], h);
    assert(leaves_alone(ps[6], h));
    lemma_leaves_alone(ps[6], h);
    assert(leaves_alone(ps[7], h));
    lemma_leaves_alone(ps[7], h);
    assert(leaves_alone(ps[8], h));
    lemma_leaves_alone(ps[8], h);
    assert(leaves_alone(ps[9], h));
    lemma_leaves_alone(ps[9], h);
    assert(leaves_alone(ps[11], r));
    lemma_leaves_alone(ps[11], r);
    assert(leaves_alone(ps[12], r));
    lemma_leaves_alone(ps[12], r);
    assert(leaves_alone(ps[13], r));
    lemma_leaves_alone(ps[13], r);
    assert(leaves_alone(ps[14], r));
    lemma_leaves_alone(ps[14], r);
    assert(leaves_alone(ps[15], r));
    lemma_leaves_alone(ps[15], r);
    assert(leaves_alone(ps[16], r));
    lemma_leaves_alone(ps[16], r);
    let caps = regex_captures(ps[10], h);
    assert(caps.map_values(const_step("\n---\n"@)) =~= caps.map_values(light_rule(10)));
}

proof fn lemma_light_one_kind_11(h: Seq<char>, r: Seq<char>)
    requires
        forall|j: int| 0 <= j < 11 ==> leaves_alone(#[trigger] light_patterns()[j], h),
        regex_compiles(light_patterns()[11]),
        r == splice(regex_split(light_patterns()[11], h), regex_captures(light_patterns()[11], h).map_values(light_rule(11))),
        forall|j: int| 11 < j < 17 ==> leaves_alone(#[trigger] light_patterns()[j], r),
    ensures
        light_markup_spec(h) == strip_tags_spec(r),
{
    let ps = light_patterns();
    assert(leaves_alone(ps[0], h));
    lemma_leaves_alone(ps[0], h);
    assert(leaves_alone(ps[1], h));
    lemma_leaves_alone(ps[1], h);
    assert(leaves_alone(ps[2], h));
    lemma_leaves_alone(ps[2], h);
    assert(leaves_alone(ps[3], h));
    lemma_leaves_alone(ps[3], h);
    assert(leaves_alone(ps[4], h));
    lemma_leaves_alone(ps[4], h);
    assert(leaves_alone(ps[5], h));
    lemma_leaves_alone(ps[5], h);
    assert(leaves_alone(ps[6], h));
    lemma_leaves_alone(ps[6], h);
    assert(leaves_alone(ps[7], h));
    lemma_leaves_alone(ps[7], h);
    assert(leaves_alone(ps[8], h));
    lemma_leaves_alone(ps[8], h);
    assert(leaves_alone(ps[9], h));
    lemma_leaves_alone(ps[9], h);
    assert(leaves_alone(ps[10], h));
    lemma_leaves_alone(ps[10], h);
    assert(leaves_alone(ps[12], r));
    lemma_leaves_alone(ps[12], r);
    assert(leaves_alone(ps[13], r));
    lemma_leaves_alone(ps[13], r);
    assert(leaves_alone(ps[14], r));
    lemma_leaves_alone(ps[14], r);
    assert(leaves_alone(ps[15], r));
    lemma_leaves_alone(ps[15], r);
    assert(leaves_alone(ps[16], r));
    lemma_leaves_alone(ps[16], r);
    let caps = regex_captures(ps[11], h);
    assert(caps.map_values(wrap2_step("!["@, 2, "]("@, 1, ")"@)) =~= caps.map_values(light_rule(11)));
}

proof fn lemma_light_one_kind_12(h: Seq<char>, r: Seq<char>)
    requires
        forall|j: int| 0 <= j < 12 ==> leaves_alone(#[trigger] light_patterns()[j], h),
        regex_compiles(light_patterns()[12]),
        r == splice(regex_split(light_patterns()[12], h), regex_captures(light_patterns()[12], h).map_values(light_rule(12))),
        forall|j: int| 12 < j < 17 ==> leaves_alone(#[trigger] light_patterns()[j], r),
    ensures
        light_markup_spec(h) == strip_tags_spec(r),
{
    let ps = light_patterns();
    assert(leaves_alone(ps[0], h));
    lemma_leaves_alone(ps[0], h);
    assert(leaves_alone(ps[1], h));
    lemma_leaves_alone(ps[1], h);
    assert(leaves_alone(ps[2], h));
    lemma_leaves_alone(ps[2], h);
    assert(leaves_alone(ps[3], h));
    lemma_leaves_alone(ps[3], h);
    assert(leaves_alone(ps[4], h));
    lemma_leaves_alone(ps[4], h);
    assert(leaves_alone(ps[5], h));
    lemma_leaves_alone(ps[5], h);
    assert(leaves_alone(ps[6], h));
    lemma_leaves_alone(ps[6], h);
    assert(leaves_alone(ps[7], h));
    lemma_leaves_alone(ps[7], h);
    assert(leaves_alone(ps[8], h));
    lemma_leaves_alone(ps[8], h);
    assert(leaves_alone(ps[9], h));
    lemma_leaves_alone(ps[9], h);
    assert(leaves_alone(ps[10], h));
    lemma_leaves_alone(ps[10], h);
    assert(leaves_alone(ps[11], h));
    lemma_leaves_alone(ps[11], h);
    assert(leaves_alone(ps[13], r));
    lemma_leaves_alone(ps[13], r);
    assert(leaves_alone(ps[14], r));
    lemma_leaves_alone(ps[14], r);
    assert(leaves_alone(ps[15], r));
    lemma_leaves_alone(ps[15], r);
    assert(leaves_alone(ps[16], r));
    lemma_leaves_alone(ps[16], r);
    let caps = regex_captures(ps[12], h);
    assert(caps.map_values(wrap2_step("!["@, 1, "]("@, 2, ")"@)) =~= caps.map_values(light_rule(12)));
}

proof fn lemma_light_one_kind_13(h: Seq<char>, r: Seq<char>)
    requires
        forall|j: int| 0 <= j < 13 ==> leaves_alone(#[trigger] light_patterns()[j], h),
        regex_compiles(light_patterns()[13]),
        r == splice(regex_split(light_patterns()[13], h), regex_captures(light_patterns()[13], h).map_values(light_rule(13))),
        forall|j: int| 13 < j < 17 ==> leaves_alone(#[trigger] light_patterns()[j], r),
    ensures
        light_markup_spec(h) == strip_tags_spec(r),
{
    let ps = light_patterns();
    assert(leaves_alone(ps[0], h));
    lemma_leaves_alone(ps[0], h);
    assert(leaves_alone(ps[1], h));
    lemma_leaves_alone(ps[1], h);
    assert(leaves_alone(ps[2], h));
    lemma_leaves_alone(ps[2], h);
    assert(leaves_alone(ps[3], h));
    lemma_leaves_alone(ps[3], h);
    assert(leaves_alone(ps[4], h));
    lemma_leaves_alone(ps[4], h);
    assert(leaves_alone(ps[5], h));
    lemma_leaves_alone(ps[5], h);
    assert(leaves_alone(ps[6], h));
    lemma_leaves_alone(ps[6], h);
    assert(leaves_alone(ps[7], h));
    lemma_leaves_alone(ps[7], h);
    assert(leaves_alone(ps[8], h));
    lemma_leaves_alone(ps[8], h);
    assert(leaves_alone(ps[9], h));
    lemma_leaves_alone(ps[9], h);
    assert(leaves_alone(ps[10], h));
    lemma_leaves_alone(ps[10], h);
    assert(leaves_alone(ps[11], h));
    lemma_leaves_alone(ps[11], h);
    assert(leaves_alone(ps[12], h));
    lemma_leaves_alone(ps[12], h);
    assert(leaves_alone(ps[14], r));
    lemma_leaves_alone(ps[14], r);
    assert(leaves_alone(ps[15], r));
    lemma_leaves_alone(ps[15], r);
    assert(leaves_alone(ps[16], r));
    lemma_leaves_alone(ps[16], r);
    let caps = regex_captures(ps[13], h);
    assert(caps.map_values(wrap_step("![]("@, 1, ")"@)) =~= caps.map_values(light_rule(13)));
}

proof fn lemma_light_one_kind_14(h: Seq<char>, r: Seq<char>)
    requires
        forall|j: int| 0 <= j < 14 ==> leaves_alone(#[trigger] light_patterns()[j], h),
        regex_compiles(light_patterns()[14]),
        r == splice(regex_split(light_patterns()[14], h), regex_captures(light_patterns()[14], h).map_values(light_rule(14))),
        forall|j: int| 14 < j < 17 ==> leaves_alone(#[trigger] light_patterns()[j], r),
    ensures
        light_markup_spec(h) == strip_tags_spec(r),
{
    let ps = light_patterns();
    assert(leaves_alone(ps[0], h));
    lemma_leaves_alone(ps[0], h);
    assert(leaves_alone(ps[1], h));
    lemma_leaves_alone(ps[1], h);
    assert(leaves_alone(ps[2], h));
    lemma_leaves_alone(ps[2], h);
    assert(leaves_alone(ps[3], h));
    lemma_leaves_alone(ps[3], h);
    assert(leaves_alone(ps[4], h));
    lemma_leaves_alone(ps[4], h);
    assert(leaves_alone(ps[5], h));
    lemma_leaves_alone(ps[5], h);
    assert(leaves_alone(ps[6], h));
    lemma_leaves_alone(ps[6], h);
    assert(leaves_alone(ps[7], h));
    lemma_leaves_alone(ps[7], h);
    assert(leaves_alone(ps[8], h));
    lemma_leaves_alone(ps[8], h);
    assert(leaves_alone(ps[9], h));
    lemma_leaves_alone(ps[9], h);
    assert(leaves_alone(ps[10], h));
    lemma_leaves_alone(ps[10], h);
    assert(leaves_alone(ps[11], h));
    lemma_leaves_alone(ps[11], h);
    assert(leaves_alone(ps[12], h));
    lemma_leaves_alone(ps[12], h);
    assert(leaves_alone(ps[13], h));
    lemma_leaves_alone(ps[13], h);
    assert(leaves_alone(ps[15], r));
    lemma_leaves_alone(ps[15], r);
    assert(leaves_alone(ps[16], r));
    lemma_leaves_alone(ps[16], r);
    let caps = regex_captures(ps[14], h);
    assert(caps.map_values(wrap2_step("["@, 2, "]("@, 1, ")"@)) =~= caps.map_values(light_rule(14)));
}

proof fn lemma_light_one_kind_15(h: Seq<char>, r: Seq<char>)
    requires
        forall|j: int| 0 <= j < 15 ==> leaves_alone(#[trigger] light_patterns()[j], h),
        regex_compiles(light_patterns()[15]),
        r == splice(regex_split(light_patterns()[15], h), regex_captures(light_patterns()[15], h).map_values(light_rule(15))),
        forall|j: int| 15 < j < 17 ==> leaves_alone(#[trigger] light_patterns()[j], r),
    ensures
        light_markup_spec(h) == strip_tags_spec(r),
{
    let ps = light_patterns();
    assert(leaves_alone(ps[0], h));
    lemma_leaves_alone(ps[0], h);
    assert(leaves_alone(ps[1], h));
    lemma_leaves_alone(ps[1], h);
    assert(leaves_alone(ps[2], h));
    lemma_leaves_alone(ps[2], h);
    assert(leaves_alone(ps[3], h));
    lemma_leaves_alone(ps[3], h);
    assert(leaves_alone(ps[4], h));
    lemma_leaves_alone(ps[4], h);
    assert(leaves_alone(ps[5], h));
    lemma_leaves_alone(ps[5], h);
    assert(leaves_alone(ps[6], h));
    lemma_leaves_alone(ps[6], h);
    assert(leaves_alone(ps[7], h));
    lemma_leaves_alone(ps[7], h);
    assert(leaves_alone(ps[8], h));
    lemma_leaves_alone(ps[8], h);
    assert(leaves_alone(ps[9], h));
    lemma_leaves_alone(ps[9], h);
    assert(leaves_alone(ps[10], h));
    lemma_leaves_alone(ps[10], h);
    assert(leaves_alone(ps[11], h));
    lemma_leaves_alone(ps[11], h);
    assert(leaves_alone(ps[12], h));
    lemma_leaves_alone(ps[12], h);
    assert(leaves_alone(ps[13], h));
    lemma_leaves_alone(ps[13], h);
    assert(leaves_alone(ps[14], h));
    lemma_leaves_alone(ps[14], h);
    assert(leaves_alone(ps[16], r));
    lemma_leaves_alone(ps[16], r);
    let caps = regex_captures(ps[15], h);
    assert(caps.map_values(const_step("\n> "@)) =~= caps.map_values(light_rule(15)));
}

proof fn lemma_light_one_kind_16(h: Seq<char>, r: Seq<char>)
    requires
        forall|j: int| 0 <= j < 16 ==> leaves_alone(#[trigger] light_patterns()[j], h),
        regex_compiles(light_patterns()[16]),
        r == splice(regex_split(light_patterns()[16], h), regex_captures(light_patterns()[16], h).map_values(light_rule(16))),
        forall|j: int| 16 < j < 17 ==> leaves_alone(#[trigger] light_patterns()[j], r),
    ensures
        light_markup_spec(h) == strip_tags_spec(r),
{
    let ps = light_patterns();
    assert(leaves_alone(ps[0], h));
    lemma_leaves_alone(ps[0], h);
    assert(leaves_alone(ps[1], h));
    lemma_leaves_alone(ps[1], h);
    assert(leaves_alone(ps[2], h));
    lemma_leaves_alone(ps[2], h);
    assert(leaves_alone(ps[3], h));
    lemma_leaves_alone(ps[3], h);
    assert(leaves_alone(ps[4], h));
    lemma_leaves_alone(ps[4], h);
    assert(leaves_alone(ps[5], h));
    lemma_leaves_alone(ps[5], h);
    assert(leaves_alone(ps[6], h));
    lemma_leaves_alone(ps[6], h);
    assert(leaves_alone(ps[7], h));
    lemma_leaves_alone(ps[7], h);
    assert(leaves_alone(ps[8], h));
    lemma_leaves_alone(ps[8], h);
    assert(leaves_alone(ps[9], h));
    lemma_leaves_alone(ps[9], h);
    assert(leaves_alone(ps[10], h));
    lemma_leaves_alone(ps[10], h);
    assert(leaves_alone(ps[11], h));
    lemma_leaves_alone(ps[11], h);
    assert(leaves_alone(ps[12], h));
    lemma_leaves_alone(ps[12], h);
    assert(leaves_alone(ps[13], h));
    lemma_leaves_alone(ps[13], h);
    assert(leaves_alone(ps[14], h));
    lemma_leaves_alone(ps[14], h);
    assert(leaves_alone(ps[15], h));
    lemma_leaves_alone(ps[15], h);
    let caps = regex_captures(ps[16], h);
    assert(caps.map_values(const_step("\n"@)) =~= caps.map_values(light_rule(16)));
}

/// Each kind of markup becomes its Markdown: in a text where the earlier
/// patterns find nothing and, once the matches of pattern `k` are replaced
/// by what `light_rule(k)` makes of them, the later ones find nothing
/// either, the lightweight markup is that text with the tags left removed.
pub proof fn law_light_markup_one_kind(h: Seq<char>, k: int, r: Seq<char>)
    requires
        0 <= k < 17,
        forall|j: int| 0 <= j < k ==> leaves_alone(#[trigger] light_patterns()[j], h),
        regex_compiles(light_patterns()[k]),
        r == splice(regex_split(light_patterns()[k], h), regex_captures(light_patterns()[k], h).map_values(light_rule(k))),
        forall|j: int| k < j < 17 ==> leaves_alone(#[trigger] light_patterns()[j], r),
    ensures
        light_markup_spec(h) == strip_tags_spec(r),
{
    if k == 0 {
        lemma_light_one_kind_0(h, r);
    } else if k == 1 {
        lemma_light_one_kind_1(h, r);
    } else if k == 2 {
        lemma_light_one_kind_2(h, r);
    } else if k == 3 {
        lemma_light_one_kind_3(h, r);
    } else if k == 4 {
        lemma_light_one_kind_4(h, r);
    } else if k == 5 {
        lemma_light_one_kind_5(h, r);
    } else if k == 6 {
        lemma_light_one_kind_6(h, r);
    } else if k == 7 {
        lemma_light_one_kind_7(h, r);
    } else if k == 8 {
        lemma_light_one_kind_8(h, r);
    } else if k == 9 {
        lemma_light_one_kind_9(h, r);
    } else if k == 10 {
        lemma_light_one_kind_10(h, r);
    } else if k == 11 {
        lemma_light_one_kind_11(h, r);
    } else if k == 12 {
        lemma_light_one_kind_12(h, r);
    } else if k == 13 {
        lemma_light_one_kind_13(h, r);
    } else if k == 14 {
        lemma_light_one_kind_14(h, r);
    } else if k == 15 {
        lemma_light_one_kind_15(h, r);
    } else if k == 16 {
        lemma_light_one_kind_16(h, r);
    }
}

/// A Confluence page's HTML as lightweight Markdown, keeping its own
/// structure: cleaned as for the full conversion, top-level tables set
/// aside (`__TBLRAW0__`, ...) and converted to Markdown, the rest converted
/// by the library's rules (`light_markup_spec`), the tables put back in
/// order, entities decoded, non-breaking spaces made spaces, blank runs
/// shortened, lines trimmed, blank runs shortened again, and the whole
/// trimmed.
pub open spec fn lightweight_spec(raw_html: Seq<char>, base_url: Seq<char>) -> Seq<char> {
    let base = trim_end_char_spec(base_url, '/');
    let h = preprocess_spec(raw_html, base);
    let (h2, ts) = set_aside_spec(h, h.len(), 0, "__TBLRAW"@, "__"@, Seq::empty());
    let m = restore_spec(light_markup_spec(h2), ts);
    let m2 = replace_spec(decode_spec(m), "\u{a0}"@, " "@);
    trim_spec(collapse_blank_spec(trim_lines_spec(collapse_blank_spec(m2))))
}

fn light_heading(c: &Groups) -> (v: Vec<char>)
    ensures
        v@ == (light_heading_step())(groups_view(*c)),
{
    let level = match parse_usize(group_text(c, 1).as_slice()) {
        Some(n) => n,
        None => 2,
    };
    let hashes = repeat_exec(to_chars("#").as_slice(), level);
    let mut v = surround("\n", hashes.as_slice(), " ");
    let content = trim(strip_tags(group_text(c, 2).as_slice()).as_slice());
    extend_chars(&mut v, content.as_slice());
    extend_chars(&mut v, to_chars("\n").as_slice());
    v
}

fn light_markup(h: &str) -> (r: Vec<char>)
    ensures
        r@ == light_markup_spec(h@),
{
    proof {
        reveal_strlit("");
        assert(""@ =~= Seq::<char>::empty());
    }
    let f1 = |c: &Groups| -> (v: Vec<char>)
        ensures
            v@ == (light_heading_step())(groups_view(*c)),
        { light_heading(c) };
    let h1 = replace_with(
        r"(?is)<h([1-6])[^>]*>(.*?)</h[1-6]>",
        h,
        f1,
        Ghost(light_heading_step()),
    );
    let h2 = replace_wrap(r"(?is)<(strong|b)\b[^>]*>(.*?)</(strong|b)>", h1.as_str(), "**", 2, "**");
    let h3 = replace_wrap(r"(?is)<(em|i)\b[^>]*>(.*?)</(em|i)>", h2.as_str(), "*", 2, "*");
    let h4 = replace_wrap(
        r"(?is)<(del|s|strike)\b[^>]*>(.*?)</(del|s|strike)>",
        h3.as_str(),
        "~~",
        2,
        "~~",
    );
    let h5 = replace_wrap(r"(?is)<code>(.*?)</code>", h4.as_str(), "`", 1, "`");
    let h6 = replace_wrap(r"(?is)<pre[^>]*>(.*?)</pre>", h5.as_str(), "\n```\n", 1, "\n```\n");
    let h7 = replace_const(r"(?i)<br\s*/?>", h6.as_str(), "\n");
    let h8 = replace_wrap(r"(?is)<li[^>]*>(.*?)</li>", h7.as_str(), "\n- ", 1, "");
    let h9 = replace_const(r"(?i)<(p|div)\b[^>]*>", h8.as_str(), "\n");
    let h10 = replace_const(r"(?i)</(p|div)>", h9.as_str(), "\n");
    let h11 = replace_const(r"(?i)<hr\s*/?>", h10.as_str(), "\n---\n");
    let h12 = crate::pattern::replace_wrap2(
        r#"<img[^>]*?src="([^"]*)"[^>]*?alt="([^"]*)"[^>]*/?\s*>"#,
        h11.as_str(),
        "![",
        2,
        "](",
        1,
        ")",
    );
    let h13 = crate::pattern::replace_wrap2(
        r#"<img[^>]*?alt="([^"]*)"[^>]*?src="([^"]*)"[^>]*/?\s*>"#,
        h12.as_str(),
        "![",
        1,
        "](",
        2,
        ")",
    );
    let h14 = replace_wrap(r#"<img[^>]*?src="([^"]*)"[^>]*/?\s*>"#, h13.as_str(), "![](", 1, ")");
    let h15 = crate::pattern::replace_wrap2(
        r#"(?s)<a[^>]*?href="([^"]*)"[^>]*>(.*?)</a>"#,
        h14.as_str(),
        "[",
        2,
        "](",
        1,
        ")",
    );
    let h16 = replace_const(r"(?i)<blockquote[^>]*>", h15.as_str(), "\n> ");
    let h17 = replace_const(r"(?i)</blockquote>", h16.as_str(), "\n");
    strip_tags(to_chars(h17.as_str()).as_slice())
}

/// Converts a Confluence page's HTML to lightweight Markdown: see
/// `lightweight_spec`.
pub fn convert_to_lightweight_markdown(raw_html: &str, base_url: &str) -> (r: String)
    ensures
        r@ == lightweight_spec(raw_html@, base_url@),
{
    let base = trim_end_char(to_chars(base_url).as_slice(), '/');
    let h = preprocess_html(to_chars(raw_html).as_slice(), base.as_slice());
    proof {
        reveal_strlit("__TBLRAW");
        reveal_strlit("\u{a0}");
    }
    let (h2, tables) = set_aside_tables(h, "__TBLRAW", "__");
    let m0 = light_markup(from_chars(h2.as_slice()).as_str());
    let m = restore_tables(m0, &tables);
    let m1 = decode_entities(m.as_slice());
    let m2 = replace_lit_str(m1.as_slice(), "\u{a0}", " ");
    let m3 = collapse_blank(m2.as_slice());
    let m4 = trim_lines(m3.as_slice());
    let m5 = collapse_blank(m4.as_slice());
    from_chars(trim(m5.as_slice()).as_slice())
}

} // verus!
