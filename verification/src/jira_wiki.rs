//! Jira wiki markup to Markdown.
use vstd::prelude::*;
use crate::pattern::{group, group_text, groups_view, replace_all_spec, replace_with, Caps, Groups};
use crate::text::{
    contains, contains_spec, eq_chars, extend_chars, find, find_spec, from_chars, is_alnum,
    is_alphanumeric, join, join_spec, lemma_find_from_bounds, lemma_replace_shrinks, lines,
    lines_spec, replace, replace_spec, slice_vec, starts_with, starts_with_spec, surround, to_chars,
    trim, trim_spec, views,
};
use crate::figma::url::{query_get, query_lookup, pairs_view};

verus! {

/// Attachments of a Jira issue: (file name, download URL) in the order the
/// issue lists them; for a name listed twice the later URL counts.
pub type AttachmentMap = Vec<(String, String)>;

fn lit(s: &str) -> (r: Vec<char>)
    ensures
        r@ == s@,
{
    to_chars(s)
}

// ───────────────────────── line markup ─────────────────────────

/// The number of leading copies of `m` in `s` from index `i` on.
pub open spec fn run_len(s: Seq<char>, m: char, i: int) -> nat
    decreases s.len() - i,
{
    if i < 0 || i >= s.len() || s[i] != m {
        0
    } else {
        1 + run_len(s, m, i + 1)
    }
}

/// A list item marked by `m` (`* item`, `** item`, ...): the nesting depth
/// (number of markers less one) and the item's text.
pub open spec fn strip_list_prefix_spec(s: Seq<char>, m: char) -> Option<(nat, Seq<char>)> {
    let count = run_len(s, m, 0);
    if count > 0 && count < s.len() && s[count as int] == ' ' {
        Some(((count - 1) as nat, s.skip(count + 1 as int)))
    } else {
        None
    }
}

/// Reads a list item marked by `m`: see `strip_list_prefix_spec`.
pub fn strip_list_prefix(s: &[char], m: char) -> (r: Option<(usize, Vec<char>)>)
    ensures
        match r {
            Some((d, t)) => strip_list_prefix_spec(s@, m) == Some((d as nat, t@)),
            None => strip_list_prefix_spec(s@, m) is None,
        },
{
    let mut count: usize = 0;
    while count < s.len() && s[count] == m
        invariant
            count <= s.len(),
            run_len(s@, m, 0) == count + run_len(s@, m, count as int),
        decreases s.len() - count,
    {
        count = count + 1;
    }
    if count > 0 && count < s.len() && s[count] == ' ' {
        let t = slice_vec(s, count + 1, s.len());
        assert(t@ =~= s@.skip(count + 1));
        Some((count - 1, t))
    } else {
        None
    }
}

/// `n` copies of `s`.
pub open spec fn repeat(s: Seq<char>, n: nat) -> Seq<char>
    decreases n,
{
    if n == 0 {
        seq![]
    } else {
        repeat(s, (n - 1) as nat) + s
    }
}

/// `s` repeated `n` times: see `repeat`.
pub fn repeat_exec(s: &[char], n: usize) -> (r: Vec<char>)
    ensures
        r@ == repeat(s@, n as nat),
{
    let mut r: Vec<char> = Vec::new();
    let mut i: usize = 0;
    while i < n
        invariant
            i <= n,
            r@ == repeat(s@, i as nat),
        decreases n - i,
    {
        extend_chars(&mut r, s);
        i = i + 1;
    }
    r
}

/// The heading prefix `h<level>. `.
pub open spec fn heading_prefix(level: nat) -> Seq<char> {
    seq!['h', crate::text::digit_char(level), '.', ' ']
}

/// The first heading level, from `level` down to 1, whose prefix starts `t`.
pub open spec fn heading_level_from(t: Seq<char>, level: nat) -> Option<nat>
    decreases level,
{
    if level == 0 {
        None
    } else if starts_with_spec(t, heading_prefix(level)) {
        Some(level)
    } else {
        heading_level_from(t, (level - 1) as nat)
    }
}

/// One line of Jira wiki markup in Markdown: headings (`h1.` to `h6.`),
/// bullet and numbered list items (nested by repeating the marker), rules
/// (`----`, `---`) and quotes (`bq.`); other lines stay as they are.
pub open spec fn convert_jira_line_spec(line: Seq<char>) -> Seq<char> {
    let t = trim_spec(line);
    match heading_level_from(t, 6) {
        Some(level) => repeat("#"@, level) + " "@ + t.skip(4),
        None => match strip_list_prefix_spec(t, '*') {
            Some((depth, text)) => repeat("  "@, depth) + "- "@ + text,
            None => match strip_list_prefix_spec(t, '#') {
                Some((depth, text)) => repeat("  "@, depth) + "1. "@ + text,
                None => if t == "----"@ || t == "---"@ {
                    "\n---\n"@
                } else if starts_with_spec(t, "bq. "@) {
                    "> "@ + t.skip(4)
                } else {
                    line
                },
            },
        },
    }
}

fn heading_prefix_exec(level: u64) -> (r: Vec<char>)
    requires
        level < 10,
    ensures
        r@ == heading_prefix(level as nat),
{
    let mut r: Vec<char> = Vec::new();
    r.push('h');
    let d = crate::text::decimal(level);
    proof {
        reveal_with_fuel(crate::text::decimal_spec, 1);
    }
    r.push(d[0]);
    r.push('.');
    r.push(' ');
    assert(r@ =~= heading_prefix(level as nat));
    r
}

/// Converts one line of Jira wiki markup: see `convert_jira_line_spec`.
pub fn convert_jira_line(line: &[char]) -> (r: Vec<char>)
    ensures
        r@ == convert_jira_line_spec(line@),
{
    let t = trim(line);
    let mut level: u64 = 6;
    while level > 0
        invariant
            level <= 6,
            t@ == trim_spec(line@),
            heading_level_from(t@, 6) == heading_level_from(t@, level as nat),
        decreases level,
    {
        let p = heading_prefix_exec(level);
        if starts_with(t.as_slice(), p.as_slice()) {
            let mut r = repeat_exec(lit("#").as_slice(), level as usize);
            r.push(' ');
            let rest = slice_vec(t.as_slice(), 4, t.len());
            extend_chars(&mut r, rest.as_slice());
            proof {
                reveal_strlit(" ");
                assert(rest@ =~= t@.skip(4));
                assert(heading_level_from(t@, level as nat) == Some(level as nat));
                assert(heading_level_from(t@, 6) == Some(level as nat));
                assert(r@ =~= repeat("#"@, level as nat) + " "@ + t@.skip(4));
                assert(t@ == trim_spec(line@));
                assert(convert_jira_line_spec(line@) == repeat("#"@, level as nat) + " "@ + t@.skip(4));
            }
            return r;
        }
        level = level - 1;
    }
    match strip_list_prefix(t.as_slice(), '*') {
        Some((depth, text)) => {
            let mut r = repeat_exec(lit("  ").as_slice(), depth);
            extend_chars(&mut r, lit("- ").as_slice());
            extend_chars(&mut r, text.as_slice());
            return r;
        },
        None => {},
    }
    match strip_list_prefix(t.as_slice(), '#') {
        Some((depth, text)) => {
            let mut r = repeat_exec(lit("  ").as_slice(), depth);
            extend_chars(&mut r, lit("1. ").as_slice());
            extend_chars(&mut r, text.as_slice());
            return r;
        },
        None => {},
    }
    if eq_chars(t.as_slice(), lit("----").as_slice()) || eq_chars(t.as_slice(), lit("---").as_slice()) {
        return lit("\n---\n");
    }
    let bq = lit("bq. ");
    if starts_with(t.as_slice(), bq.as_slice()) {
        proof {
            reveal_strlit("bq. ");
        }
        let mut r = lit("> ");
        let rest = slice_vec(t.as_slice(), 4, t.len());
        assert(rest@ =~= t@.skip(4));
        extend_chars(&mut r, rest.as_slice());
        return r;
    }
    slice_vec(line, 0, line.len())
}


// ───────────────────────── inline markup ─────────────────────────

/// An image `!name!` or `!name|params!`: a link to the attachment of that
/// name (the name itself where there is none); a name that starts with
/// `http` is left as it was.
pub open spec fn image_step(att: Seq<(Seq<char>, Seq<char>)>) -> spec_fn(Caps) -> Seq<char> {
    |c: Caps|
        {
            let name = group(c, 1);
            if starts_with_spec(name, "http"@) {
                group(c, 0)
            } else {
                let url = match query_get(att, name) {
                    Some(u) => u,
                    None => name,
                };
                "!["@ + name + "]("@ + url + ")"@
            }
        }
}

/// `[text|url]` as a Markdown link.
pub open spec fn link_step() -> spec_fn(Caps) -> Seq<char> {
    |c: Caps| "["@ + group(c, 1) + "]("@ + group(c, 2) + ")"@
}

/// `[url]` as a Markdown link whose text is the URL.
pub open spec fn url_step() -> spec_fn(Caps) -> Seq<char> {
    |c: Caps| "["@ + group(c, 1) + "]("@ + group(c, 1) + ")"@
}

/// `{{text}}` as inline code.
pub open spec fn mono_step() -> spec_fn(Caps) -> Seq<char> {
    |c: Caps| "`"@ + group(c, 1) + "`"@
}

/// The leading run of alphanumeric characters.
pub open spec fn alnum_prefix(s: Seq<char>) -> Seq<char>
    decreases s.len(),
{
    if s.len() == 0 || !is_alnum(s[0]) {
        seq![]
    } else {
        seq![s[0]] + alnum_prefix(s.skip(1))
    }
}

/// The language named by `language=` in the parameters of a code block.
pub open spec fn code_lang(params: Seq<char>) -> Seq<char> {
    match find_spec(params, "language="@) {
        Some(i) => alnum_prefix(params.skip(i + "language="@.len())),
        None => seq![],
    }
}

/// `{code:params}...{code}` as a fenced code block.
pub open spec fn code_step() -> spec_fn(Caps) -> Seq<char> {
    |c: Caps| "\n```"@ + code_lang(group(c, 1)) + group(c, 2) + "\n```\n"@
}

/// `{noformat}...{noformat}` as a fenced code block.
pub open spec fn noformat_step() -> spec_fn(Caps) -> Seq<char> {
    |c: Caps| "\n```\n"@ + group(c, 1) + "\n```\n"@
}

/// Each line prefixed with `> `.
pub open spec fn quote_lines(lines: Seq<Seq<char>>) -> Seq<Seq<char>> {
    lines.map_values(|l: Seq<char>| "> "@ + l)
}

/// `{quote}...{quote}`: the trimmed content as a block quote.
pub open spec fn quote_step() -> spec_fn(Caps) -> Seq<char> {
    |c: Caps| "\n"@ + join_spec(quote_lines(lines_spec(trim_spec(group(c, 1)))), "\n"@) + "\n"@
}

/// `{panel}...{panel}` as a one-paragraph block quote.
pub open spec fn panel_step() -> spec_fn(Caps) -> Seq<char> {
    |c: Caps| "\n> "@ + group(c, 1) + "\n"@
}

/// `{color:x}text{color}`: the text alone.
pub open spec fn color_step() -> spec_fn(Caps) -> Seq<char> {
    |c: Caps| group(c, 1)
}

/// The inline markup of Jira wiki text in Markdown, one rule after the
/// other: images, `[text|url]` links, `[url]` links, monospace, code
/// blocks, no-format blocks, quotes, panels, colours.
pub open spec fn inline_spec(md: Seq<char>, att: Seq<(Seq<char>, Seq<char>)>) -> Seq<char> {
    let s1 = replace_all_spec(r"!([^!\n|]+?)(?:\|[^!]*)?\!"@, md, image_step(att));
    let s2 = replace_all_spec(r"\[([^|\]\n]+)\|([^\]\n]+)\]"@, s1, link_step());
    let s3 = replace_all_spec(r"\[(https?://[^\]\n]+)\]"@, s2, url_step());
    let s4 = replace_all_spec(r"\{\{([^}\n]+?)\}\}"@, s3, mono_step());
    let s5 = replace_all_spec(r"(?s)\{code(?::([^}]*))?\}(.*?)\{code\}"@, s4, code_step());
    let s6 = replace_all_spec(r"(?s)\{noformat\}(.*?)\{noformat\}"@, s5, noformat_step());
    let s7 = replace_all_spec(r"(?s)\{quote\}(.*?)\{quote\}"@, s6, quote_step());
    let s8 = replace_all_spec(r"(?s)\{panel(?::[^}]*)?\}(.*?)\{panel\}"@, s7, panel_step());
    replace_all_spec(r"\{color:[^}]+\}(.*?)\{color\}"@, s8, color_step())
}

fn alnum_prefix_exec(s: &[char]) -> (r: Vec<char>)
    ensures
        r@ == alnum_prefix(s@),
{
    let mut i: usize = 0;
    assert(s@.skip(0) =~= s@);
    assert(s@.take(0) + alnum_prefix(s@) =~= alnum_prefix(s@));
    while i < s.len() && is_alphanumeric(s[i])
        invariant
            i <= s.len(),
            alnum_prefix(s@) == s@.take(i as int) + alnum_prefix(s@.skip(i as int)),
        decreases s.len() - i,
    {
        let ghost rest = s@.skip(i as int);
        assert(rest.skip(1) =~= s@.skip(i + 1));
        assert(s@.take(i + 1) =~= s@.take(i as int) + seq![s@[i as int]]);
        i = i + 1;
    }
    slice_vec(s, 0, i)
}

fn code_lang_exec(params: &[char]) -> (r: Vec<char>)
    ensures
        r@ == code_lang(params@),
{
    let kw = to_chars("language=");
    match find(params, kw.as_slice()) {
        Some(i) => {
            proof {
                lemma_find_from_bounds(params@, kw@, 0);
                assert(i + kw@.len() <= params@.len());
            }
            let klen = kw.len();
            assert(klen == kw@.len());
            assert(i + klen <= params.len());
            let rest = slice_vec(params, i + klen, params.len());
            assert(rest@ =~= params@.skip(i + kw@.len()));
            alnum_prefix_exec(rest.as_slice())
        },
        None => Vec::new(),
    }
}

fn quote_block(content: &[char]) -> (r: Vec<char>)
    ensures
        r@ == "\n"@ + join_spec(quote_lines(lines_spec(trim_spec(content@))), "\n"@) + "\n"@,
{
    let ls = lines(trim(content).as_slice());
    let mut q: Vec<Vec<char>> = Vec::new();
    let mut i: usize = 0;
    while i < ls.len()
        invariant
            i <= ls.len(),
            views(q@) == quote_lines(views(ls@)).take(i as int),
        decreases ls.len() - i,
    {
        let ghost prev = views(q@);
        let mut line = to_chars("> ");
        extend_chars(&mut line, ls[i].as_slice());
        q.push(line);
        proof {
            assert(views(q@) =~= prev.push(line@));
            assert(views(ls@)[i as int] == ls@[i as int]@);
            assert(quote_lines(views(ls@))[i as int] == "> "@ + views(ls@)[i as int]);
            assert(views(q@) =~= quote_lines(views(ls@)).take(i + 1));
        }
        i = i + 1;
    }
    assert(quote_lines(views(ls@)).take(ls.len() as int) =~= quote_lines(views(ls@)));
    let joined = join(&q, to_chars("\n").as_slice());
    surround("\n", joined.as_slice(), "\n")
}

/// Converts the inline markup of Jira wiki text: see `inline_spec`.
/// Attachment names resolve to their URL, the later entry winning.
pub fn convert_inline_formatting(md: &str, attachments: &AttachmentMap) -> (r: String)
    ensures
        r@ == inline_spec(md@, pairs_view(attachments@)),
{
    let f1 = |c: &Groups| -> (v: Vec<char>)
        ensures
            v@ == (image_step(pairs_view(attachments@)))(groups_view(*c)),
        {
            let name = group_text(c, 1);
            let http = to_chars("http");
            if starts_with(name.as_slice(), http.as_slice()) {
                group_text(c, 0)
            } else {
                let mut v = surround("![", name.as_slice(), "](");
                let url = match query_lookup(attachments, name.as_slice()) {
                    Some(u) => u,
                    None => name,
                };
                extend_chars(&mut v, url.as_slice());
                let close = to_chars(")");
                extend_chars(&mut v, close.as_slice());
                v
            }
        };
    let s1 = replace_with(
        r"!([^!\n|]+?)(?:\|[^!]*)?\!",
        md,
        f1,
        Ghost(image_step(pairs_view(attachments@))),
    );
    let f2 = |c: &Groups| -> (v: Vec<char>)
        ensures
            v@ == (link_step())(groups_view(*c)),
        {
            let mut v = surround("[", group_text(c, 1).as_slice(), "](");
            extend_chars(&mut v, group_text(c, 2).as_slice());
            extend_chars(&mut v, to_chars(")").as_slice());
            v
        };
    let s2 = replace_with(r"\[([^|\]\n]+)\|([^\]\n]+)\]", s1.as_str(), f2, Ghost(link_step()));
    let f3 = |c: &Groups| -> (v: Vec<char>)
        ensures
            v@ == (url_step())(groups_view(*c)),
        {
            let g = group_text(c, 1);
            let mut v = surround("[", g.as_slice(), "](");
            extend_chars(&mut v, g.as_slice());
            extend_chars(&mut v, to_chars(")").as_slice());
            v
        };
    let s3 = replace_with(r"\[(https?://[^\]\n]+)\]", s2.as_str(), f3, Ghost(url_step()));
    let f4 = |c: &Groups| -> (v: Vec<char>)
        ensures
            v@ == (mono_step())(groups_view(*c)),
        { surround("`", group_text(c, 1).as_slice(), "`") };
    let s4 = replace_with(r"\{\{([^}\n]+?)\}\}", s3.as_str(), f4, Ghost(mono_step()));
    let f5 = |c: &Groups| -> (v: Vec<char>)
        ensures
            v@ == (code_step())(groups_view(*c)),
        {
            let lang = code_lang_exec(group_text(c, 1).as_slice());
            let mut v = to_chars("\n```");
            extend_chars(&mut v, lang.as_slice());
            extend_chars(&mut v, group_text(c, 2).as_slice());
            extend_chars(&mut v, to_chars("\n```\n").as_slice());
            v
        };
    let s5 = replace_with(
        r"(?s)\{code(?::([^}]*))?\}(.*?)\{code\}",
        s4.as_str(),
        f5,
        Ghost(code_step()),
    );
    let f6 = |c: &Groups| -> (v: Vec<char>)
        ensures
            v@ == (noformat_step())(groups_view(*c)),
        { surround("\n```\n", group_text(c, 1).as_slice(), "\n```\n") };
    let s6 = replace_with(
        r"(?s)\{noformat\}(.*?)\{noformat\}",
        s5.as_str(),
        f6,
        Ghost(noformat_step()),
    );
    let f7 = |c: &Groups| -> (v: Vec<char>)
        ensures
            v@ == (quote_step())(groups_view(*c)),
        { quote_block(group_text(c, 1).as_slice()) };
    let s7 = replace_with(r"(?s)\{quote\}(.*?)\{quote\}", s6.as_str(), f7, Ghost(quote_step()));
    let f8 = |c: &Groups| -> (v: Vec<char>)
        ensures
            v@ == (panel_step())(groups_view(*c)),
        { surround("\n> ", group_text(c, 1).as_slice(), "\n") };
    let s8 = replace_with(
        r"(?s)\{panel(?::[^}]*)?\}(.*?)\{panel\}",
        s7.as_str(),
        f8,
        Ghost(panel_step()),
    );
    let f9 = |c: &Groups| -> (v: Vec<char>)
        ensures
            v@ == (color_step())(groups_view(*c)),
        { group_text(c, 1) };
    replace_with(r"\{color:[^}]+\}(.*?)\{color\}", s8.as_str(), f9, Ghost(color_step()))
}


// ───────────────────────── whole documents ─────────────────────────

/// `n` line breaks.
pub open spec fn newlines(n: nat) -> Seq<char> {
    Seq::new(n, |i: int| '\n')
}

/// Runs of four or more line breaks shortened, three at a time, until no
/// run of four is left.
pub open spec fn collapse_blank_runs(s: Seq<char>) -> Seq<char>
    decreases s.len(),
{
    if contains_spec(s, newlines(4)) {
        proof {
            lemma_replace_shrinks(s, newlines(4), newlines(3));
        }
        collapse_blank_runs(replace_spec(s, newlines(4), newlines(3)))
    } else {
        s
    }
}

/// The lines of a Jira wiki text, each converted.
pub open spec fn converted_lines(wiki: Seq<char>) -> Seq<Seq<char>> {
    lines_spec(wiki).map_values(|l: Seq<char>| convert_jira_line_spec(l))
}

/// Jira wiki markup in Markdown: each line converted, the lines joined,
/// the inline markup converted, long runs of blank lines shortened, and
/// the whole trimmed.
pub open spec fn jira_wiki_spec(wiki: Seq<char>, att: Seq<(Seq<char>, Seq<char>)>) -> Seq<char> {
    trim_spec(collapse_blank_runs(inline_spec(join_spec(converted_lines(wiki), "\n"@), att)))
}

fn newlines_exec(n: usize) -> (r: Vec<char>)
    ensures
        r@ == newlines(n as nat),
{
    let mut r: Vec<char> = Vec::new();
    let mut i: usize = 0;
    while i < n
        invariant
            i <= n,
            r@ == newlines(i as nat),
        decreases n - i,
    {
        r.push('\n');
        i = i + 1;
        assert(r@ =~= newlines(i as nat));
    }
    r
}

/// Converts Jira wiki markup to Markdown: see `jira_wiki_spec`.
pub fn convert_jira_wiki(wiki: &str, attachments: &AttachmentMap) -> (r: String)
    ensures
        r@ == jira_wiki_spec(wiki@, pairs_view(attachments@)),
{
    let w = to_chars(wiki);
    let ls = lines(w.as_slice());
    let mut conv: Vec<Vec<char>> = Vec::new();
    let mut i: usize = 0;
    while i < ls.len()
        invariant
            i <= ls.len(),
            views(ls@) == lines_spec(wiki@),
            views(conv@) == converted_lines(wiki@).take(i as int),
        decreases ls.len() - i,
    {
        let ghost prev = views(conv@);
        let line = convert_jira_line(ls[i].as_slice());
        conv.push(line);
        proof {
            assert(views(ls@)[i as int] == ls@[i as int]@);
            assert(views(conv@) =~= prev.push(line@));
            assert(views(conv@) =~= converted_lines(wiki@).take(i + 1));
        }
        i = i + 1;
    }
    assert(converted_lines(wiki@).take(ls.len() as int) =~= converted_lines(wiki@));
    let joined = join(&conv, to_chars("\n").as_slice());
    let md = convert_inline_formatting(from_chars(joined.as_slice()).as_str(), attachments);
    let mut m = to_chars(md.as_str());
    let four = newlines_exec(4);
    let three = newlines_exec(3);
    while contains(m.as_slice(), four.as_slice())
        invariant
            four@ == newlines(4),
            three@ == newlines(3),
            collapse_blank_runs(m@) == collapse_blank_runs(md@),
        decreases m@.len(),
    {
        proof {
            lemma_replace_shrinks(m@, four@, three@);
        }
        m = replace(m.as_slice(), four.as_slice(), three.as_slice());
    }
    from_chars(trim(m.as_slice()).as_slice())
}


// ───────────────────────── laws ─────────────────────────

proof fn lemma_collapse_clean(s: Seq<char>)
    ensures
        !contains_spec(collapse_blank_runs(s), newlines(4)),
    decreases s.len(),
{
    if contains_spec(s, newlines(4)) {
        lemma_replace_shrinks(s, newlines(4), newlines(3));
        lemma_collapse_clean(replace_spec(s, newlines(4), newlines(3)));
    }
}

/// A Jira text converted to Markdown never holds four line breaks in a
/// row: longer runs of blank lines are always shortened.
pub proof fn law_no_long_blank_runs(wiki: Seq<char>, att: Seq<(Seq<char>, Seq<char>)>)
    ensures
        !contains_spec(jira_wiki_spec(wiki, att), newlines(4)),
{
    let c = collapse_blank_runs(inline_spec(join_spec(converted_lines(wiki), "\n"@), att));
    lemma_collapse_clean(inline_spec(join_spec(converted_lines(wiki), "\n"@), att));
    if contains_spec(trim_spec(c), newlines(4)) {
        crate::text::lemma_contains_trim(c, newlines(4));
    }
}

} // verus!
