//! What `init` and `update` decide: the project notes file with its marked
//! section replaced, the credentials line, and the version a downloaded
//! package manifest sets.
use vstd::prelude::*;
use crate::text::{
    contains, contains_spec, extend_chars, find, find_from, find_spec, from_chars, is_ws, join,
    join_spec, lines, matches_at,
    lines_spec, slice_vec, split_char, split_spec, starts_with, starts_with_spec, to_chars, trim,
    trim_char, trim_char_spec, trim_end, trim_end_spec, trim_spec, views,
};

verus! {

/// The new project notes file: where the file exists, the user's text (what comes
/// before the marker, or the whole file where there is no marker) with
/// trailing whitespace removed, a line break, then the marker on a line of
/// its own and the generated section; where it does not, the marker, a line
/// break and the section.
pub open spec fn notes_update_spec(
    existing: Option<Seq<char>>,
    marker: Seq<char>,
    content: Seq<char>,
) -> Seq<char> {
    let section = "\n"@ + marker + "\n"@ + content;
    match existing {
        Some(e) => {
            let user = match find_spec(e, marker) {
                Some(pos) => trim_end_spec(e.take(pos)),
                None => trim_end_spec(e),
            };
            user + "\n"@ + section
        },
        None => marker + "\n"@ + content,
    }
}

/// The new project notes file: see `notes_update_spec`.
pub fn notes_file_update(existing: Option<&str>, marker: &str, content: &str) -> (r: String)
    ensures
        r@ == notes_update_spec(
            match existing {
                Some(e) => Some(e@),
                None => None,
            },
            marker@,
            content@,
        ),
{
    let marker = to_chars(marker);
    match existing {
        Some(e) => {
            let ev = to_chars(e);
            let mut out = match find(ev.as_slice(), marker.as_slice()) {
                Some(pos) => {
                    proof {
                        crate::text::lemma_find_from_bounds(ev@, marker@, 0);
                    }
                    trim_end(slice_vec(ev.as_slice(), 0, pos).as_slice())
                },
                None => trim_end(ev.as_slice()),
            };
            extend_chars(&mut out, to_chars("\n").as_slice());
            extend_chars(&mut out, to_chars("\n").as_slice());
            extend_chars(&mut out, marker.as_slice());
            extend_chars(&mut out, to_chars("\n").as_slice());
            extend_chars(&mut out, to_chars(content).as_slice());
            from_chars(out.as_slice())
        },
        None => {
            let mut out = marker;
            extend_chars(&mut out, to_chars("\n").as_slice());
            extend_chars(&mut out, to_chars(content).as_slice());
            from_chars(out.as_slice())
        },
    }
}

/// Before the first match, nothing matches.
proof fn lemma_no_match_before_first(s: Seq<char>, p: Seq<char>, i: int, k: int)
    requires
        0 <= i <= k,
        matches_at(s, p, k),
    ensures
        find_from(s, p, i) matches Some(j) && j <= k,
    decreases k - i,
{
    if !matches_at(s, p, i) {
        lemma_no_match_before_first(s, p, i + 1, k);
    }
}

/// The first match is where the pattern matches and nothing matches before.
proof fn lemma_find_from_exact(s: Seq<char>, p: Seq<char>, i: int, j: int)
    requires
        0 <= i <= j,
        matches_at(s, p, j),
        forall|k: int| i <= k < j ==> !matches_at(s, p, k),
    ensures
        find_from(s, p, i) == Some(j),
    decreases j - i,
{
    if i < j {
        lemma_find_from_exact(s, p, i + 1, j);
    }
}

/// What trimming leaves ends in no whitespace.
proof fn lemma_trim_end_ends(s: Seq<char>)
    ensures
        trim_end_spec(s).len() == 0 || !is_ws(trim_end_spec(s).last()),
    decreases s.len(),
{
    if s.len() > 0 && is_ws(s.last()) {
        lemma_trim_end_ends(s.drop_last());
    }
}

/// The user's part of a notes file holds no marker.
proof fn lemma_user_part_has_no_marker(e: Seq<char>, m: Seq<char>) -> (u: Seq<char>)
    requires
        m.len() > 0,
    ensures
        u == (match find_spec(e, m) {
            Some(pos) => trim_end_spec(e.take(pos)),
            None => trim_end_spec(e),
        }),
        forall|k: int| !matches_at(u, m, k),
        u.len() == 0 || !is_ws(u.last()),
{
    match find_spec(e, m) {
        Some(pos) => {
            crate::text::lemma_find_from_bounds(e, m, 0);
            let x = e.take(pos);
            let n = crate::text::lemma_trim_end_length(x);
            let u = trim_end_spec(x);
            lemma_trim_end_ends(x);
            assert forall|k: int| !matches_at(u, m, k) by {
                if matches_at(u, m, k) {
                    assert(u.subrange(k, k + m.len()) =~= e.subrange(k, k + m.len()));
                    assert(matches_at(e, m, k));
                    lemma_no_match_before_first(e, m, 0, k);
                }
            }
            u
        },
        None => {
            let n = crate::text::lemma_trim_end_length(e);
            let u = trim_end_spec(e);
            lemma_trim_end_ends(e);
            assert forall|k: int| !matches_at(u, m, k) by {
                if matches_at(u, m, k) {
                    assert(u.subrange(k, k + m.len()) =~= e.subrange(k, k + m.len()));
                    crate::text::lemma_find_from_complete(e, m, 0, k);
                }
            }
            u
        },
    }
}

/// Running `init` again on a project whose notes file exists leaves the
/// file as the first run wrote it: the marker is then found right after
/// the user's text, and the user's text is kept as it is. The marker is a
/// single non-empty line.
pub proof fn law_notes_update_is_stable(e: Seq<char>, m: Seq<char>, c: Seq<char>)
    requires
        m.len() > 0,
        forall|i: int| 0 <= i < m.len() ==> m[i] != '\n',
    ensures
        contains_spec(notes_update_spec(Some(e), m, c), m),
        notes_update_spec(Some(notes_update_spec(Some(e), m, c)), m, c) == notes_update_spec(
            Some(e),
            m,
            c,
        ),
{
    let u = lemma_user_part_has_no_marker(e, m);
    let r1 = notes_update_spec(Some(e), m, c);
    let nl = "\n"@;
    assert(nl.len() == 1 && nl[0] == '\n') by {
        reveal_strlit("\n");
    }
    let at: int = u.len() as int + 2;
    assert(r1 =~= u + nl + (nl + m + nl + c));
    assert(r1[u.len() as int] == '\n' && r1[u.len() as int + 1] == '\n');
    assert(r1.subrange(at, at + m.len()) =~= m);
    assert forall|k: int| 0 <= k < at implies !matches_at(r1, m, k) by {
        if matches_at(r1, m, k) {
            if k + m.len() <= u.len() {
                assert(r1.subrange(k, k + m.len()) =~= u.subrange(k, k + m.len()));
                assert(matches_at(u, m, k));
            } else if k <= u.len() {
                assert(m[u.len() - k] == r1.subrange(k, k + m.len())[u.len() - k]);
            } else {
                assert(m[0] == r1.subrange(k, k + m.len())[0]);
            }
        }
    }
    lemma_find_from_exact(r1, m, 0, at);
    crate::text::lemma_find_from_complete(r1, m, 0, at);
    let t = r1.take(at);
    assert(t =~= u + nl + nl);
    assert(t.drop_last() =~= u + nl);
    assert((u + nl).drop_last() =~= u);
    assert(is_ws('\n'));
    assert(trim_end_spec(u) == u);
    assert((u + nl).last() == '\n');
    assert(trim_end_spec(u + nl) == trim_end_spec((u + nl).drop_last()));
    assert(t.last() == '\n');
    assert(trim_end_spec(t) == trim_end_spec(t.drop_last()));
}

/// Whether a project notes file holds the marked section.
pub fn has_marker(text: &str, marker: &str) -> (b: bool)
    ensures
        b == contains_spec(text@, marker@),
{
    contains(to_chars(text).as_slice(), to_chars(marker).as_slice())
}

/// The services that have credentials, in the order Jira, Wiki, Figma.
pub open spec fn configured_services(jira: bool, wiki: bool, figma: bool) -> Seq<Seq<char>> {
    (if jira { seq!["Jira"@] } else { seq![] }) + (if wiki { seq!["Wiki"@] } else { seq![] }) + (
    if figma {
        seq!["Figma"@]
    } else {
        seq![]
    })
}

/// The credentials line of `init`: the configured services joined by
/// ` + ` with ` configured`, or that none is configured.
pub open spec fn config_status_spec(jira: bool, wiki: bool, figma: bool) -> Seq<char> {
    let parts = configured_services(jira, wiki, figma);
    if parts.len() == 0 {
        "No credentials configured"@
    } else {
        join_spec(parts, " + "@) + " configured"@
    }
}

/// The credentials line of `init`: see `config_status_spec`.
pub fn config_status(has_jira: bool, has_wiki: bool, has_figma: bool) -> (r: String)
    ensures
        r@ == config_status_spec(has_jira, has_wiki, has_figma),
{
    let mut parts: Vec<Vec<char>> = Vec::new();
    if has_jira {
        parts.push(to_chars("Jira"));
    }
    if has_wiki {
        parts.push(to_chars("Wiki"));
    }
    if has_figma {
        parts.push(to_chars("Figma"));
    }
    assert(views(parts@) =~= configured_services(has_jira, has_wiki, has_figma));
    if parts.len() == 0 {
        return from_chars(to_chars("No credentials configured").as_slice());
    }
    let mut out = join(&parts, to_chars(" + ").as_slice());
    extend_chars(&mut out, to_chars(" configured").as_slice());
    from_chars(out.as_slice())
}

/// The version a `version = "x"` line of a package manifest sets: what
/// follows the first `=`, trimmed and without its quotes; `None` for other
/// lines and empty values.
pub open spec fn version_of_line(line: Seq<char>) -> Option<Seq<char>> {
    let l = trim_spec(line);
    if starts_with_spec(l, "version"@) {
        let parts = split_spec(l, '=');
        if parts.len() > 1 {
            let v = trim_spec(trim_char_spec(trim_spec(parts[1]), '"'));
            if v.len() > 0 {
                Some(v)
            } else {
                None
            }
        } else {
            None
        }
    } else {
        None
    }
}

/// The first version the lines set, from line `i` on.
pub open spec fn first_version(lines: Seq<Seq<char>>, i: int) -> Option<Seq<char>>
    decreases lines.len() - i,
{
    if i < 0 || i >= lines.len() {
        None
    } else {
        match version_of_line(lines[i]) {
            Some(v) => Some(v),
            None => first_version(lines, i + 1),
        }
    }
}

fn version_of_line_exec(line: &[char]) -> (r: Option<Vec<char>>)
    ensures
        match r {
            Some(v) => version_of_line(line@) == Some(v@),
            None => version_of_line(line@) is None,
        },
{
    let l = trim(line);
    if !starts_with(l.as_slice(), to_chars("version").as_slice()) {
        return None;
    }
    let parts = split_char(l.as_slice(), '=');
    if parts.len() <= 1 {
        return None;
    }
    proof {
        assert(views(parts@)[1] == parts@[1]@);
    }
    let v = trim(trim_char(trim(parts[1].as_slice()).as_slice(), '"').as_slice());
    if v.len() > 0 {
        Some(v)
    } else {
        None
    }
}

/// The version a package manifest sets: see `first_version`.
pub fn manifest_version(content: &str) -> (r: Option<String>)
    ensures
        match r {
            Some(v) => first_version(lines_spec(content@), 0) == Some(v@),
            None => first_version(lines_spec(content@), 0) is None,
        },
{
    let ls = lines(to_chars(content).as_slice());
    let mut i: usize = 0;
    while i < ls.len()
        invariant
            i <= ls.len(),
            views(ls@) == lines_spec(content@),
            first_version(lines_spec(content@), 0) == first_version(lines_spec(content@), i as int),
        decreases ls.len() - i,
    {
        proof {
            assert(views(ls@)[i as int] == ls@[i as int]@);
        }
        match version_of_line_exec(ls[i].as_slice()) {
            Some(v) => {
                return Some(from_chars(v.as_slice()));
            },
            None => {},
        }
        i = i + 1;
    }
    None
}

/// Whether the installed version is the latest: the remote version is
/// known and the same.
pub fn is_up_to_date(remote: &str, current: &str) -> (b: bool)
    ensures
        b == (remote@.len() > 0 && remote@ == current@),
{
    let r = to_chars(remote);
    r.len() > 0 && crate::text::eq_chars(r.as_slice(), to_chars(current).as_slice())
}

} // verus!
