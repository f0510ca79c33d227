//! Which HTML `html2md` converts without failing. `html2md` fails on a list
//! item that no list encloses: its handler then strips the start of the
//! whole output, and an enclosing handler slices past the end. The check
//! here reads the tags as the HTML tokenizer does and follows the open
//! elements with a simple stack that closes at least as much as the HTML
//! tree builder does; it accepts a text only where every `<li>` opens while
//! a `<ul>`, `<ol>` or `<menu>` is open, and it refuses outright the
//! constructs whose parsing that stack does not follow (plain text to the
//! end, templates, tables, forms of scope, foreign content, document-level
//! tags). Comments, doctypes, other markup declarations, bogus comments
//! and the text of raw-text elements are skipped as the tokenizer skips
//! them.
use vstd::prelude::*;
use crate::text::{ascii_lower, eq_chars, find_char_from, find_char_from_exec, to_chars, views};

verus! {

/// The whitespace of the HTML tokenizer.
pub open spec fn is_tag_ws(c: char) -> bool {
    c == '\t' || c == '\n' || c == '\x0C' || c == ' ' || c == '\r'
}

/// An ASCII letter.
pub open spec fn is_ascii_alpha(c: char) -> bool {
    (65 <= (c as u32) <= 90) || (97 <= (c as u32) <= 122)
}

/// Where a tag name that starts at `j` ends: at whitespace, `/`, `>` or the
/// end of the text.
pub open spec fn name_end(s: Seq<char>, j: int) -> int
    decreases s.len() - j,
{
    if j < 0 || j >= s.len() {
        s.len() as int
    } else if is_tag_ws(s[j]) || s[j] == '/' || s[j] == '>' {
        j
    } else {
        name_end(s, j + 1)
    }
}

/// A tag name as the tokenizer reads it (ASCII lower-cased).
pub open spec fn tag_name(s: Seq<char>, a: int, b: int) -> Seq<char> {
    s.subrange(a, b).map_values(|c: char| ascii_lower(c))
}

/// Where the attributes of a tag end (the index of its `>`), reading from
/// `j` in the tokenizer state `mode`: 0 before an attribute name, 1 in a
/// name, 2 after a name, 3 before a value, 4 in a double-quoted value, 5 in
/// a single-quoted value, 6 in an unquoted value, 7 after a quoted value.
/// `None` where the text ends inside the tag.
pub open spec fn attrs_end(s: Seq<char>, j: int, mode: int) -> Option<int>
    decreases s.len() - j, mode,
{
    if j < 0 || j >= s.len() || mode < 0 || mode > 7 {
        None
    } else {
        let c = s[j];
        if mode == 4 {
            if c == '"' {
                attrs_end(s, j + 1, 7)
            } else {
                attrs_end(s, j + 1, 4)
            }
        } else if mode == 5 {
            if c == '\'' {
                attrs_end(s, j + 1, 7)
            } else {
                attrs_end(s, j + 1, 5)
            }
        } else if c == '>' {
            Some(j)
        } else if mode == 6 {
            if is_tag_ws(c) {
                attrs_end(s, j + 1, 0)
            } else {
                attrs_end(s, j + 1, 6)
            }
        } else if mode == 7 {
            if is_tag_ws(c) || c == '/' {
                attrs_end(s, j + 1, 0)
            } else {
                attrs_end(s, j, 0)
            }
        } else if mode == 3 {
            if is_tag_ws(c) {
                attrs_end(s, j + 1, 3)
            } else if c == '"' {
                attrs_end(s, j + 1, 4)
            } else if c == '\'' {
                attrs_end(s, j + 1, 5)
            } else {
                attrs_end(s, j + 1, 6)
            }
        } else if mode == 1 || mode == 2 {
            if is_tag_ws(c) {
                attrs_end(s, j + 1, 2)
            } else if c == '/' {
                attrs_end(s, j + 1, 0)
            } else if c == '=' {
                attrs_end(s, j + 1, 3)
            } else {
                attrs_end(s, j + 1, 1)
            }
        } else {
            if is_tag_ws(c) || c == '/' {
                attrs_end(s, j + 1, 0)
            } else {
                attrs_end(s, j + 1, 1)
            }
        }
    }
}

/// The tags the check refuses: plain text to the end, templates,
/// foreign-content elements, tables, scope-bounding elements, frames and
/// document-level tags.
pub open spec fn refused_names() -> Seq<Seq<char>> {
    seq![
        "plaintext"@, "template"@, "svg"@, "math"@, "select"@, "table"@, "caption"@, "td"@,
        "th"@, "tr"@, "tbody"@, "thead"@, "tfoot"@, "col"@, "colgroup"@, "object"@, "applet"@,
        "marquee"@, "frameset"@, "frame"@, "button"@, "head"@, "body"@, "html"@,
    ]
}

/// The elements whose content is text up to their own end tag (raw text
/// and escapable raw text).
pub open spec fn raw_names() -> Seq<Seq<char>> {
    seq![
        "script"@, "style"@, "textarea"@, "title"@, "xmp"@, "iframe"@, "noembed"@,
        "noframes"@, "noscript"@,
    ]
}

/// Whether an end tag of `n` starts at `p`: `</`, the name in any case,
/// then whitespace, `/` or `>`.
pub open spec fn closes_raw(s: Seq<char>, n: Seq<char>, p: int) -> bool {
    &&& 0 <= p
    &&& p + 2 + n.len() < s.len()
    &&& s[p] == '<'
    &&& s[p + 1] == '/'
    &&& tag_name(s, p + 2, p + 2 + n.len()) == n
    &&& (is_tag_ws(s[p + 2 + n.len()]) || s[p + 2 + n.len()] == '/' || s[p + 2 + n.len()] == '>')
}

/// The first end tag of `n` from `p` on.
pub open spec fn raw_close_from(s: Seq<char>, n: Seq<char>, p: int) -> Option<int>
    decreases s.len() - p,
{
    if p < 0 || p >= s.len() {
        None
    } else if closes_raw(s, n, p) {
        Some(p)
    } else {
        raw_close_from(s, n, p + 1)
    }
}

/// A list element (`ul`, `ol`, `menu`).
pub open spec fn is_list_name(n: Seq<char>) -> bool {
    n == "ul"@ || n == "ol"@ || n == "menu"@
}

/// A heading element.
pub open spec fn is_heading_name(n: Seq<char>) -> bool {
    n == "h1"@ || n == "h2"@ || n == "h3"@ || n == "h4"@ || n == "h5"@ || n == "h6"@
}

/// Whether a list is open.
pub open spec fn list_open(stack: Seq<Seq<char>>) -> bool
    decreases stack.len(),
{
    stack.len() > 0 && (is_list_name(stack.last()) || list_open(stack.drop_last()))
}

/// What an end tag leaves open: everything up to and including the
/// nearest element of its name (any heading for a heading), or nothing
/// where none is open.
pub open spec fn pop_to(stack: Seq<Seq<char>>, n: Seq<char>) -> Seq<Seq<char>>
    decreases stack.len(),
{
    if stack.len() == 0 {
        stack
    } else if stack.last() == n || (is_heading_name(stack.last()) && is_heading_name(n)) {
        stack.drop_last()
    } else {
        pop_to(stack.drop_last(), n)
    }
}

/// Whether a `>` at `k` closes a comment whose text starts at `j0`: it
/// follows `--` or `--!` within the text.
pub open spec fn closes_comment(s: Seq<char>, j0: int, k: int) -> bool {
    &&& 0 <= k < s.len()
    &&& s[k] == '>'
    &&& ((k - 2 >= j0 && s[k - 1] == '-' && s[k - 2] == '-') || (k - 3 >= j0 && s[k - 1] == '!'
        && s[k - 2] == '-' && s[k - 3] == '-'))
}

/// The first `>` from `k` on that closes a comment whose text starts at
/// `j0`.
pub open spec fn comment_close_from(s: Seq<char>, j0: int, k: int) -> Option<int>
    decreases s.len() - k,
{
    if k < 0 || k >= s.len() {
        None
    } else if closes_comment(s, j0, k) {
        Some(k)
    } else {
        comment_close_from(s, j0, k + 1)
    }
}

/// Where a markup declaration that starts at `i` (`<!` or `<?`) ends: a
/// comment (`<!--`) at its closing `>` (`<!-->` and `<!--->` close at
/// once), anything else (a doctype, CDATA outside foreign content, a bogus
/// comment) at the first `>`. `None` where the text ends first.
pub open spec fn declaration_end(s: Seq<char>, i: int) -> Option<int> {
    let j0 = i + 4;
    if s[i + 1] == '!' && i + 3 < s.len() && s[i + 2] == '-' && s[i + 3] == '-' {
        if j0 < s.len() && s[j0] == '>' {
            Some(j0)
        } else if j0 + 1 < s.len() && s[j0] == '-' && s[j0 + 1] == '>' {
            Some(j0 + 1)
        } else {
            comment_close_from(s, j0, j0)
        }
    } else {
        find_char_from(s, '>', i + 2)
    }
}

/// Where reading goes on after a tag that starts at `i` and whose `>` is at
/// `k` (the guard against a `k` out of place never applies to what
/// `attrs_end` gives).
pub open spec fn next_index(s: Seq<char>, i: int, k: int) -> int {
    if i < k + 1 && k + 1 <= s.len() {
        k + 1
    } else {
        s.len() as int
    }
}

/// Whether the text from `i` on, with `stack` open, passes the check.
pub open spec fn guard_from(s: Seq<char>, i: int, stack: Seq<Seq<char>>) -> bool
    decreases s.len() - i,
{
    if i < 0 || i >= s.len() {
        true
    } else if s[i] != '<' || i + 1 >= s.len() {
        s[i] != '<' ==> guard_from(s, i + 1, stack)
    } else if s[i + 1] == '!' || s[i + 1] == '?' {
        match declaration_end(s, i) {
            None => true,
            Some(k) => guard_from(s, next_index(s, i, k), stack),
        }
    } else if is_ascii_alpha(s[i + 1]) {
        let e = name_end(s, i + 1);
        let n = tag_name(s, i + 1, e);
        if e >= s.len() {
            true
        } else if refused_names().contains(n) {
            false
        } else {
            match attrs_end(s, e, 0) {
                None => true,
                Some(k) => {
                    if n == "li"@ && !list_open(stack) {
                        false
                    } else if raw_names().contains(n) {
                        match raw_close_from(s, n, k + 1) {
                            None => true,
                            Some(p) => match attrs_end(s, p + 2 + n.len(), 0) {
                                None => true,
                                Some(k2) => guard_from(s, next_index(s, i, k2), stack),
                            },
                        }
                    } else {
                        guard_from(s, next_index(s, i, k), stack.push(n))
                    }
                },
            }
        }
    } else if s[i + 1] == '/' {
        if i + 2 >= s.len() {
            true
        } else if s[i + 2] == '>' {
            guard_from(s, i + 3, stack)
        } else if !is_ascii_alpha(s[i + 2]) {
            match find_char_from(s, '>', i + 2) {
                None => true,
                Some(k) => guard_from(s, next_index(s, i, k), stack),
            }
        } else {
            let e = name_end(s, i + 2);
            let n = tag_name(s, i + 2, e);
            if e >= s.len() {
                true
            } else if refused_names().contains(n) {
                false
            } else {
                match attrs_end(s, e, 0) {
                    None => true,
                    Some(k) => guard_from(s, next_index(s, i, k), pop_to(stack, n)),
                }
            }
        }
    } else {
        guard_from(s, i + 1, stack)
    }
}

/// Whether `html2md` converts the text without failing, as far as the
/// check can tell (see the module's description).
pub open spec fn html2md_safe(s: Seq<char>) -> bool {
    guard_from(s, 0, Seq::empty())
}

fn is_tag_ws_exec(c: char) -> (b: bool)
    ensures
        b == is_tag_ws(c),
{
    c == '\t' || c == '\n' || c == '\x0C' || c == ' ' || c == '\r'
}

fn is_ascii_alpha_exec(c: char) -> (b: bool)
    ensures
        b == is_ascii_alpha(c),
{
    let n = c as u32;
    (65 <= n && n <= 90) || (97 <= n && n <= 122)
}

fn name_end_exec(s: &[char], j0: usize) -> (e: usize)
    requires
        j0 <= s.len(),
    ensures
        e as int == name_end(s@, j0 as int),
        j0 <= e <= s.len(),
{
    let mut j = j0;
    while j < s.len() && !(is_tag_ws_exec(s[j]) || s[j] == '/' || s[j] == '>')
        invariant
            j0 <= j <= s.len(),
            name_end(s@, j0 as int) == name_end(s@, j as int),
        decreases s.len() - j,
    {
        j = j + 1;
    }
    j
}

fn ascii_lower_exec(c: char) -> (r: char)
    ensures
        r == ascii_lower(c),
{
    let n = c as u32;
    if 65 <= n && n <= 90 {
        let m: u8 = (n + 32) as u8;
        let r = m as char;
        assert(r as u32 == n + 32);
        r
    } else {
        c
    }
}

fn tag_name_exec(s: &[char], a: usize, b: usize) -> (r: Vec<char>)
    requires
        a <= b <= s.len(),
    ensures
        r@ == tag_name(s@, a as int, b as int),
{
    let mut r: Vec<char> = Vec::new();
    let mut j = a;
    while j < b
        invariant
            a <= j <= b <= s.len(),
            r@ =~= s@.subrange(a as int, j as int).map_values(|c: char| ascii_lower(c)),
        decreases b - j,
    {
        r.push(ascii_lower_exec(s[j]));
        j = j + 1;
    }
    r
}

fn attrs_end_exec(s: &[char], j0: usize) -> (r: Option<usize>)
    requires
        j0 <= s.len(),
    ensures
        match r {
            Some(k) => attrs_end(s@, j0 as int, 0) == Some(k as int) && j0 <= k < s.len(),
            None => attrs_end(s@, j0 as int, 0) is None,
        },
{
    let mut j = j0;
    let mut mode: u8 = 0;
    while j < s.len()
        invariant
            j0 <= j <= s.len(),
            mode <= 7,
            attrs_end(s@, j0 as int, 0) == attrs_end(s@, j as int, mode as int),
        decreases s.len() - j, mode,
    {
        let c = s[j];
        if mode == 4 {
            if c == '"' {
                mode = 7;
            }
            j = j + 1;
        } else if mode == 5 {
            if c == '\'' {
                mode = 7;
            }
            j = j + 1;
        } else if c == '>' {
            return Some(j);
        } else if mode == 6 {
            if is_tag_ws_exec(c) {
                mode = 0;
            }
            j = j + 1;
        } else if mode == 7 {
            if is_tag_ws_exec(c) || c == '/' {
                j = j + 1;
            }
            mode = 0;
        } else if mode == 3 {
            if is_tag_ws_exec(c) {
                mode = 3;
            } else if c == '"' {
                mode = 4;
            } else if c == '\'' {
                mode = 5;
            } else {
                mode = 6;
            }
            j = j + 1;
        } else if mode == 1 || mode == 2 {
            if is_tag_ws_exec(c) {
                mode = 2;
            } else if c == '/' {
                mode = 0;
            } else if c == '=' {
                mode = 3;
            } else {
                mode = 1;
            }
            j = j + 1;
        } else {
            if is_tag_ws_exec(c) || c == '/' {
                mode = 0;
            } else {
                mode = 1;
            }
            j = j + 1;
        }
    }
    None
}

fn comment_close_exec(s: &[char], j0: usize) -> (r: Option<usize>)
    requires
        j0 <= s.len(),
    ensures
        match r {
            Some(k) => comment_close_from(s@, j0 as int, j0 as int) == Some(k as int) && j0 <= k < s.len(),
            None => comment_close_from(s@, j0 as int, j0 as int) is None,
        },
{
    let mut k = j0;
    while k < s.len()
        invariant
            j0 <= k <= s.len(),
            comment_close_from(s@, j0 as int, j0 as int) == comment_close_from(s@, j0 as int, k as int),
        decreases s.len() - k,
    {
        if s[k] == '>' && ((k - j0 >= 2 && s[k - 1] == '-' && s[k - 2] == '-') || (k - j0 >= 3
            && s[k - 1] == '!' && s[k - 2] == '-' && s[k - 3] == '-')) {
            return Some(k);
        }
        k = k + 1;
    }
    None
}

proof fn lemma_find_char_from_at_or_after(s: Seq<char>, c: char, from: int)
    ensures
        find_char_from(s, c, from) matches Some(k) ==> from <= k,
    decreases s.len() - from,
{
    if 0 <= from < s.len() && s[from] != c {
        lemma_find_char_from_at_or_after(s, c, from + 1);
    }
}

fn declaration_end_exec(s: &[char], i: usize) -> (r: Option<usize>)
    requires
        i + 1 < s.len(),
    ensures
        match r {
            Some(k) => declaration_end(s@, i as int) == Some(k as int) && i + 1 < k < s.len(),
            None => declaration_end(s@, i as int) is None,
        },
{
    if s[i + 1] == '!' && s.len() - i > 3 && s[i + 2] == '-' && s[i + 3] == '-' {
        let j0 = i + 4;
        if j0 < s.len() && s[j0] == '>' {
            Some(j0)
        } else if j0 < s.len() && s.len() - j0 > 1 && s[j0] == '-' && s[j0 + 1] == '>' {
            Some(j0 + 1)
        } else {
            comment_close_exec(s, j0)
        }
    } else {
        proof {
            lemma_find_char_from_at_or_after(s@, '>', i + 2);
        }
        find_char_from_exec(s, '>', i + 2)
    }
}

fn name_in(n: &[char], names: &[&str]) -> (b: bool)
    ensures
        b == names@.map_values(|x: &str| x@).contains(n@),
{
    let ghost all = names@.map_values(|x: &str| x@);
    let mut i: usize = 0;
    while i < names.len()
        invariant
            i <= names.len(),
            all == names@.map_values(|x: &str| x@),
            forall|k: int| 0 <= k < i ==> all[k] != n@,
        decreases names.len() - i,
    {
        assert(all[i as int] == names@[i as int]@);
        if eq_chars(n, to_chars(names[i]).as_slice()) {
            assert(all[i as int] == n@);
            return true;
        }
        i = i + 1;
    }
    assert(!all.contains(n@));
    false
}

fn refused_exec(n: &[char]) -> (b: bool)
    ensures
        b == refused_names().contains(n@),
{
    let names: [&str; 24] = [
        "plaintext", "template", "svg", "math", "select", "table", "caption", "td", "th", "tr",
        "tbody", "thead", "tfoot", "col", "colgroup", "object", "applet", "marquee", "frameset",
        "frame", "button", "head", "body", "html",
    ];
    assert(names@.map_values(|x: &str| x@) =~= refused_names());
    name_in(n, names.as_slice())
}

fn raw_exec(n: &[char]) -> (b: bool)
    ensures
        b == raw_names().contains(n@),
{
    let names: [&str; 9] = [
        "script", "style", "textarea", "title", "xmp", "iframe", "noembed", "noframes", "noscript",
    ];
    assert(names@.map_values(|x: &str| x@) =~= raw_names());
    name_in(n, names.as_slice())
}

proof fn lemma_raw_close_at_or_after(s: Seq<char>, n: Seq<char>, from: int)
    ensures
        raw_close_from(s, n, from) matches Some(p) ==> from <= p,
    decreases s.len() - from,
{
    if 0 <= from < s.len() && !closes_raw(s, n, from) {
        lemma_raw_close_at_or_after(s, n, from + 1);
    }
}

fn raw_close_exec(s: &[char], n: &[char], from: usize) -> (r: Option<usize>)
    requires
        from <= s.len(),
    ensures
        match r {
            Some(p) => raw_close_from(s@, n@, from as int) == Some(p as int) && closes_raw(s@, n@, p as int),
            None => raw_close_from(s@, n@, from as int) is None,
        },
{
    let mut p = from;
    while p < s.len()
        invariant
            from <= p <= s.len(),
            raw_close_from(s@, n@, from as int) == raw_close_from(s@, n@, p as int),
        decreases s.len() - p,
    {
        if s.len() - p > 2 && s.len() - (p + 2) > n.len() && s[p] == '<' && s[p + 1] == '/' {
            let e = p + 2 + n.len();
            let t = tag_name_exec(s, p + 2, e);
            if eq_chars(t.as_slice(), n) && (is_tag_ws_exec(s[e]) || s[e] == '/' || s[e] == '>') {
                return Some(p);
            }
        }
        p = p + 1;
    }
    None
}

fn is_list_name_exec(n: &[char]) -> (b: bool)
    ensures
        b == is_list_name(n@),
{
    eq_chars(n, to_chars("ul").as_slice()) || eq_chars(n, to_chars("ol").as_slice()) || eq_chars(
        n,
        to_chars("menu").as_slice(),
    )
}

fn is_heading_name_exec(n: &[char]) -> (b: bool)
    ensures
        b == is_heading_name(n@),
{
    eq_chars(n, to_chars("h1").as_slice()) || eq_chars(n, to_chars("h2").as_slice()) || eq_chars(
        n,
        to_chars("h3").as_slice(),
    ) || eq_chars(n, to_chars("h4").as_slice()) || eq_chars(n, to_chars("h5").as_slice())
        || eq_chars(n, to_chars("h6").as_slice())
}

fn list_open_exec(stack: &Vec<Vec<char>>) -> (b: bool)
    ensures
        b == list_open(views(stack@)),
{
    let mut i: usize = stack.len();
    assert(views(stack@).take(i as int) =~= views(stack@));
    while i > 0
        invariant
            i <= stack.len(),
            list_open(views(stack@)) == list_open(views(stack@).take(i as int)),
        decreases i,
    {
        let ghost t = views(stack@).take(i as int);
        assert(t.drop_last() =~= views(stack@).take(i - 1));
        assert(t.last() == stack@[i - 1]@);
        if is_list_name_exec(stack[i - 1].as_slice()) {
            return true;
        }
        i = i - 1;
    }
    assert(views(stack@).take(0) =~= Seq::<Seq<char>>::empty());
    false
}

fn pop_to_exec(stack: &mut Vec<Vec<char>>, n: &[char])
    ensures
        views(final(stack)@) == pop_to(views(old(stack)@), n@),
{
    let ghost target = pop_to(views(old(stack)@), n@);
    let heading = is_heading_name_exec(n);
    while stack.len() > 0
        invariant
            pop_to(views(stack@), n@) == target,
            target == pop_to(views(old(stack)@), n@),
            heading == is_heading_name(n@),
        decreases stack.len(),
    {
        let ghost pre = views(stack@);
        assert(pre.len() > 0);
        let last = stack.pop().unwrap();
        proof {
            assert(pre.drop_last() =~= views(stack@));
            assert(pre.last() == last@);
        }
        if eq_chars(last.as_slice(), n) || (heading && is_heading_name_exec(last.as_slice())) {
            assert(pop_to(pre, n@) == pre.drop_last());
            return;
        }
    }
    assert(views(stack@) =~= Seq::<Seq<char>>::empty());
}

/// Whether `html2md` converts the text without failing: see
/// `html2md_safe`.
pub fn html2md_safe_exec(s: &[char]) -> (b: bool)
    ensures
        b == html2md_safe(s@),
{
    let mut stack: Vec<Vec<char>> = Vec::new();
    let mut i: usize = 0;
    assert(views(stack@) =~= Seq::<Seq<char>>::empty());
    while i < s.len()
        invariant
            i <= s.len(),
            html2md_safe(s@) == guard_from(s@, i as int, views(stack@)),
        decreases s.len() - i,
    {
        if s[i] != '<' || i + 1 >= s.len() {
            if s[i] == '<' {
                return true;
            }
            i = i + 1;
        } else if s[i + 1] == '!' || s[i + 1] == '?' {
            match declaration_end_exec(s, i) {
                None => {
                    return true;
                },
                Some(k) => {
                    i = k + 1;
                },
            }
        } else if is_ascii_alpha_exec(s[i + 1]) {
            let e = name_end_exec(s, i + 1);
            if e >= s.len() {
                return true;
            }
            let n = tag_name_exec(s, i + 1, e);
            if refused_exec(n.as_slice()) {
                return false;
            }
            match attrs_end_exec(s, e) {
                None => {
                    return true;
                },
                Some(k) => {
                    proof {
                        reveal_strlit("li");
                    }
                    if eq_chars(n.as_slice(), to_chars("li").as_slice()) && !list_open_exec(&stack) {
                        return false;
                    }
                    if raw_exec(n.as_slice()) {
                        match raw_close_exec(s, n.as_slice(), k + 1) {
                            None => {
                                return true;
                            },
                            Some(p) => {
                                proof {
                                    lemma_raw_close_at_or_after(s@, n@, k + 1);
                                }
                                match attrs_end_exec(s, p + 2 + n.len()) {
                                    None => {
                                        return true;
                                    },
                                    Some(k2) => {
                                        i = k2 + 1;
                                        continue;
                                    },
                                }
                            },
                        }
                    }
                    let ghost before = views(stack@);
                    stack.push(n);
                    assert(views(stack@) =~= before.push(n@));
                    i = k + 1;
                },
            }
        } else if s[i + 1] == '/' {
            if i + 2 >= s.len() {
                return true;
            } else if s[i + 2] == '>' {
                i = i + 3;
            } else if !is_ascii_alpha_exec(s[i + 2]) {
                proof {
                    lemma_find_char_from_at_or_after(s@, '>', i + 2);
                }
                match find_char_from_exec(s, '>', i + 2) {
                    None => {
                        return true;
                    },
                    Some(k) => {
                        i = k + 1;
                    },
                }
            } else {
                let e = name_end_exec(s, i + 2);
                if e >= s.len() {
                    return true;
                }
                let n = tag_name_exec(s, i + 2, e);
                if refused_exec(n.as_slice()) {
                    return false;
                }
                match attrs_end_exec(s, e) {
                    None => {
                        return true;
                    },
                    Some(k) => {
                        pop_to_exec(&mut stack, n.as_slice());
                        i = k + 1;
                    },
                }
            }
        } else {
            i = i + 1;
        }
    }
    true
}

} // verus!
