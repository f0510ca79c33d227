//! Character-sequence primitives shared by every parser and formatter of the
//! library. Strings are modelled by their view, a `Seq<char>`; each exec
//! function here is proved against a short spec function of the same name
//! with a `spec_`-free, `_spec` suffix.
use vstd::prelude::*;

verus! {

// ───────────────────────── std wrappers ─────────────────────────

/// Appends one character to a string (std `String::push`).
#[verifier::external_body]
pub(crate) fn push_char(s: &mut String, c: char)
    ensures
        final(s)@ == old(s)@.push(c),
{
    s.push(c);
}

/// Appends a string slice to a string (std `String::push_str`).
#[verifier::external_body]
pub(crate) fn push_str(s: &mut String, t: &str)
    ensures
        final(s)@ == old(s)@ + t@,
{
    s.push_str(t);
}

// ───────────────────────── conversions ─────────────────────────

/// Collects the characters of a string slice into a vector.
pub fn to_chars(s: &str) -> (r: Vec<char>)
    ensures
        r@ == s@,
{
    let mut r: Vec<char> = Vec::new();
    for c in it: s.chars()
        invariant
            r@ == it.seq().take(it.index() as int),
            it.seq() == s@,
    {
        r.push(c);
    }
    r
}

/// Builds a string from a slice of characters.
pub fn from_chars(v: &[char]) -> (r: String)
    ensures
        r@ == v@,
{
    let mut r = String::new();
    let mut i: usize = 0;
    while i < v.len()
        invariant
            i <= v.len(),
            r@ == v@.take(i as int),
        decreases v.len() - i,
    {
        push_char(&mut r, v[i]);
        i = i + 1;
        assert(v@.take(i as int) =~= v@.take(i - 1 as int).push(v@[i - 1]));
    }
    assert(v@.take(v.len() as int) =~= v@);
    r
}

/// Appends a slice of characters to a string.
pub fn push_chars(s: &mut String, v: &[char])
    ensures
        final(s)@ == old(s)@ + v@,
{
    let mut i: usize = 0;
    while i < v.len()
        invariant
            i <= v.len(),
            s@ == old(s)@ + v@.take(i as int),
        decreases v.len() - i,
    {
        push_char(s, v[i]);
        i = i + 1;
        assert(v@.take(i as int) =~= v@.take(i - 1 as int).push(v@[i - 1]));
    }
    assert(v@.take(v.len() as int) =~= v@);
}

/// Appends a slice of characters to a vector of characters.
pub fn extend_chars(out: &mut Vec<char>, v: &[char])
    ensures
        final(out)@ == old(out)@ + v@,
{
    let mut i: usize = 0;
    while i < v.len()
        invariant
            i <= v.len(),
            out@ == old(out)@ + v@.take(i as int),
        decreases v.len() - i,
    {
        out.push(v[i]);
        i = i + 1;
        assert(v@.take(i as int) =~= v@.take(i - 1 as int).push(v@[i - 1]));
    }
    assert(v@.take(v.len() as int) =~= v@);
}

/// `pre`, then `mid`, then `post`.
pub fn surround(pre: &str, mid: &[char], post: &str) -> (r: Vec<char>)
    ensures
        r@ == pre@ + mid@ + post@,
{
    let mut r = to_chars(pre);
    extend_chars(&mut r, mid);
    let p = to_chars(post);
    extend_chars(&mut r, p.as_slice());
    r
}

/// Copies a sub-range of a slice into a new vector.
pub fn slice_vec(v: &[char], start: usize, end: usize) -> (r: Vec<char>)
    requires
        start <= end <= v.len(),
    ensures
        r@ == v@.subrange(start as int, end as int),
{
    let mut r: Vec<char> = Vec::new();
    let mut i: usize = start;
    while i < end
        invariant
            start <= i <= end <= v.len(),
            r@ == v@.subrange(start as int, i as int),
        decreases end - i,
    {
        r.push(v[i]);
        i = i + 1;
        assert(v@.subrange(start as int, i as int) =~= v@.subrange(start as int, i - 1 as int).push(v@[i - 1]));
    }
    r
}

// ───────────────────────── whitespace and trimming ─────────────────────────

/// Unicode `White_Space`, the property that std's `char::is_whitespace`
/// and `str::trim` use.
pub open spec fn is_ws(c: char) -> bool {
    let n = c as u32;
    (0x09 <= n <= 0x0d) || n == 0x20 || n == 0x85 || n == 0xa0 || n == 0x1680 || (0x2000 <= n
        <= 0x200a) || n == 0x2028 || n == 0x2029 || n == 0x202f || n == 0x205f || n == 0x3000
}

/// Decides `is_ws`.
pub fn is_whitespace(c: char) -> (b: bool)
    ensures
        b == is_ws(c),
{
    let n = c as u32;
    (0x09 <= n && n <= 0x0d) || n == 0x20 || n == 0x85 || n == 0xa0 || n == 0x1680 || (0x2000
        <= n && n <= 0x200a) || n == 0x2028 || n == 0x2029 || n == 0x202f || n == 0x205f || n
        == 0x3000
}

/// `s` without its leading whitespace.
pub open spec fn trim_start_spec(s: Seq<char>) -> Seq<char>
    decreases s.len(),
{
    if s.len() > 0 && is_ws(s[0]) {
        trim_start_spec(s.drop_first())
    } else {
        s
    }
}

/// `s` without its trailing whitespace.
pub open spec fn trim_end_spec(s: Seq<char>) -> Seq<char>
    decreases s.len(),
{
    if s.len() > 0 && is_ws(s.last()) {
        trim_end_spec(s.drop_last())
    } else {
        s
    }
}

/// `s` without leading and trailing whitespace (std `str::trim`).
pub open spec fn trim_spec(s: Seq<char>) -> Seq<char> {
    trim_end_spec(trim_start_spec(s))
}

/// Index of the first character after the leading whitespace.
pub fn trim_start_index(v: &[char]) -> (i: usize)
    ensures
        i <= v.len(),
        trim_start_spec(v@) == v@.skip(i as int),
{
    let mut i: usize = 0;
    assert(v@.skip(0) =~= v@);
    while i < v.len() && is_whitespace(v[i])
        invariant
            i <= v.len(),
            trim_start_spec(v@) == trim_start_spec(v@.skip(i as int)),
        decreases v.len() - i,
    {
        assert(v@.skip(i as int).drop_first() =~= v@.skip(i + 1 as int));
        i = i + 1;
    }
    i
}

/// Index just past the last character before the trailing whitespace,
/// searching no further left than `lo`.
pub fn trim_end_index(v: &[char], lo: usize) -> (j: usize)
    requires
        lo <= v.len(),
    ensures
        lo <= j <= v.len(),
        trim_end_spec(v@.subrange(lo as int, v.len() as int)) == v@.subrange(lo as int, j as int),
{
    let mut j: usize = v.len();
    while j > lo && is_whitespace(v[j - 1])
        invariant
            lo <= j <= v.len(),
            trim_end_spec(v@.subrange(lo as int, v.len() as int)) == trim_end_spec(
                v@.subrange(lo as int, j as int),
            ),
        decreases j,
    {
        assert(v@.subrange(lo as int, j as int).drop_last() =~= v@.subrange(
            lo as int,
            j - 1 as int,
        ));
        j = j - 1;
    }
    j
}

/// std `str::trim` on a character slice.
pub fn trim(v: &[char]) -> (r: Vec<char>)
    ensures
        r@ == trim_spec(v@),
{
    let i = trim_start_index(v);
    let j = trim_end_index(v, i);
    assert(v@.skip(i as int) =~= v@.subrange(i as int, v.len() as int));
    slice_vec(v, i, j)
}

/// std `str::trim_start` on a character slice.
pub fn trim_start(v: &[char]) -> (r: Vec<char>)
    ensures
        r@ == trim_start_spec(v@),
{
    let i = trim_start_index(v);
    assert(v@.skip(i as int) =~= v@.subrange(i as int, v.len() as int));
    slice_vec(v, i, v.len())
}

/// std `str::trim_end` on a character slice.
pub fn trim_end(v: &[char]) -> (r: Vec<char>)
    ensures
        r@ == trim_end_spec(v@),
{
    let j = trim_end_index(v, 0);
    assert(v@.subrange(0, v.len() as int) =~= v@);
    slice_vec(v, 0, j)
}

// ───────────────────────── matching ─────────────────────────

/// `p` occurs in `s` at index `i`.
pub open spec fn matches_at(s: Seq<char>, p: Seq<char>, i: int) -> bool {
    0 <= i && i + p.len() <= s.len() && s.subrange(i, i + p.len()) == p
}

/// std `str::starts_with`.
pub open spec fn starts_with_spec(s: Seq<char>, p: Seq<char>) -> bool {
    matches_at(s, p, 0)
}

/// std `str::ends_with`.
pub open spec fn ends_with_spec(s: Seq<char>, p: Seq<char>) -> bool {
    p.len() <= s.len() && matches_at(s, p, s.len() - p.len())
}

/// The first index at or after `i` where `p` occurs in `s`.
pub open spec fn find_from(s: Seq<char>, p: Seq<char>, i: int) -> Option<int>
    decreases s.len() + 1 - i,
{
    if i < 0 || i + p.len() > s.len() {
        None
    } else if matches_at(s, p, i) {
        Some(i)
    } else {
        find_from(s, p, i + 1)
    }
}

/// std `str::find` with a string pattern (as a character index).
pub open spec fn find_spec(s: Seq<char>, p: Seq<char>) -> Option<int> {
    find_from(s, p, 0)
}

/// std `str::contains` with a string pattern.
pub open spec fn contains_spec(s: Seq<char>, p: Seq<char>) -> bool {
    find_spec(s, p) is Some
}

/// Decides `matches_at`.
pub fn matches_at_exec(s: &[char], p: &[char], i: usize) -> (b: bool)
    ensures
        b == matches_at(s@, p@, i as int),
{
    if i > s.len() || p.len() > s.len() - i {
        return false;
    }
    let mut k: usize = 0;
    while k < p.len()
        invariant
            k <= p.len(),
            i + p.len() <= s.len(),
            s@.subrange(i as int, i + k) == p@.take(k as int),
        decreases p.len() - k,
    {
        if s[i + k] != p[k] {
            assert(s@.subrange(i as int, i + p.len())[k as int] != p@[k as int]);
            return false;
        }
        k = k + 1;
        assert(s@.subrange(i as int, i + k) =~= s@.subrange(i as int, i + k - 1).push(s@[i + k - 1]));
        assert(p@.take(k as int) =~= p@.take(k - 1).push(p@[k - 1]));
    }
    assert(p@.take(p.len() as int) =~= p@);
    true
}

/// std `str::starts_with` on character slices.
pub fn starts_with(s: &[char], p: &[char]) -> (b: bool)
    ensures
        b == starts_with_spec(s@, p@),
{
    matches_at_exec(s, p, 0)
}

/// std `str::ends_with` on character slices.
pub fn ends_with(s: &[char], p: &[char]) -> (b: bool)
    ensures
        b == ends_with_spec(s@, p@),
{
    if p.len() > s.len() {
        false
    } else {
        matches_at_exec(s, p, s.len() - p.len())
    }
}

/// std `str::find` on character slices, searching from index `from`.
pub fn find_from_exec(s: &[char], p: &[char], from: usize) -> (r: Option<usize>)
    ensures
        match r {
            Some(i) => find_from(s@, p@, from as int) == Some(i as int),
            None => find_from(s@, p@, from as int) is None,
        },
{
    let mut i: usize = from;
    while p.len() <= s.len() && i <= s.len() - p.len()
        invariant
            from <= i,
            find_from(s@, p@, from as int) == find_from(s@, p@, i as int),
        decreases s.len() + 1 - i,
    {
        if matches_at_exec(s, p, i) {
            return Some(i);
        }
        if p.len() == 0 {
            assert(s@.subrange(i as int, i as int) =~= p@);
        }
        i = i + 1;
    }
    None
}

/// std `str::find` on character slices.
pub fn find(s: &[char], p: &[char]) -> (r: Option<usize>)
    ensures
        match r {
            Some(i) => find_spec(s@, p@) == Some(i as int),
            None => find_spec(s@, p@) is None,
        },
{
    find_from_exec(s, p, 0)
}

/// std `str::contains` on character slices.
pub fn contains(s: &[char], p: &[char]) -> (b: bool)
    ensures
        b == contains_spec(s@, p@),
{
    find(s, p).is_some()
}

/// The first index at or after `i` holding the character `c`.
pub open spec fn find_char_from(s: Seq<char>, c: char, i: int) -> Option<int>
    decreases s.len() - i,
{
    if i < 0 || i >= s.len() {
        None
    } else if s[i] == c {
        Some(i)
    } else {
        find_char_from(s, c, i + 1)
    }
}

/// std `str::find` with a `char` pattern.
pub fn find_char_from_exec(s: &[char], c: char, from: usize) -> (r: Option<usize>)
    ensures
        match r {
            Some(i) => find_char_from(s@, c, from as int) == Some(i as int) && i < s.len(),
            None => find_char_from(s@, c, from as int) is None,
        },
{
    let mut i: usize = from;
    while i < s.len()
        invariant
            from <= i,
            find_char_from(s@, c, from as int) == find_char_from(s@, c, i as int),
        decreases s.len() - i,
    {
        if s[i] == c {
            return Some(i);
        }
        i = i + 1;
    }
    None
}


/// Every occurrence of the character `from` in `s` replaced by `to`
/// (std `str::replace` with character patterns).
pub open spec fn replace_char_spec(s: Seq<char>, from: char, to: char) -> Seq<char> {
    s.map_values(|c: char| if c == from { to } else { c })
}

/// std `str::replace` with a character pattern and a one-character replacement.
pub fn replace_char(s: &[char], from: char, to: char) -> (r: Vec<char>)
    ensures
        r@ == replace_char_spec(s@, from, to),
{
    let mut r: Vec<char> = Vec::new();
    let mut i: usize = 0;
    while i < s.len()
        invariant
            i <= s.len(),
            r@ == replace_char_spec(s@.take(i as int), from, to),
        decreases s.len() - i,
    {
        let c = s[i];
        r.push(if c == from { to } else { c });
        i = i + 1;
        assert(replace_char_spec(s@.take(i as int), from, to) =~= replace_char_spec(
            s@.take(i - 1 as int),
            from,
            to,
        ).push(if c == from { to } else { c }));
    }
    assert(s@.take(s.len() as int) =~= s@);
    r
}

/// Left-to-right, non-overlapping replacement of the non-empty pattern `f`
/// by `t`, from index `i` on.
pub open spec fn replace_from(s: Seq<char>, f: Seq<char>, t: Seq<char>, i: int) -> Seq<char>
    decreases s.len() - i,
{
    if i < 0 || i >= s.len() || f.len() == 0 {
        s.skip(i)
    } else if matches_at(s, f, i) {
        t + replace_from(s, f, t, i + f.len())
    } else {
        seq![s[i]] + replace_from(s, f, t, i + 1)
    }
}

/// std `str::replace` with a non-empty string pattern.
pub open spec fn replace_spec(s: Seq<char>, f: Seq<char>, t: Seq<char>) -> Seq<char> {
    replace_from(s, f, t, 0)
}

/// std `str::replace` with a non-empty string pattern, on character slices.
pub(crate) fn replace(s: &[char], f: &[char], t: &[char]) -> (r: Vec<char>)
    requires
        f.len() > 0,
    ensures
        r@ == replace_spec(s@, f@, t@),
{
    let mut r: Vec<char> = Vec::new();
    let mut i: usize = 0;
    while i < s.len()
        invariant
            i <= s.len(),
            f.len() > 0,
            r@ + replace_from(s@, f@, t@, i as int) == replace_spec(s@, f@, t@),
        decreases s.len() - i,
    {
        if matches_at_exec(s, f, i) {
            let ghost prev = r@;
            extend_chars(&mut r, t);
            assert(prev + replace_from(s@, f@, t@, i as int) =~= r@ + replace_from(
                s@,
                f@,
                t@,
                i + f.len(),
            ));
            i = i + f.len();
        } else {
            let ghost prev = r@;
            r.push(s[i]);
            assert(prev + replace_from(s@, f@, t@, i as int) =~= r@ + replace_from(s@, f@, t@, i + 1));
            i = i + 1;
        }
    }
    assert(replace_from(s@, f@, t@, i as int) =~= Seq::<char>::empty());
    assert(r@ + Seq::<char>::empty() =~= r@);
    r
}


// ───────────────────────── splitting and joining ─────────────────────────

/// The character sequences held by a sequence of character vectors.
pub open spec fn views(v: Seq<Vec<char>>) -> Seq<Seq<char>> {
    v.map_values(|x: Vec<char>| x@)
}

/// The pieces of `s` from index `start` on, split at every `c`
/// (std `str::split` with a character pattern).
pub open spec fn split_from(s: Seq<char>, c: char, start: int) -> Seq<Seq<char>>
    decreases s.len() + 1 - start,
{
    if start < 0 || start > s.len() {
        seq![]
    } else {
        match find_char_from(s, c, start) {
            None => seq![s.subrange(start, s.len() as int)],
            Some(i) => if start <= i < s.len() {
                seq![s.subrange(start, i)] + split_from(s, c, i + 1)
            } else {
                seq![]
            },
        }
    }
}

/// std `str::split` with a character pattern.
pub open spec fn split_spec(s: Seq<char>, c: char) -> Seq<Seq<char>> {
    split_from(s, c, 0)
}

/// `find_char_from` answers with an index in range at or after the start.
pub proof fn lemma_find_char_from_bounds(s: Seq<char>, c: char, i: int)
    requires
        0 <= i,
    ensures
        find_char_from(s, c, i) matches Some(j) ==> i <= j < s.len() && s[j] == c,
        find_char_from(s, c, i) is None ==> forall|k: int| i <= k < s.len() ==> s[k] != c,
    decreases s.len() - i,
{
    if 0 <= i < s.len() && s[i] != c {
        lemma_find_char_from_bounds(s, c, i + 1);
    }
}

/// std `str::split` with a character pattern, on a character slice.
pub fn split_char(s: &[char], c: char) -> (r: Vec<Vec<char>>)
    ensures
        views(r@) == split_spec(s@, c),
{
    let mut r: Vec<Vec<char>> = Vec::new();
    let mut start: usize = 0;
    loop
        invariant
            start <= s.len(),
            views(r@) + split_from(s@, c, start as int) == split_spec(s@, c),
        decreases s.len() - start,
    {
        let ghost prev = views(r@);
        proof {
            lemma_find_char_from_bounds(s@, c, start as int);
        }
        match find_char_from_exec(s, c, start) {
            None => {
                r.push(slice_vec(s, start, s.len()));
                assert(views(r@) =~= prev + split_from(s@, c, start as int));
                return r;
            },
            Some(i) => {
                r.push(slice_vec(s, start, i));
                assert(prev + split_from(s@, c, start as int) =~= views(r@) + split_from(
                    s@,
                    c,
                    i + 1,
                ));
                start = i + 1;
            },
        }
    }
}

/// std `str::split_once` with a character pattern.
pub open spec fn split_once_spec(s: Seq<char>, c: char) -> Option<(Seq<char>, Seq<char>)> {
    match find_char_from(s, c, 0) {
        None => None,
        Some(i) => Some((s.take(i), s.skip(i + 1))),
    }
}

/// std `str::split_once` with a character pattern, on a character slice.
pub fn split_once_char(s: &[char], c: char) -> (r: Option<(Vec<char>, Vec<char>)>)
    ensures
        match r {
            None => split_once_spec(s@, c) is None,
            Some((a, b)) => split_once_spec(s@, c) == Some((a@, b@)),
        },
{
    proof {
        lemma_find_char_from_bounds(s@, c, 0);
    }
    match find_char_from_exec(s, c, 0) {
        None => None,
        Some(i) => {
            let a = slice_vec(s, 0, i);
            let b = slice_vec(s, i + 1, s.len());
            assert(a@ =~= s@.take(i as int));
            assert(b@ =~= s@.skip(i + 1));
            Some((a, b))
        },
    }
}

/// A line without its `\r` terminator half, as std `str::lines` strips it.
pub open spec fn strip_cr(l: Seq<char>) -> Seq<char> {
    if l.len() > 0 && l.last() == '\r' {
        l.drop_last()
    } else {
        l
    }
}

/// The lines of `s` from index `start` on (std `str::lines`): pieces ended by
/// `\n`, with a `\r` before the `\n` removed and no empty piece after a
/// final `\n`.
pub open spec fn lines_from(s: Seq<char>, start: int) -> Seq<Seq<char>>
    decreases s.len() - start,
{
    if start < 0 || start >= s.len() {
        seq![]
    } else {
        match find_char_from(s, '\n', start) {
            None => seq![s.subrange(start, s.len() as int)],
            Some(i) => if start <= i < s.len() {
                seq![strip_cr(s.subrange(start, i))] + lines_from(s, i + 1)
            } else {
                seq![]
            },
        }
    }
}

/// std `str::lines`.
pub open spec fn lines_spec(s: Seq<char>) -> Seq<Seq<char>> {
    lines_from(s, 0)
}

/// std `str::lines` on a character slice.
pub fn lines(s: &[char]) -> (r: Vec<Vec<char>>)
    ensures
        views(r@) == lines_spec(s@),
{
    let mut r: Vec<Vec<char>> = Vec::new();
    let mut start: usize = 0;
    while start < s.len()
        invariant
            start <= s.len(),
            views(r@) + lines_from(s@, start as int) == lines_spec(s@),
        decreases s.len() - start,
    {
        let ghost prev = views(r@);
        proof {
            lemma_find_char_from_bounds(s@, '\n', start as int);
        }
        match find_char_from_exec(s, '\n', start) {
            None => {
                r.push(slice_vec(s, start, s.len()));
                assert(views(r@) =~= prev + lines_from(s@, start as int));
                assert(lines_from(s@, s.len() as int) =~= Seq::<Seq<char>>::empty());
                start = s.len();
            },
            Some(i) => {
                let mut end = i;
                if end > start && s[end - 1] == '\r' {
                    end = end - 1;
                }
                r.push(slice_vec(s, start, end));
                assert(strip_cr(s@.subrange(start as int, i as int)) =~= s@.subrange(
                    start as int,
                    end as int,
                ));
                assert(prev + lines_from(s@, start as int) =~= views(r@) + lines_from(
                    s@,
                    i + 1,
                ));
                start = i + 1;
            },
        }
    }
    assert(views(r@) + lines_from(s@, start as int) =~= views(r@));
    r
}

/// The pieces joined with `sep` between consecutive pieces (std `join`).
pub open spec fn join_spec(parts: Seq<Seq<char>>, sep: Seq<char>) -> Seq<char>
    decreases parts.len(),
{
    if parts.len() == 0 {
        seq![]
    } else if parts.len() == 1 {
        parts[0]
    } else {
        join_spec(parts.drop_last(), sep) + sep + parts.last()
    }
}

/// std `[String]::join` on vectors of characters.
pub fn join(parts: &Vec<Vec<char>>, sep: &[char]) -> (r: Vec<char>)
    ensures
        r@ == join_spec(views(parts@), sep@),
{
    let mut r: Vec<char> = Vec::new();
    let mut i: usize = 0;
    while i < parts.len()
        invariant
            i <= parts.len(),
            r@ == join_spec(views(parts@).take(i as int), sep@),
        decreases parts.len() - i,
    {
        if i > 0 {
            extend_chars(&mut r, sep);
        }
        extend_chars(&mut r, parts[i].as_slice());
        i = i + 1;
        assert(views(parts@).take(i as int).drop_last() =~= views(parts@).take(i - 1));
        assert(views(parts@)[i - 1] == parts[i - 1]@);
    }
    assert(views(parts@).take(parts.len() as int) =~= views(parts@));
    r
}

// ───────────────────────── counting ─────────────────────────

/// The number of non-overlapping occurrences of the non-empty `p` in `s`
/// from index `i` on, scanning left to right.
pub open spec fn count_from(s: Seq<char>, p: Seq<char>, i: int) -> nat
    decreases s.len() - i,
{
    if i < 0 || i >= s.len() || p.len() == 0 {
        0
    } else if matches_at(s, p, i) {
        1 + count_from(s, p, i + p.len())
    } else {
        count_from(s, p, i + 1)
    }
}

/// std `str::matches(p).count()` with a non-empty string pattern.
pub open spec fn count_matches_spec(s: Seq<char>, p: Seq<char>) -> nat {
    count_from(s, p, 0)
}

/// std `str::matches(p).count()` with a non-empty string pattern.
pub(crate) fn count_matches(s: &[char], p: &[char]) -> (n: usize)
    requires
        p.len() > 0,
    ensures
        n == count_matches_spec(s@, p@),
{
    let mut n: usize = 0;
    let mut i: usize = 0;
    while i < s.len()
        invariant
            i <= s.len(),
            p.len() > 0,
            n <= i,
            n + count_from(s@, p@, i as int) == count_matches_spec(s@, p@),
        decreases s.len() - i,
    {
        if matches_at_exec(s, p, i) {
            n = n + 1;
            i = i + p.len();
        } else {
            i = i + 1;
        }
    }
    n
}

// ───────────────────────── case and numbers ─────────────────────────

/// What std `str::to_lowercase` returns for `s` (Unicode lower-case mapping).
pub uninterp spec fn lowercase(s: Seq<char>) -> Seq<char>;

/// Whether every character of a text is ASCII.
pub open spec fn is_ascii_text(s: Seq<char>) -> bool {
    forall|i: int| 0 <= i < s.len() ==> (#[trigger] s[i] as u32) < 128
}

/// The ASCII lower-case of a character: `A`..`Z` become `a`..`z`, every
/// other character stays.
pub open spec fn ascii_lower(c: char) -> char {
    if 65 <= (c as u32) <= 90 {
        ((c as u32) + 32) as char
    } else {
        c
    }
}

/// std `str::to_lowercase`: the Unicode lower-case mapping of every character.
/// The contract names its result; of ASCII text it states what std
/// documents, that each character is lowered on its own (`A`..`Z` to
/// `a`..`z`). Non-ASCII mapping is left to the name: it follows Unicode
/// tables and, for the final sigma, the character's context.
#[verifier::external_body]
pub(crate) fn to_lowercase(s: &str) -> (r: String)
    ensures
        r@ == lowercase(s@),
        is_ascii_text(s@) ==> r@ == s@.map_values(|c: char| ascii_lower(c)),
{
    s.to_lowercase()
}

/// The decimal digit character for `d < 10`.
pub open spec fn digit_char(d: nat) -> char {
    if d == 0 { '0' }
    else if d == 1 { '1' }
    else if d == 2 { '2' }
    else if d == 3 { '3' }
    else if d == 4 { '4' }
    else if d == 5 { '5' }
    else if d == 6 { '6' }
    else if d == 7 { '7' }
    else if d == 8 { '8' }
    else { '9' }
}

/// The decimal representation of `n` without leading zeros (std `Display`
/// of an unsigned integer).
pub open spec fn decimal_spec(n: nat) -> Seq<char>
    decreases n,
{
    if n < 10 {
        seq![digit_char(n)]
    } else {
        decimal_spec(n / 10).push(digit_char(n % 10))
    }
}

fn digit(d: u64) -> (c: char)
    requires
        d < 10,
    ensures
        c == digit_char(d as nat),
{
    if d == 0 { '0' }
    else if d == 1 { '1' }
    else if d == 2 { '2' }
    else if d == 3 { '3' }
    else if d == 4 { '4' }
    else if d == 5 { '5' }
    else if d == 6 { '6' }
    else if d == 7 { '7' }
    else if d == 8 { '8' }
    else { '9' }
}

/// The decimal representation of an unsigned integer.
pub fn decimal(n: u64) -> (r: Vec<char>)
    ensures
        r@ == decimal_spec(n as nat),
    decreases n,
{
    if n < 10 {
        let mut r: Vec<char> = Vec::new();
        r.push(digit(n));
        assert(r@ =~= seq![digit_char(n as nat)]);
        r
    } else {
        let mut r = decimal(n / 10);
        r.push(digit(n % 10));
        r
    }
}

/// The decimal representation of a signed integer (std `Display` of an
/// integer: a `-` before the digits of a negative value).
pub open spec fn signed_decimal_spec(n: int) -> Seq<char> {
    if n < 0 {
        seq!['-'] + decimal_spec((-n) as nat)
    } else {
        decimal_spec(n as nat)
    }
}

/// The decimal representation of an `i32`.
pub fn signed_decimal(n: i32) -> (r: Vec<char>)
    ensures
        r@ == signed_decimal_spec(n as int),
{
    let w = n as i64;
    if w < 0 {
        let mut r: Vec<char> = Vec::new();
        r.push('-');
        let d = decimal((-w) as u64);
        extend_chars(&mut r, d.as_slice());
        assert(r@ =~= seq!['-'] + d@);
        r
    } else {
        decimal(w as u64)
    }
}


// ───────────────────────── character-pattern trimming ─────────────────────────

/// `s` without leading copies of `c` (std `str::trim_start_matches` with a
/// character pattern).
pub open spec fn trim_start_char_spec(s: Seq<char>, c: char) -> Seq<char>
    decreases s.len(),
{
    if s.len() > 0 && s[0] == c {
        trim_start_char_spec(s.drop_first(), c)
    } else {
        s
    }
}

/// `s` without trailing copies of `c` (std `str::trim_end_matches` with a
/// character pattern).
pub open spec fn trim_end_char_spec(s: Seq<char>, c: char) -> Seq<char>
    decreases s.len(),
{
    if s.len() > 0 && s.last() == c {
        trim_end_char_spec(s.drop_last(), c)
    } else {
        s
    }
}

/// std `str::trim_matches` with a character pattern.
pub open spec fn trim_char_spec(s: Seq<char>, c: char) -> Seq<char> {
    trim_end_char_spec(trim_start_char_spec(s, c), c)
}

/// std `str::trim_start_matches` with a character pattern.
pub fn trim_start_char(v: &[char], c: char) -> (r: Vec<char>)
    ensures
        r@ == trim_start_char_spec(v@, c),
{
    let mut i: usize = 0;
    assert(v@.skip(0) =~= v@);
    while i < v.len() && v[i] == c
        invariant
            i <= v.len(),
            trim_start_char_spec(v@, c) == trim_start_char_spec(v@.skip(i as int), c),
        decreases v.len() - i,
    {
        assert(v@.skip(i as int).drop_first() =~= v@.skip(i + 1 as int));
        i = i + 1;
    }
    assert(v@.skip(i as int) =~= v@.subrange(i as int, v.len() as int));
    slice_vec(v, i, v.len())
}

/// std `str::trim_end_matches` with a character pattern.
pub fn trim_end_char(v: &[char], c: char) -> (r: Vec<char>)
    ensures
        r@ == trim_end_char_spec(v@, c),
{
    let mut j: usize = v.len();
    assert(v@.subrange(0, v.len() as int) =~= v@);
    while j > 0 && v[j - 1] == c
        invariant
            j <= v.len(),
            trim_end_char_spec(v@, c) == trim_end_char_spec(v@.subrange(0, j as int), c),
        decreases j,
    {
        assert(v@.subrange(0, j as int).drop_last() =~= v@.subrange(0, j - 1 as int));
        j = j - 1;
    }
    slice_vec(v, 0, j)
}

/// std `str::trim_matches` with a character pattern.
pub fn trim_char(v: &[char], c: char) -> (r: Vec<char>)
    ensures
        r@ == trim_char_spec(v@, c),
{
    let a = trim_start_char(v, c);
    trim_end_char(a.as_slice(), c)
}

/// Equality of two character slices.
pub fn eq_chars(a: &[char], b: &[char]) -> (r: bool)
    ensures
        r == (a@ == b@),
{
    if a.len() != b.len() {
        return false;
    }
    let r = matches_at_exec(a, b, 0);
    assert(a@.subrange(0, b.len() as int) =~= a@);
    r
}


/// `find_from` answers with an index at or after the start where the
/// pattern occurs.
pub proof fn lemma_find_from_bounds(s: Seq<char>, p: Seq<char>, i: int)
    requires
        0 <= i,
    ensures
        find_from(s, p, i) matches Some(j) ==> i <= j && j + p.len() <= s.len() && matches_at(
            s,
            p,
            j,
        ),
    decreases s.len() + 1 - i,
{
    if i + p.len() <= s.len() && !matches_at(s, p, i) {
        lemma_find_from_bounds(s, p, i + 1);
    }
}


/// What std's `char::is_alphanumeric` says of a character (Unicode
/// `Alphabetic` or `Numeric`).
pub uninterp spec fn is_alnum(c: char) -> bool;

/// std `char::is_alphanumeric`. The contract names its result.
#[verifier::external_body]
pub(crate) fn is_alphanumeric(c: char) -> (b: bool)
    ensures
        b == is_alnum(c),
{
    c.is_alphanumeric()
}

/// Replacing a pattern by a shorter text from index `i` on never makes the
/// rest longer, and makes it shorter where the pattern occurs.
pub proof fn lemma_replace_from_len(s: Seq<char>, f: Seq<char>, t: Seq<char>, i: int)
    requires
        0 <= i,
        f.len() > t.len(),
    ensures
        i <= s.len() ==> replace_from(s, f, t, i).len() <= s.len() - i,
        i <= s.len() && find_from(s, f, i) is Some ==> replace_from(s, f, t, i).len() < s.len() - i,
    decreases s.len() - i,
{
    if i < s.len() {
        if matches_at(s, f, i) {
            lemma_replace_from_len(s, f, t, i + f.len());
        } else {
            lemma_replace_from_len(s, f, t, i + 1);
        }
    }
}

/// Replacing an occurring pattern by a shorter text makes the text shorter.
pub proof fn lemma_replace_shrinks(s: Seq<char>, f: Seq<char>, t: Seq<char>)
    requires
        f.len() > t.len(),
        contains_spec(s, f),
    ensures
        replace_spec(s, f, t).len() < s.len(),
{
    lemma_replace_from_len(s, f, t, 0);
}


// ───────────────────────── facts about trimming and searching ─────────────────────────

/// Trimming the start drops a prefix.
pub proof fn lemma_trim_start_offset(s: Seq<char>) -> (k: int)
    ensures
        0 <= k <= s.len(),
        trim_start_spec(s) == s.skip(k),
    decreases s.len(),
{
    if s.len() > 0 && is_ws(s[0]) {
        let k = lemma_trim_start_offset(s.drop_first());
        assert(s.drop_first().skip(k) =~= s.skip(k + 1));
        k + 1
    } else {
        assert(s.skip(0) =~= s);
        0
    }
}

/// Trimming the end keeps a prefix.
pub proof fn lemma_trim_end_length(s: Seq<char>) -> (k: int)
    ensures
        0 <= k <= s.len(),
        trim_end_spec(s) == s.take(k),
    decreases s.len(),
{
    if s.len() > 0 && is_ws(s.last()) {
        let k = lemma_trim_end_length(s.drop_last());
        assert(s.drop_last().take(k) =~= s.take(k));
        k
    } else {
        assert(s.take(s.len() as int) =~= s);
        s.len() as int
    }
}

/// Trimming keeps a contiguous part.
pub proof fn lemma_trim_subrange(s: Seq<char>) -> (r: (int, int))
    ensures
        0 <= r.0 <= r.1 <= s.len(),
        trim_spec(s) == s.subrange(r.0, r.1),
{
    let a = lemma_trim_start_offset(s);
    let b = lemma_trim_end_length(s.skip(a));
    assert(s.skip(a).take(b) =~= s.subrange(a, a + b));
    (a, a + b)
}

/// A pattern found from `i` on where it occurs at `j >= i`.
pub proof fn lemma_find_from_complete(s: Seq<char>, p: Seq<char>, i: int, j: int)
    requires
        0 <= i <= j,
        matches_at(s, p, j),
    ensures
        find_from(s, p, i) is Some,
    decreases j - i,
{
    if i < j && !matches_at(s, p, i) {
        lemma_find_from_complete(s, p, i + 1, j);
    }
}

/// What occurs in a part of a text occurs in the text.
pub proof fn lemma_contains_subrange(s: Seq<char>, a: int, b: int, p: Seq<char>)
    requires
        0 <= a <= b <= s.len(),
        contains_spec(s.subrange(a, b), p),
    ensures
        contains_spec(s, p),
{
    let t = s.subrange(a, b);
    lemma_find_from_bounds(t, p, 0);
    let j = find_from(t, p, 0)->Some_0;
    assert(t.subrange(j, j + p.len()) =~= s.subrange(a + j, a + j + p.len()));
    lemma_find_from_complete(s, p, 0, a + j);
}

/// What occurs in the trimmed text occurs in the text.
pub proof fn lemma_contains_trim(s: Seq<char>, p: Seq<char>)
    requires
        contains_spec(trim_spec(s), p),
    ensures
        contains_spec(s, p),
{
    let (a, b) = lemma_trim_subrange(s);
    lemma_contains_subrange(s, a, b, p);
}

/// Replacing every single character `x` by a text whose characters all
/// have a property leaves only characters with the property, where every
/// other character had it.
pub proof fn lemma_replace_char_keeps(
    s: Seq<char>,
    x: char,
    t: Seq<char>,
    i: int,
    prop: spec_fn(char) -> bool,
)
    requires
        0 <= i <= s.len(),
        forall|k: int| 0 <= k < t.len() ==> prop(#[trigger] t[k]),
        forall|k: int| 0 <= k < s.len() ==> (#[trigger] s[k]) == x || prop(s[k]),
    ensures
        forall|k: int|
            0 <= k < replace_from(s, seq![x], t, i).len() ==> prop(
                #[trigger] replace_from(s, seq![x], t, i)[k],
            ),
    decreases s.len() - i,
{
    let f = seq![x];
    let r = replace_from(s, f, t, i);
    if i >= s.len() {
        assert(r =~= Seq::<char>::empty());
    } else if matches_at(s, f, i) {
        lemma_replace_char_keeps(s, x, t, i + 1, prop);
        let rest = replace_from(s, f, t, i + 1);
        assert forall|k: int| 0 <= k < r.len() implies prop(#[trigger] r[k]) by {
            if k < t.len() {
                assert(r[k] == t[k]);
            } else {
                assert(r[k] == rest[k - t.len()]);
            }
        }
    } else {
        lemma_replace_char_keeps(s, x, t, i + 1, prop);
        let rest = replace_from(s, f, t, i + 1);
        assert(s.subrange(i, i + 1) =~= seq![s[i]]);
        assert(s[i] != x);
        assert forall|k: int| 0 <= k < r.len() implies prop(#[trigger] r[k]) by {
            if k == 0 {
                assert(r[0] == s[i]);
            } else {
                assert(r[k] == rest[k - 1]);
            }
        }
    }
}

} // verus!
