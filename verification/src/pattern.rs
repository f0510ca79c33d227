//! Regular-expression replacement. The `regex` crate finds the matches; the
//! library splices the replacements in, so what a replacement produces is
//! proved here and only the matching itself is trusted.
use vstd::prelude::*;
use crate::text::{extend_chars, push_str, to_chars, from_chars};

verus! {

/// Whether `regex::Regex::new` accepts the pattern.
pub uninterp spec fn regex_compiles(pattern: Seq<char>) -> bool;

/// What `Regex::split` yields for a compiled pattern: the text between
/// successive non-overlapping matches (one piece more than matches).
pub uninterp spec fn regex_split(pattern: Seq<char>, input: Seq<char>) -> Seq<Seq<char>>;

/// What `Regex::captures_iter` yields for a compiled pattern: for each
/// successive non-overlapping match, its groups (group 0 is the whole match;
/// a group that did not take part is `None`).
pub uninterp spec fn regex_captures(pattern: Seq<char>, input: Seq<char>) -> Seq<
    Seq<Option<Seq<char>>>,
>;

/// The pieces with a replacement between each two of them:
/// `gaps[0] + reps[0] + gaps[1] + ... + reps[n-1] + gaps[n]`.
pub open spec fn splice(gaps: Seq<Seq<char>>, reps: Seq<Seq<char>>) -> Seq<char>
    decreases reps.len(),
{
    if gaps.len() == 0 {
        seq![]
    } else if reps.len() == 0 || gaps.len() == 1 {
        gaps[0]
    } else {
        splice(gaps.drop_last(), reps.drop_last()) + reps.last() + gaps.last()
    }
}

/// The text of group `i` of a match, empty where the group did not take
/// part or does not exist.
pub open spec fn group(c: Seq<Option<Seq<char>>>, i: int) -> Seq<char> {
    if 0 <= i < c.len() {
        match c[i] {
            Some(t) => t,
            None => seq![],
        }
    } else {
        seq![]
    }
}

/// The whole text of each match.
pub open spec fn whole_matches(caps: Seq<Seq<Option<Seq<char>>>>) -> Seq<Seq<char>> {
    caps.map_values(|c: Seq<Option<Seq<char>>>| group(c, 0))
}

/// A match with its groups.
pub type Groups = Vec<Option<String>>;

/// The groups of one match, as the contracts see them.
pub type Caps = Seq<Option<Seq<char>>>;

/// The view of a match's groups.
pub open spec fn groups_view(c: Groups) -> Seq<Option<Seq<char>>> {
    c@.map_values(|g: Option<String>| match g {
        Some(s) => Some(s@),
        None => None,
    })
}

/// The views of the matches.
pub open spec fn caps_view(c: Seq<Groups>) -> Seq<Seq<Option<Seq<char>>>> {
    c.map_values(|g: Groups| groups_view(g))
}

/// The views of strings.
pub open spec fn strings_view(v: Seq<String>) -> Seq<Seq<char>> {
    v.map_values(|s: String| s@)
}

/// Finds the matches of a regular expression (crate `regex`: `Regex::new`,
/// then `Regex::split` and `Regex::captures_iter` over the same input).
/// `None` exactly when the pattern does not compile. Otherwise the result is
/// the pieces between matches and the groups of each match; the contract
/// states what the crate documents of them: there is one piece more than
/// matches, each match has its whole text as group 0, and the pieces with
/// the matches between them give back the input.
#[verifier::external_body]
pub(crate) fn regex_scan(pattern: &str, input: &str) -> (r: Option<(Vec<String>, Vec<Groups>)>)
    ensures
        r is Some <==> regex_compiles(pattern@),
        r matches Some((gaps, caps)) ==> {
            &&& strings_view(gaps@) == regex_split(pattern@, input@)
            &&& caps_view(caps@) == regex_captures(pattern@, input@)
            &&& gaps@.len() == caps@.len() + 1
            &&& forall|k: int|
                0 <= k < caps@.len() ==> (#[trigger] caps@[k])@.len() >= 1 && caps@[k]@[0] is Some
            &&& splice(strings_view(gaps@), whole_matches(caps_view(caps@))) == input@
        },
{
    let re = regex::Regex::new(pattern).ok()?;
    let gaps = re.split(input).map(|s| s.to_string()).collect();
    let caps = re.captures_iter(input).map(
        |c| c.iter().map(|m| m.map(|m| m.as_str().to_string())).collect(),
    ).collect();
    Some((gaps, caps))
}

// ───────────────────────── templates ─────────────────────────

/// A piece of a replacement template: literal text, or the text of a group.
pub enum Piece {
    Lit(String),
    Group(usize),
}

/// A piece's text for a match.
pub open spec fn piece_text(p: Piece, c: Seq<Option<Seq<char>>>) -> Seq<char> {
    match p {
        Piece::Lit(s) => s@,
        Piece::Group(i) => group(c, i as int),
    }
}

/// A template's text for a match (as `$1`-style expansion gives it).
pub open spec fn expand(t: Seq<Piece>, c: Seq<Option<Seq<char>>>) -> Seq<char>
    decreases t.len(),
{
    if t.len() == 0 {
        seq![]
    } else {
        expand(t.drop_last(), c) + piece_text(t.last(), c)
    }
}

/// Every match of `pattern` in `input` replaced by what `f` gives for its
/// groups (`Regex::replace_all`); the input itself where the pattern does
/// not compile.
pub open spec fn replace_all_spec(
    pattern: Seq<char>,
    input: Seq<char>,
    f: spec_fn(Seq<Option<Seq<char>>>) -> Seq<char>,
) -> Seq<char> {
    if regex_compiles(pattern) {
        splice(regex_split(pattern, input), regex_captures(pattern, input).map_values(f))
    } else {
        input
    }
}

/// Every match replaced by a template (see `replace_all_spec`).
pub open spec fn replace_template_spec(
    pattern: Seq<char>,
    input: Seq<char>,
    t: Seq<Piece>,
) -> Seq<char> {
    replace_all_spec(pattern, input, |c: Seq<Option<Seq<char>>>| expand(t, c))
}

/// The text of a group of a match.
pub fn group_text(c: &Groups, i: usize) -> (r: Vec<char>)
    ensures
        r@ == group(groups_view(*c), i as int),
{
    if i < c.len() {
        match &c[i] {
            Some(s) => to_chars(s.as_str()),
            None => Vec::new(),
        }
    } else {
        Vec::new()
    }
}

/// A template's text for a match.
pub fn expand_exec(t: &Vec<Piece>, c: &Groups) -> (r: Vec<char>)
    ensures
        r@ == expand(t@, groups_view(*c)),
{
    let mut r: Vec<char> = Vec::new();
    let mut i: usize = 0;
    while i < t.len()
        invariant
            i <= t.len(),
            r@ == expand(t@.take(i as int), groups_view(*c)),
        decreases t.len() - i,
    {
        let piece = match &t[i] {
            Piece::Lit(s) => to_chars(s.as_str()),
            Piece::Group(g) => group_text(c, *g),
        };
        extend_chars(&mut r, piece.as_slice());
        i = i + 1;
        assert(t@.take(i as int).drop_last() =~= t@.take(i - 1));
    }
    assert(t@.take(t.len() as int) =~= t@);
    r
}

/// Splices replacements between the pieces.
pub fn splice_exec(gaps: &Vec<String>, reps: &Vec<Vec<char>>) -> (r: String)
    requires
        gaps@.len() == reps@.len() + 1,
    ensures
        r@ == splice(strings_view(gaps@), reps@.map_values(|v: Vec<char>| v@)),
{
    let mut r = String::new();
    push_str(&mut r, gaps[0].as_str());
    let mut i: usize = 0;
    proof {
        let g = strings_view(gaps@).take(1);
        assert(g.len() == 1);
        assert(r@ == splice(g, Seq::<Seq<char>>::empty()));
    }
    while i < reps.len()
        invariant
            i <= reps.len(),
            gaps@.len() == reps@.len() + 1,
            r@ == splice(
                strings_view(gaps@).take(i + 1),
                reps@.map_values(|v: Vec<char>| v@).take(i as int),
            ),
        decreases reps.len() - i,
    {
        crate::text::push_chars(&mut r, reps[i].as_slice());
        push_str(&mut r, gaps[i + 1].as_str());
        i = i + 1;
        proof {
            let g = strings_view(gaps@).take(i + 1);
            let m = reps@.map_values(|v: Vec<char>| v@).take(i as int);
            assert(g.drop_last() =~= strings_view(gaps@).take(i as int));
            assert(m.drop_last() =~= reps@.map_values(|v: Vec<char>| v@).take(i - 1));
        }
    }
    assert(strings_view(gaps@).take(reps.len() + 1) =~= strings_view(gaps@));
    assert(reps@.map_values(|v: Vec<char>| v@).take(reps.len() as int) =~= reps@.map_values(
        |v: Vec<char>| v@,
    ));
    r
}

/// A template of literal text only.
pub fn lit_template(s: &str) -> (t: Vec<Piece>)
    ensures
        t@.len() == 1,
        t@[0] is Lit,
        t@[0]->Lit_0@ == s@,
{
    let mut t: Vec<Piece> = Vec::new();
    t.push(Piece::Lit(s.to_owned()));
    t
}


/// Replaces every match of a regular expression by what `f` computes from
/// its groups (as `Regex::replace_all` with a closure does); `spec_f` states
/// what `f` computes.
pub fn replace_with<F: Fn(&Groups) -> Vec<char>>(
    pattern: &str,
    input: &str,
    f: F,
    Ghost(spec_f): Ghost<spec_fn(Seq<Option<Seq<char>>>) -> Seq<char>>,
) -> (r: String)
    requires
        forall|c: &Groups| #[trigger] f.requires((c,)),
        forall|c: &Groups, v: Vec<char>| f.ensures((c,), v) ==> v@ == spec_f(groups_view(*c)),
    ensures
        r@ == replace_all_spec(pattern@, input@, spec_f),
{
    match regex_scan(pattern, input) {
        None => from_chars(to_chars(input).as_slice()),
        Some((gaps, caps)) => {
            let mut reps: Vec<Vec<char>> = Vec::new();
            let mut i: usize = 0;
            while i < caps.len()
                invariant
                    i <= caps.len(),
                    forall|c: &Groups| #[trigger] f.requires((c,)),
                    forall|c: &Groups, v: Vec<char>| f.ensures((c,), v) ==> v@ == spec_f(groups_view(*c)),
                    reps@.map_values(|v: Vec<char>| v@) == caps_view(caps@).take(i as int).map_values(
                        spec_f,
                    ),
                decreases caps.len() - i,
            {
                let ghost prev = reps@.map_values(|v: Vec<char>| v@);
                let e = f(&caps[i]);
                reps.push(e);
                assert(caps_view(caps@)[i as int] == groups_view(caps@[i as int]));
                assert(reps@.map_values(|v: Vec<char>| v@) =~= prev.push(e@));
                i = i + 1;
                assert(reps@.map_values(|v: Vec<char>| v@) =~= caps_view(caps@).take(
                    i as int,
                ).map_values(spec_f));
            }
            assert(caps_view(caps@).take(caps.len() as int) =~= caps_view(caps@));
            let r = splice_exec(&gaps, &reps);
            assert(regex_captures(pattern@, input@).map_values(spec_f) =~= reps@.map_values(
                |v: Vec<char>| v@,
            ));
            r
        },
    }
}

/// Replaces every match of a regular expression by a template (as
/// `Regex::replace_all` with `$1`-style replacements does): see
/// `replace_template_spec`.
pub fn replace_template(pattern: &str, input: &str, t: &Vec<Piece>) -> (r: String)
    ensures
        r@ == replace_template_spec(pattern@, input@, t@),
{
    let f = |c: &Groups| -> (v: Vec<char>)
        ensures
            v@ == expand(t@, groups_view(*c)),
        { expand_exec(t, c) };
    replace_with(pattern, input, f, Ghost(|c: Seq<Option<Seq<char>>>| expand(t@, c)))
}


/// Replaces every match of a regular expression by a fixed text.
pub fn replace_lit(pattern: &str, input: &str, rep: &str) -> (r: String)
    ensures
        r@ == replace_all_spec(pattern@, input@, |c: Seq<Option<Seq<char>>>| rep@),
{
    let f = |c: &Groups| -> (v: Vec<char>)
        ensures
            v@ == rep@,
        { to_chars(rep) };
    replace_with(pattern, input, f, Ghost(|c: Seq<Option<Seq<char>>>| rep@))
}


/// The text from piece `j` on: the pieces from `j` with the whole matches
/// from `j` between them.
pub fn splice_from(gaps: &Vec<String>, caps: &Vec<Groups>, j: usize) -> (r: Vec<char>)
    requires
        gaps@.len() == caps@.len() + 1,
        j <= caps@.len(),
    ensures
        r@ == splice(
            strings_view(gaps@).skip(j as int),
            whole_matches(caps_view(caps@)).skip(j as int),
        ),
{
    let ghost g = strings_view(gaps@);
    let ghost w = whole_matches(caps_view(caps@));
    let mut r = to_chars(gaps[j].as_str());
    proof {
        assert(g.subrange(j as int, j + 1).len() == 1);
        assert(g.subrange(j as int, j + 1)[0] == g[j as int]);
    }
    let mut i: usize = j;
    while i < caps.len()
        invariant
            gaps@.len() == caps@.len() + 1,
            j <= i <= caps@.len(),
            g == strings_view(gaps@),
            w == whole_matches(caps_view(caps@)),
            r@ == splice(g.subrange(j as int, i + 1), w.subrange(j as int, i as int)),
        decreases caps.len() - i,
    {
        let m = group_text(&caps[i], 0);
        proof {
            assert(caps_view(caps@)[i as int] == groups_view(caps@[i as int]));
            assert(w[i as int] == m@);
        }
        extend_chars(&mut r, m.as_slice());
        let gi = to_chars(gaps[i + 1].as_str());
        extend_chars(&mut r, gi.as_slice());
        proof {
            let g2 = g.subrange(j as int, i + 2);
            let w2 = w.subrange(j as int, i + 1);
            assert(g2.drop_last() =~= g.subrange(j as int, i + 1));
            assert(w2.drop_last() =~= w.subrange(j as int, i as int));
            assert(g2.last() == gi@);
            assert(w2.last() == m@);
        }
        i = i + 1;
    }
    assert(g.subrange(j as int, caps.len() + 1) =~= g.skip(j as int));
    assert(w.subrange(j as int, caps.len() as int) =~= w.skip(j as int));
    r
}


/// A match replaced by `pre`, the text of group `i`, then `post` (the
/// template `pre$i post`).
pub open spec fn wrap_step(pre: Seq<char>, i: int, post: Seq<char>) -> spec_fn(
    Seq<Option<Seq<char>>>,
) -> Seq<char> {
    |c: Seq<Option<Seq<char>>>| pre + group(c, i) + post
}

/// Replaces every match by `pre`, group `i`, `post`: see `wrap_step`.
pub fn replace_wrap(pattern: &str, input: &str, pre: &str, i: usize, post: &str) -> (r: String)
    ensures
        r@ == replace_all_spec(pattern@, input@, wrap_step(pre@, i as int, post@)),
{
    let f = |c: &Groups| -> (v: Vec<char>)
        ensures
            v@ == (wrap_step(pre@, i as int, post@))(groups_view(*c)),
        {
            let mut v = to_chars(pre);
            extend_chars(&mut v, group_text(c, i).as_slice());
            extend_chars(&mut v, to_chars(post).as_slice());
            v
        };
    replace_with(pattern, input, f, Ghost(wrap_step(pre@, i as int, post@)))
}

/// A match replaced by a fixed text.
pub open spec fn const_step(t: Seq<char>) -> spec_fn(Seq<Option<Seq<char>>>) -> Seq<char> {
    |c: Seq<Option<Seq<char>>>| t
}

/// Replaces every match by a fixed text: see `const_step`.
pub fn replace_const(pattern: &str, input: &str, t: &str) -> (r: String)
    ensures
        r@ == replace_all_spec(pattern@, input@, const_step(t@)),
{
    let f = |c: &Groups| -> (v: Vec<char>)
        ensures
            v@ == (const_step(t@))(groups_view(*c)),
        { to_chars(t) };
    replace_with(pattern, input, f, Ghost(const_step(t@)))
}

/// A match replaced by `a`, group `i`, `b`, group `j`, `c` (the template
/// `a$i b$j c`).
pub open spec fn wrap2_step(
    a: Seq<char>,
    i: int,
    b: Seq<char>,
    j: int,
    c: Seq<char>,
) -> spec_fn(Seq<Option<Seq<char>>>) -> Seq<char> {
    |m: Seq<Option<Seq<char>>>| a + group(m, i) + b + group(m, j) + c
}

/// Replaces every match by `a`, group `i`, `b`, group `j`, `c`: see
/// `wrap2_step`.
pub fn replace_wrap2(
    pattern: &str,
    input: &str,
    a: &str,
    i: usize,
    b: &str,
    j: usize,
    c: &str,
) -> (r: String)
    ensures
        r@ == replace_all_spec(pattern@, input@, wrap2_step(a@, i as int, b@, j as int, c@)),
{
    let f = |m: &Groups| -> (v: Vec<char>)
        ensures
            v@ == (wrap2_step(a@, i as int, b@, j as int, c@))(groups_view(*m)),
        {
            let mut v = to_chars(a);
            extend_chars(&mut v, group_text(m, i).as_slice());
            extend_chars(&mut v, to_chars(b).as_slice());
            extend_chars(&mut v, group_text(m, j).as_slice());
            extend_chars(&mut v, to_chars(c).as_slice());
            v
        };
    replace_with(pattern, input, f, Ghost(wrap2_step(a@, i as int, b@, j as int, c@)))
}

} // verus!
