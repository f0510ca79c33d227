//! Laws of the assessment that compare whole reviews section by section:
//! relaxed weights never cost a section more than strict ones, and more
//! text never costs a section more (for any lower-casing that grows with
//! the text, and so for ASCII text, which std lower-cases character by
//! character).
use vstd::prelude::*;
use crate::prd::review::{
    acceptance_rule, background_rule, design_rule, event_tracking_rule, features_rule,
    figure_rule, general_rules_rule, lcmp_rule, metadata_rule, objectives_rule, opt_seq,
    related_prds_rule, review_spec, scope_rule, success_metrics_rule, tech_docs_rule,
    user_flows_rule, vague_rule, has, has_numbered_line, FindingModel, Severity,
};
use crate::text::{
    ascii_lower, contains_spec, find_char_from, is_ws, lines_from, lines_spec, lowercase, starts_with_spec, strip_cr, trim_end_spec,
    trim_spec, trim_start_spec,
};

verus! {

/// The points the findings charge to the named section.
pub open spec fn section_points(f: Seq<FindingModel>, name: Seq<char>) -> nat
    decreases f.len(),
{
    if f.len() == 0 {
        0
    } else {
        section_points(f.drop_last(), name) + if f.last().section == name {
            f.last().points as nat
        } else {
            0nat
        }
    }
}

/// A rule's outcome `a` charges the named section no more than `b` does:
/// where `a` is a finding of that section, so is `b`, with at least as
/// many points.
pub open spec fn lighter_for(a: Option<FindingModel>, b: Option<FindingModel>, name: Seq<char>) -> bool {
    match a {
        Some(x) => x.section == name ==> (b matches Some(y) && y.section == name && x.points
            <= y.points),
        None => true,
    }
}

/// The findings of a list of rule outcomes, in order.
pub open spec fn all_findings(os: Seq<Option<FindingModel>>) -> Seq<FindingModel>
    decreases os.len(),
{
    if os.len() == 0 {
        seq![]
    } else {
        all_findings(os.drop_last()) + opt_seq(os.last())
    }
}

/// The outcomes of the review's rules, in the review's order, for the
/// texts and their lower-cased forms.
pub open spec fn rule_outcomes_lowered(
    content: Seq<char>,
    raw: Seq<char>,
    cl: Seq<char>,
    rl: Seq<char>,
    strict: bool,
) -> Seq<Option<FindingModel>> {
    seq![
        metadata_rule(cl, rl, strict),
        background_rule(cl, rl, strict),
        objectives_rule(cl, rl, strict),
        scope_rule(cl, rl, strict),
        general_rules_rule(cl, rl, strict),
        acceptance_rule(content, raw, cl, rl),
        features_rule(cl, rl, strict),
        design_rule(cl, rl, strict),
        user_flows_rule(cl, rl, strict),
        tech_docs_rule(cl, rl, strict),
        event_tracking_rule(cl, rl, strict),
        lcmp_rule(cl, rl, strict),
        success_metrics_rule(cl, rl, strict),
        related_prds_rule(cl, rl, strict),
        vague_rule(cl),
        figure_rule(cl, rl),
    ]
}

/// The outcomes of the review's rules, in the review's order.
pub open spec fn rule_outcomes(content: Seq<char>, raw: Seq<char>, strict: bool) -> Seq<
    Option<FindingModel>,
> {
    rule_outcomes_lowered(content, raw, lowercase(content), lowercase(raw), strict)
}

proof fn lemma_section_points_concat(a: Seq<FindingModel>, b: Seq<FindingModel>, name: Seq<char>)
    ensures
        section_points(a + b, name) == section_points(a, name) + section_points(b, name),
    decreases b.len(),
{
    if b.len() > 0 {
        lemma_section_points_concat(a, b.drop_last(), name);
        assert((a + b).drop_last() =~= a + b.drop_last());
    } else {
        assert(a + b =~= a);
    }
}

proof fn lemma_all_findings_step(os: Seq<Option<FindingModel>>, k: int)
    requires
        0 <= k < os.len(),
    ensures
        all_findings(os.take(k + 1)) == all_findings(os.take(k)) + opt_seq(os[k]),
{
    assert(os.take(k + 1).drop_last() =~= os.take(k));
}

proof fn lemma_review_is_all_findings(content: Seq<char>, raw: Seq<char>, strict: bool)
    ensures
        review_spec(content, raw, strict) == all_findings(rule_outcomes(content, raw, strict)),
{
    let os = rule_outcomes(content, raw, strict);
    assert(os.take(0) =~= Seq::<Option<FindingModel>>::empty());
    assert(all_findings(os.take(0)) =~= Seq::<FindingModel>::empty());
    lemma_all_findings_step(os, 0);
    assert(all_findings(os.take(1)) == opt_seq(os[0]));
    lemma_all_findings_step(os, 1);
    assert(all_findings(os.take(2)) == opt_seq(os[0]) + opt_seq(os[1]));
    lemma_all_findings_step(os, 2);
    assert(all_findings(os.take(3)) == opt_seq(os[0]) + opt_seq(os[1]) + opt_seq(os[2]));
    lemma_all_findings_step(os, 3);
    assert(all_findings(os.take(4)) == opt_seq(os[0]) + opt_seq(os[1]) + opt_seq(os[2]) + opt_seq(os[3]));
    lemma_all_findings_step(os, 4);
    assert(all_findings(os.take(5)) == opt_seq(os[0]) + opt_seq(os[1]) + opt_seq(os[2]) + opt_seq(os[3]) + opt_seq(os[4]));
    lemma_all_findings_step(os, 5);
    assert(all_findings(os.take(6)) == opt_seq(os[0]) + opt_seq(os[1]) + opt_seq(os[2]) + opt_seq(os[3]) + opt_seq(os[4]) + opt_seq(os[5]));
    lemma_all_findings_step(os, 6);
    assert(all_findings(os.take(7)) == opt_seq(os[0]) + opt_seq(os[1]) + opt_seq(os[2]) + opt_seq(os[3]) + opt_seq(os[4]) + opt_seq(os[5]) + opt_seq(os[6]));
    lemma_all_findings_step(os, 7);
    assert(all_findings(os.take(8)) == opt_seq(os[0]) + opt_seq(os[1]) + opt_seq(os[2]) + opt_seq(os[3]) + opt_seq(os[4]) + opt_seq(os[5]) + opt_seq(os[6]) + opt_seq(os[7]));
    lemma_all_findings_step(os, 8);
    assert(all_findings(os.take(9)) == opt_seq(os[0]) + opt_seq(os[1]) + opt_seq(os[2]) + opt_seq(os[3]) + opt_seq(os[4]) + opt_seq(os[5]) + opt_seq(os[6]) + opt_seq(os[7]) + opt_seq(os[8]));
    lemma_all_findings_step(os, 9);
    assert(all_findings(os.take(10)) == opt_seq(os[0]) + opt_seq(os[1]) + opt_seq(os[2]) + opt_seq(os[3]) + opt_seq(os[4]) + opt_seq(os[5]) + opt_seq(os[6]) + opt_seq(os[7]) + opt_seq(os[8]) + opt_seq(os[9]));
    lemma_all_findings_step(os, 10);
    assert(all_findings(os.take(11)) == opt_seq(os[0]) + opt_seq(os[1]) + opt_seq(os[2]) + opt_seq(os[3]) + opt_seq(os[4]) + opt_seq(os[5]) + opt_seq(os[6]) + opt_seq(os[7]) + opt_seq(os[8]) + opt_seq(os[9]) + opt_seq(os[10]));
    lemma_all_findings_step(os, 11);
    assert(all_findings(os.take(12)) == opt_seq(os[0]) + opt_seq(os[1]) + opt_seq(os[2]) + opt_seq(os[3]) + opt_seq(os[4]) + opt_seq(os[5]) + opt_seq(os[6]) + opt_seq(os[7]) + opt_seq(os[8]) + opt_seq(os[9]) + opt_seq(os[10]) + opt_seq(os[11]));
    lemma_all_findings_step(os, 12);
    assert(all_findings(os.take(13)) == opt_seq(os[0]) + opt_seq(os[1]) + opt_seq(os[2]) + opt_seq(os[3]) + opt_seq(os[4]) + opt_seq(os[5]) + opt_seq(os[6]) + opt_seq(os[7]) + opt_seq(os[8]) + opt_seq(os[9]) + opt_seq(os[10]) + opt_seq(os[11]) + opt_seq(os[12]));
    lemma_all_findings_step(os, 13);
    assert(all_findings(os.take(14)) == opt_seq(os[0]) + opt_seq(os[1]) + opt_seq(os[2]) + opt_seq(os[3]) + opt_seq(os[4]) + opt_seq(os[5]) + opt_seq(os[6]) + opt_seq(os[7]) + opt_seq(os[8]) + opt_seq(os[9]) + opt_seq(os[10]) + opt_seq(os[11]) + opt_seq(os[12]) + opt_seq(os[13]));
    lemma_all_findings_step(os, 14);
    assert(all_findings(os.take(15)) == opt_seq(os[0]) + opt_seq(os[1]) + opt_seq(os[2]) + opt_seq(os[3]) + opt_seq(os[4]) + opt_seq(os[5]) + opt_seq(os[6]) + opt_seq(os[7]) + opt_seq(os[8]) + opt_seq(os[9]) + opt_seq(os[10]) + opt_seq(os[11]) + opt_seq(os[12]) + opt_seq(os[13]) + opt_seq(os[14]));
    lemma_all_findings_step(os, 15);
    assert(all_findings(os.take(16)) == opt_seq(os[0]) + opt_seq(os[1]) + opt_seq(os[2]) + opt_seq(os[3]) + opt_seq(os[4]) + opt_seq(os[5]) + opt_seq(os[6]) + opt_seq(os[7]) + opt_seq(os[8]) + opt_seq(os[9]) + opt_seq(os[10]) + opt_seq(os[11]) + opt_seq(os[12]) + opt_seq(os[13]) + opt_seq(os[14]) + opt_seq(os[15]));
    assert(os.take(16) =~= os);
}

proof fn lemma_opt_points(o: Option<FindingModel>, name: Seq<char>)
    ensures
        section_points(opt_seq(o), name) == (match o {
            Some(x) => if x.section == name { x.points as nat } else { 0nat },
            None => 0nat,
        }),
{
    match o {
        Some(x) => {
            assert(opt_seq(o).drop_last() =~= Seq::<FindingModel>::empty());
            assert(section_points(Seq::<FindingModel>::empty(), name) == 0);
            assert(opt_seq(o).last() == x);
        },
        None => {
            assert(opt_seq(o) =~= Seq::<FindingModel>::empty());
        },
    }
}

/// Outcome by outcome lighter for a section, so lighter in total for it.
proof fn lemma_lighter_total(a: Seq<Option<FindingModel>>, b: Seq<Option<FindingModel>>, name: Seq<char>)
    requires
        a.len() == b.len(),
        forall|i: int| 0 <= i < a.len() ==> lighter_for(#[trigger] a[i], b[i], name),
    ensures
        section_points(all_findings(a), name) <= section_points(all_findings(b), name),
    decreases a.len(),
{
    if a.len() > 0 {
        let n = (a.len() - 1) as int;
        assert(lighter_for(a[n], b[n], name));
        lemma_lighter_total(a.drop_last(), b.drop_last(), name);
        lemma_section_points_concat(all_findings(a.drop_last()), opt_seq(a.last()), name);
        lemma_section_points_concat(all_findings(b.drop_last()), opt_seq(b.last()), name);
        lemma_opt_points(a.last(), name);
        lemma_opt_points(b.last(), name);
    }
}

/// In every section, relaxed weights cost a PRD at most what strict weights
/// cost it: each rule's relaxed finding, where there is one, is matched by a
/// strict finding of the same section with at least as many points.
pub proof fn law_relaxed_lighter_per_section(content: Seq<char>, raw: Seq<char>, name: Seq<char>)
    ensures
        section_points(review_spec(content, raw, false), name) <= section_points(
            review_spec(content, raw, true),
            name,
        ),
{
    let a = rule_outcomes(content, raw, false);
    let b = rule_outcomes(content, raw, true);
    assert forall|i: int| 0 <= i < a.len() implies lighter_for(#[trigger] a[i], b[i], name) by {}
    lemma_lighter_total(a, b, name);
    lemma_review_is_all_findings(content, raw, false);
    lemma_review_is_all_findings(content, raw, true);
}

// ───────────────────────── numbered lines under appended text ─────────────────────────

proof fn lemma_trim_start_chars(l: Seq<char>) -> (a: int)
    ensures
        0 <= a <= l.len(),
        trim_start_spec(l) == l.skip(a),
        forall|j: int| 0 <= j < a ==> is_ws(#[trigger] l[j]),
        a == l.len() || !is_ws(l[a]),
    decreases l.len(),
{
    if l.len() > 0 && is_ws(l[0]) {
        let b = lemma_trim_start_chars(l.drop_first());
        assert(l.drop_first().skip(b) =~= l.skip(b + 1));
        assert forall|j: int| 0 <= j < b + 1 implies is_ws(#[trigger] l[j]) by {
            if j > 0 {
                assert(l[j] == l.drop_first()[j - 1]);
            }
        }
        b + 1
    } else {
        assert(l.skip(0) =~= l);
        0
    }
}

proof fn lemma_trim_end_chars(l: Seq<char>) -> (k: int)
    ensures
        0 <= k <= l.len(),
        trim_end_spec(l) == l.take(k),
        forall|j: int| k <= j < l.len() ==> is_ws(#[trigger] l[j]),
        k == 0 || !is_ws(l[k - 1]),
    decreases l.len(),
{
    if l.len() > 0 && is_ws(l.last()) {
        let k = lemma_trim_end_chars(l.drop_last());
        assert(l.drop_last().take(k) =~= l.take(k));
        assert forall|j: int| k <= j < l.len() implies is_ws(#[trigger] l[j]) by {
            if j < l.len() - 1 {
                assert(l[j] == l.drop_last()[j]);
            }
        }
        k
    } else {
        assert(l.take(l.len() as int) =~= l);
        l.len() as int
    }
}

/// A pattern that starts and ends with a non-space character sits, in a
/// line, after leading whitespace only.
pub open spec fn window_at(l: Seq<char>, p: Seq<char>, a: int) -> bool {
    &&& 0 <= a
    &&& a + p.len() <= l.len()
    &&& forall|j: int| 0 <= j < a ==> is_ws(#[trigger] l[j])
    &&& l.subrange(a, a + p.len()) == p
}

proof fn lemma_trimmed_start_window(l: Seq<char>, p: Seq<char>) -> (a: int)
    requires
        p.len() > 0,
        !is_ws(p[0]),
        !is_ws(p.last()),
        starts_with_spec(trim_spec(l), p),
    ensures
        window_at(l, p, a),
{
    let a = lemma_trim_start_chars(l);
    let w = l.skip(a);
    let k = lemma_trim_end_chars(w);
    assert(trim_spec(l) == w.take(k));
    assert(w.take(k).subrange(0, p.len() as int) == p);
    assert forall|j: int| 0 <= j < p.len() implies l[a + j] == p[j] by {
        assert(w.take(k).subrange(0, p.len() as int)[j] == p[j]);
    }
    assert(l.subrange(a, a + p.len()) =~= p);
    a
}

proof fn lemma_window_trimmed_start(l: Seq<char>, p: Seq<char>, a: int)
    requires
        p.len() > 0,
        !is_ws(p[0]),
        !is_ws(p.last()),
        window_at(l, p, a),
    ensures
        starts_with_spec(trim_spec(l), p),
{
    let a0 = lemma_trim_start_chars(l);
    assert(l[a] == l.subrange(a, a + p.len())[0]);
    if a0 < a {
        assert(is_ws(l[a0]));
    }
    if a0 > a {
        assert(is_ws(l[a]));
    }
    assert(a0 == a);
    let w = l.skip(a);
    let k = lemma_trim_end_chars(w);
    assert(w[p.len() - 1] == l.subrange(a, a + p.len())[p.len() - 1]);
    if k < p.len() {
        assert(is_ws(w[p.len() - 1]));
    }
    assert(trim_spec(l) == w.take(k));
    assert(w.take(k).subrange(0, p.len() as int) =~= p) by {
        assert forall|j: int| 0 <= j < p.len() implies w.take(k)[j] == p[j] by {
            assert(l.subrange(a, a + p.len())[j] == p[j]);
        }
    }
}

/// A line as it reads once more text is appended: it begins with the old
/// line, less a final `\r` where the line ended in one.
pub open spec fn line_extends(l: Seq<char>, l2: Seq<char>) -> bool {
    ||| l2.len() >= l.len() && l2.subrange(0, l.len() as int) == l
    ||| l.len() > 0 && l.last() == '\r' && l2.len() >= l.len() - 1 && l2.subrange(
        0,
        l.len() - 1,
    ) == l.drop_last()
}

proof fn lemma_find_char_agrees(s: Seq<char>, t: Seq<char>, c: char, start: int, i: int)
    requires
        0 <= start <= i < s.len(),
        i < t.len(),
        find_char_from(s, c, start) == Some(i),
        forall|k: int| start <= k <= i ==> s[k] == t[k],
    ensures
        find_char_from(t, c, start) == Some(i),
    decreases i - start,
{
    assert(s[start] == t[start]);
    if s[start] == c {
        assert(start == i);
    } else {
        assert(find_char_from(s, c, start + 1) == Some(i));
        crate::text::lemma_find_char_from_bounds(s, c, start + 1);
        lemma_find_char_agrees(s, t, c, start + 1, i);
    }
}

proof fn lemma_find_char_later(s: Seq<char>, t: Seq<char>, c: char, start: int)
    requires
        0 <= start <= s.len() <= t.len(),
        forall|k: int| 0 <= k < s.len() ==> s[k] == t[k],
        forall|k: int| start <= k < s.len() ==> s[k] != c,
    ensures
        find_char_from(t, c, start) matches Some(j) ==> s.len() <= j < t.len(),
    decreases t.len() - start,
{
    crate::text::lemma_find_char_from_bounds(t, c, start);
    if start < s.len() {
        lemma_find_char_later(s, t, c, start + 1);
    }
}

proof fn lemma_lines_append(s: Seq<char>, x: Seq<char>, start: int)
    requires
        0 <= start,
    ensures
        lines_from(s + x, start).len() >= lines_from(s, start).len(),
        forall|i: int|
            0 <= i < lines_from(s, start).len() - 1 ==> lines_from(s + x, start)[i] == #[trigger] lines_from(
                s,
                start,
            )[i],
        lines_from(s, start).len() > 0 ==> line_extends(
            lines_from(s, start).last(),
            lines_from(s + x, start)[lines_from(s, start).len() - 1],
        ),
    decreases s.len() - start,
{
    let t = s + x;
    if start >= s.len() {
        return;
    }
    crate::text::lemma_find_char_from_bounds(s, '\n', start);
    crate::text::lemma_find_char_from_bounds(t, '\n', start);
    match find_char_from(s, '\n', start) {
        Some(i) => {
            lemma_find_char_agrees(s, t, '\n', start, i);
            assert(t.subrange(start, i) =~= s.subrange(start, i));
            lemma_lines_append(s, x, i + 1);
            let a = lines_from(s, start);
            let b = lines_from(t, start);
            assert(a == seq![strip_cr(s.subrange(start, i))] + lines_from(s, i + 1));
            assert(b == seq![strip_cr(s.subrange(start, i))] + lines_from(t, i + 1));
            if lines_from(s, i + 1).len() == 0 {
                let l = a.last();
                assert(l.subrange(0, l.len() as int) =~= l);
            } else {
                assert forall|k: int| 0 <= k < a.len() - 1 implies b[k] == #[trigger] a[k] by {
                    if k > 0 {
                        assert(a[k] == lines_from(s, i + 1)[k - 1]);
                        assert(b[k] == lines_from(t, i + 1)[k - 1]);
                    }
                }
                assert(a.last() == lines_from(s, i + 1).last());
                assert(b[a.len() - 1] == lines_from(t, i + 1)[lines_from(s, i + 1).len() - 1]);
            }
        },
        None => {
            let l = s.subrange(start, s.len() as int);
            assert(lines_from(s, start) == seq![l]);
            lemma_find_char_later(s, t, '\n', start);
            match find_char_from(t, '\n', start) {
                None => {
                    let l2 = t.subrange(start, t.len() as int);
                    assert(lines_from(t, start)[0] == l2);
                    assert(l2.subrange(0, l.len() as int) =~= l);
                },
                Some(j) => {
                    let m = t.subrange(start, j);
                    assert(lines_from(t, start)[0] == strip_cr(m));
                    if j == s.len() {
                        assert(m =~= l);
                        if l.len() > 0 && l.last() == '\r' {
                            assert(strip_cr(m).subrange(0, l.len() - 1) =~= l.drop_last());
                        } else {
                            assert(strip_cr(m).subrange(0, l.len() as int) =~= l);
                        }
                    } else {
                        assert(strip_cr(m).subrange(0, l.len() as int) =~= l);
                    }
                },
            }
        },
    }
}

/// A numbered or checklist line stays one when text is appended.
proof fn lemma_numbered_append(s: Seq<char>, x: Seq<char>)
    requires
        has_numbered_line(s),
    ensures
        has_numbered_line(s + x),
{
    reveal_strlit("1.");
    reveal_strlit("- [");
    let i = choose|i: int|
        0 <= i < lines_spec(s).len() && {
            let t = trim_spec(#[trigger] lines_spec(s)[i]);
            starts_with_spec(t, "1."@) || starts_with_spec(t, "- ["@)
        };
    let l = lines_spec(s)[i];
    let p = if starts_with_spec(trim_spec(l), "1."@) {
        "1."@
    } else {
        "- ["@
    };
    assert(p.len() > 0 && !is_ws(p[0]) && !is_ws(p.last()) && p[0] != '\r' && p.last() != '\r');
    let a = lemma_trimmed_start_window(l, p);
    lemma_lines_append(s, x, 0);
    let l2 = lines_spec(s + x)[i];
    if i < lines_spec(s).len() - 1 {
        assert(l2 == l);
    } else {
        assert(line_extends(l, l2));
        if l2.len() >= l.len() && l2.subrange(0, l.len() as int) == l {
            assert forall|j: int| 0 <= j < a implies is_ws(#[trigger] l2[j]) by {
                assert(l2[j] == l2.subrange(0, l.len() as int)[j]);
            }
            assert(l2.subrange(a, a + p.len()) =~= p) by {
                assert forall|j: int| 0 <= j < p.len() implies l2[a + j] == p[j] by {
                    assert(l2[a + j] == l2.subrange(0, l.len() as int)[a + j]);
                    assert(l.subrange(a, a + p.len())[j] == p[j]);
                }
            }
        } else {
            assert(l.subrange(a, a + p.len())[p.len() - 1] == p.last());
            assert(a + p.len() <= l.len() - 1);
            assert forall|j: int| 0 <= j < a implies is_ws(#[trigger] l2[j]) by {
                assert(l2[j] == l2.subrange(0, l.len() - 1)[j]);
                assert(l.drop_last()[j] == l[j]);
            }
            assert(l2.subrange(a, a + p.len()) =~= p) by {
                assert forall|j: int| 0 <= j < p.len() implies l2[a + j] == p[j] by {
                    assert(l2[a + j] == l2.subrange(0, l.len() - 1)[a + j]);
                    assert(l.drop_last()[a + j] == l[a + j]);
                    assert(l.subrange(a, a + p.len())[j] == p[j]);
                }
            }
        }
    }
    lemma_window_trimmed_start(l2, p, a);
    assert(starts_with_spec(trim_spec(lines_spec(s + x)[i]), p));
}

// ───────────────────────── more text ─────────────────────────

proof fn lemma_contains_append(s: Seq<char>, y: Seq<char>, p: Seq<char>)
    requires
        crate::text::contains_spec(s, p),
    ensures
        crate::text::contains_spec(s + y, p),
{
    assert((s + y).subrange(0, s.len() as int) =~= s);
    crate::text::lemma_contains_subrange(s + y, 0, s.len() as int, p);
}

/// Each rule charges a section no more once the texts say more: `cl2`/`rl2`
/// contain every phrase `cl`/`rl` do, and numbered lines stay.
#[verifier::spinoff_prover]
proof fn lemma_rules_monotone(
    c: Seq<char>,
    r: Seq<char>,
    cl: Seq<char>,
    rl: Seq<char>,
    c2: Seq<char>,
    r2: Seq<char>,
    cl2: Seq<char>,
    rl2: Seq<char>,
    strict: bool,
    name: Seq<char>,
)
    requires
        forall|p: Seq<char>| #[trigger] has(cl, rl, p) ==> has(cl2, rl2, p),
        has_numbered_line(c) ==> has_numbered_line(c2),
        has_numbered_line(r) ==> has_numbered_line(r2),
        name != "Requirements Clarity"@,
        name != "Design-Rule Linkage"@,
    ensures
        forall|i: int|
            0 <= i < 16 ==> lighter_for(
                #[trigger] rule_outcomes_lowered(c2, r2, cl2, rl2, strict)[i],
                rule_outcomes_lowered(c, r, cl, rl, strict)[i],
                name,
            ),
{
    let a = rule_outcomes_lowered(c2, r2, cl2, rl2, strict);
    let b = rule_outcomes_lowered(c, r, cl, rl, strict);
    assert(lighter_for(a[0], b[0], name));
    assert(lighter_for(a[1], b[1], name));
    assert(lighter_for(a[2], b[2], name));
    assert(lighter_for(a[3], b[3], name));
    assert(lighter_for(a[4], b[4], name));
    assert(lighter_for(a[5], b[5], name));
    assert(lighter_for(a[6], b[6], name));
    assert(lighter_for(a[7], b[7], name));
    assert(lighter_for(a[8], b[8], name));
    assert(lighter_for(a[9], b[9], name));
    assert(lighter_for(a[10], b[10], name));
    assert(lighter_for(a[11], b[11], name));
    assert(lighter_for(a[12], b[12], name));
    assert(lighter_for(a[13], b[13], name));
    assert(lighter_for(a[14], b[14], name));
    assert(lighter_for(a[15], b[15], name));
}

/// The review of texts given with their lower-cased forms (the review
/// lower-cases with std `str::to_lowercase`, whose result is a name).
pub open spec fn review_lowered(content: Seq<char>, raw: Seq<char>, cl: Seq<char>, rl: Seq<char>, strict: bool) -> Seq<
    FindingModel,
> {
    all_findings(rule_outcomes_lowered(content, raw, cl, rl, strict))
}

#[verifier::spinoff_prover]
proof fn lemma_lighter_side(
    c: Seq<char>,
    r: Seq<char>,
    cl: Seq<char>,
    rl: Seq<char>,
    c2: Seq<char>,
    r2: Seq<char>,
    cl2: Seq<char>,
    rl2: Seq<char>,
    strict: bool,
    name: Seq<char>,
)
    requires
        forall|p: Seq<char>| #[trigger] has(cl, rl, p) ==> has(cl2, rl2, p),
        has_numbered_line(c) ==> has_numbered_line(c2),
        has_numbered_line(r) ==> has_numbered_line(r2),
        name != "Requirements Clarity"@,
        name != "Design-Rule Linkage"@,
    ensures
        section_points(review_lowered(c2, r2, cl2, rl2, strict), name) <= section_points(
            review_lowered(c, r, cl, rl, strict),
            name,
        ),
{
    lemma_rules_monotone(c, r, cl, rl, c2, r2, cl2, rl2, strict, name);
    lemma_lighter_total(
        rule_outcomes_lowered(c2, r2, cl2, rl2, strict),
        rule_outcomes_lowered(c, r, cl, rl, strict),
        name,
    );
}

/// More text never costs a section more: appending `x` to the formatted
/// PRD or to the page's Markdown, where the lower-cased text grows by the
/// lower-cased `y` in the same way, charges each section at most what it
/// charged before. The review is `review_lowered` of the texts and their
/// lower-cased forms. The two cross-cutting checks (vague language, figure
/// references) are left out: more text can trigger them.
pub proof fn law_more_text_never_costs_more(
    content: Seq<char>,
    raw: Seq<char>,
    cl: Seq<char>,
    rl: Seq<char>,
    x: Seq<char>,
    y: Seq<char>,
    strict: bool,
    name: Seq<char>,
)
    requires
        name != "Requirements Clarity"@,
        name != "Design-Rule Linkage"@,
    ensures
        review_spec(content, raw, strict) == review_lowered(
            content,
            raw,
            lowercase(content),
            lowercase(raw),
            strict,
        ),
        section_points(review_lowered(content + x, raw, cl + y, rl, strict), name) <= section_points(
            review_lowered(content, raw, cl, rl, strict),
            name,
        ),
        section_points(review_lowered(content, raw + x, cl, rl + y, strict), name) <= section_points(
            review_lowered(content, raw, cl, rl, strict),
            name,
        ),
{
    lemma_review_is_all_findings(content, raw, strict);
    assert forall|p: Seq<char>| #[trigger] has(cl, rl, p) implies has(cl + y, rl, p) by {
        if crate::text::contains_spec(cl, p) {
            lemma_contains_append(cl, y, p);
        }
    }
    if has_numbered_line(content) {
        lemma_numbered_append(content, x);
    }
    lemma_lighter_side(content, raw, cl, rl, content + x, raw, cl + y, rl, strict, name);
    assert forall|p: Seq<char>| #[trigger] has(cl, rl, p) implies has(cl, rl + y, p) by {
        if crate::text::contains_spec(rl, p) {
            lemma_contains_append(rl, y, p);
        }
    }
    if has_numbered_line(raw) {
        lemma_numbered_append(raw, x);
    }
    lemma_lighter_side(content, raw, cl, rl, content, raw + x, cl, rl + y, strict, name);
}

/// The ASCII lower-case of a text, character by character.
pub open spec fn ascii_lowered(s: Seq<char>) -> Seq<char> {
    s.map_values(|c: char| ascii_lower(c))
}

/// The review of texts lower-cased character by character: what
/// `review_prd` gives for ASCII texts (see its contract).
pub open spec fn ascii_review_spec(content: Seq<char>, raw: Seq<char>, strict: bool) -> Seq<
    FindingModel,
> {
    review_lowered(content, raw, ascii_lowered(content), ascii_lowered(raw), strict)
}

/// Where std lower-cases both texts character by character, the review is
/// `ascii_review_spec`.
pub proof fn lemma_review_of_ascii(content: Seq<char>, raw: Seq<char>, strict: bool)
    requires
        lowercase(content) == ascii_lowered(content),
        lowercase(raw) == ascii_lowered(raw),
    ensures
        review_spec(content, raw, strict) == ascii_review_spec(content, raw, strict),
{
    lemma_review_is_all_findings(content, raw, strict);
}

/// More text never costs a section more, for texts lowered character by
/// character (as `review_prd` lowers ASCII text): appending `x` to the
/// formatted PRD or to the page's Markdown charges each section at most
/// what it charged before. The two cross-cutting checks (vague language,
/// figure references) are left out: more text can trigger them.
pub proof fn law_more_ascii_text_never_costs_more(
    content: Seq<char>,
    raw: Seq<char>,
    x: Seq<char>,
    strict: bool,
    name: Seq<char>,
)
    requires
        name != "Requirements Clarity"@,
        name != "Design-Rule Linkage"@,
    ensures
        section_points(ascii_review_spec(content + x, raw, strict), name) <= section_points(
            ascii_review_spec(content, raw, strict),
            name,
        ),
        section_points(ascii_review_spec(content, raw + x, strict), name) <= section_points(
            ascii_review_spec(content, raw, strict),
            name,
        ),
{
    law_more_text_never_costs_more(
        content,
        raw,
        ascii_lowered(content),
        ascii_lowered(raw),
        x,
        ascii_lowered(x),
        strict,
        name,
    );
    assert(ascii_lowered(content + x) =~= ascii_lowered(content) + ascii_lowered(x));
    assert(ascii_lowered(raw + x) =~= ascii_lowered(raw) + ascii_lowered(x));
}

/// Whether the PRD or the page's Markdown, lower-cased, holds `p`.
pub open spec fn mentions(content: Seq<char>, raw: Seq<char>, p: Seq<char>) -> bool {
    contains_spec(lowercase(content), p) || contains_spec(lowercase(raw), p)
}

/// Whether the texts link a Figma design.
pub open spec fn mentions_figma(content: Seq<char>, raw: Seq<char>) -> bool {
    mentions(content, raw, "figma.com"@) || mentions(content, raw, "figma link"@) || mentions(
        content,
        raw,
        "figma design"@,
    )
}

/// Whether the texts show design images: a design column in a table, or a
/// PNG image with a figure label.
pub open spec fn shows_design_images(content: Seq<char>, raw: Seq<char>) -> bool {
    mentions(content, raw, "| design |"@) || mentions(content, raw, "| design|"@) || mentions(
        content,
        raw,
        "|design|"@,
    ) || (mentions(content, raw, ".png"@) && mentions(content, raw, "figure"@))
}

proof fn lemma_all_findings_has(os: Seq<Option<FindingModel>>, k: int)
    requires
        0 <= k < os.len(),
        os[k] is Some,
    ensures
        all_findings(os).contains(os[k]->0),
    decreases os.len(),
{
    let a = all_findings(os.drop_last());
    let b = opt_seq(os.last());
    assert(all_findings(os) == a + b);
    if k == os.len() - 1 {
        assert((a + b)[a.len() as int] == os[k]->0);
    } else {
        lemma_all_findings_has(os.drop_last(), k);
        assert(os.drop_last()[k] == os[k]);
        let i = choose|i: int| 0 <= i < a.len() && a[i] == os[k]->0;
        assert((a + b)[i] == a[i]);
    }
}

/// The Design Reference rule: with neither a Figma link nor design images
/// the review has the Missing finding of 8 points; with design images but
/// no Figma link it has, in its place, a Suggestion of 3 points (2 when
/// relaxed).
pub proof fn law_design_reference(content: Seq<char>, raw: Seq<char>, strict: bool)
    ensures
        !mentions_figma(content, raw) && shows_design_images(content, raw) ==> review_spec(
            content,
            raw,
            strict,
        ).contains(
            FindingModel {
                severity: Severity::Suggestion,
                section: "Design Reference"@,
                points: if strict {
                    3
                } else {
                    2
                },
                message: "Design images found but no Figma link. Add a Figma URL for developers to inspect spacing, colors, and specs."@,
            },
        ),
        !mentions_figma(content, raw) && !shows_design_images(content, raw) ==> review_spec(
            content,
            raw,
            strict,
        ).contains(
            FindingModel {
                severity: Severity::Missing,
                section: "Design Reference"@,
                points: 8,
                message: "No design reference found. Add a Figma link or embed design images with figure labels."@,
            },
        ),
{
    lemma_review_is_all_findings(content, raw, strict);
    let os = rule_outcomes(content, raw, strict);
    assert(os[7] == design_rule(lowercase(content), lowercase(raw), strict));
    if !mentions_figma(content, raw) {
        lemma_all_findings_has(os, 7);
    }
}

proof fn lemma_all_findings_from(os: Seq<Option<FindingModel>>, i: int)
    requires
        0 <= i < all_findings(os).len(),
    ensures
        exists|k: int| 0 <= k < os.len() && os[k] == Some(#[trigger] all_findings(os)[i]),
    decreases os.len(),
{
    let a = all_findings(os.drop_last());
    let b = opt_seq(os.last());
    assert(all_findings(os) == a + b);
    if i < a.len() {
        lemma_all_findings_from(os.drop_last(), i);
        let k = choose|k: int| 0 <= k < os.drop_last().len() && os.drop_last()[k] == Some(a[i]);
        assert(os[k] == os.drop_last()[k]);
        assert(all_findings(os)[i] == a[i]);
    } else {
        assert(all_findings(os)[i] == b[i - a.len()]);
        assert(os[os.len() - 1] == Some(all_findings(os)[i]));
    }
}

proof fn lemma_design_section_is_its_own(content: Seq<char>, raw: Seq<char>, strict: bool, k: int)
    requires
        0 <= k < 16,
        k != 7,
    ensures
        rule_outcomes(content, raw, strict)[k] matches Some(f) ==> f.section != "Design Reference"@,
{
    let d = "Design Reference"@;
    reveal_strlit("Design Reference");
    assert("Acceptance Criteria"@ != d) by {
        reveal_strlit("Acceptance Criteria");
        assert("Acceptance Criteria"@.len() != d.len());
    }
    assert("Background & Problem Statement"@ != d) by {
        reveal_strlit("Background & Problem Statement");
        assert("Background & Problem Statement"@.len() != d.len());
    }
    assert("Design-Rule Linkage"@ != d) by {
        reveal_strlit("Design-Rule Linkage");
        assert("Design-Rule Linkage"@.len() != d.len());
    }
    assert("Event Tracking"@ != d) by {
        reveal_strlit("Event Tracking");
        assert("Event Tracking"@.len() != d.len());
    }
    assert("Feature Sections"@ != d) by {
        reveal_strlit("Feature Sections");
        assert("Feature Sections"@[0] != d[0]);
    }
    assert("General Rules"@ != d) by {
        reveal_strlit("General Rules");
        assert("General Rules"@.len() != d.len());
    }
    assert("LCMP Keys"@ != d) by {
        reveal_strlit("LCMP Keys");
        assert("LCMP Keys"@.len() != d.len());
    }
    assert("Metadata"@ != d) by {
        reveal_strlit("Metadata");
        assert("Metadata"@.len() != d.len());
    }
    assert("Objectives"@ != d) by {
        reveal_strlit("Objectives");
        assert("Objectives"@.len() != d.len());
    }
    assert("Related PRDs"@ != d) by {
        reveal_strlit("Related PRDs");
        assert("Related PRDs"@.len() != d.len());
    }
    assert("Requirements Clarity"@ != d) by {
        reveal_strlit("Requirements Clarity");
        assert("Requirements Clarity"@.len() != d.len());
    }
    assert("Scope"@ != d) by {
        reveal_strlit("Scope");
        assert("Scope"@.len() != d.len());
    }
    assert("Success Metrics"@ != d) by {
        reveal_strlit("Success Metrics");
        assert("Success Metrics"@.len() != d.len());
    }
    assert("Technical Docs / API Contract"@ != d) by {
        reveal_strlit("Technical Docs / API Contract");
        assert("Technical Docs / API Contract"@.len() != d.len());
    }
    assert("User Flows"@ != d) by {
        reveal_strlit("User Flows");
        assert("User Flows"@.len() != d.len());
    }
    let os = rule_outcomes(content, raw, strict);
    if k == 0 {
        assert(os[0] == rule_outcomes(content, raw, strict)[0]);
    }
    if k == 1 {
        assert(os[1] == rule_outcomes(content, raw, strict)[1]);
    }
    if k == 2 {
        assert(os[2] == rule_outcomes(content, raw, strict)[2]);
    }
    if k == 3 {
        assert(os[3] == rule_outcomes(content, raw, strict)[3]);
    }
    if k == 4 {
        assert(os[4] == rule_outcomes(content, raw, strict)[4]);
    }
    if k == 5 {
        assert(os[5] == rule_outcomes(content, raw, strict)[5]);
    }
    if k == 6 {
        assert(os[6] == rule_outcomes(content, raw, strict)[6]);
    }
    if k == 8 {
        assert(os[8] == rule_outcomes(content, raw, strict)[8]);
    }
    if k == 9 {
        assert(os[9] == rule_outcomes(content, raw, strict)[9]);
    }
    if k == 10 {
        assert(os[10] == rule_outcomes(content, raw, strict)[10]);
    }
    if k == 11 {
        assert(os[11] == rule_outcomes(content, raw, strict)[11]);
    }
    if k == 12 {
        assert(os[12] == rule_outcomes(content, raw, strict)[12]);
    }
    if k == 13 {
        assert(os[13] == rule_outcomes(content, raw, strict)[13]);
    }
    if k == 14 {
        assert(os[14] == rule_outcomes(content, raw, strict)[14]);
    }
    if k == 15 {
        assert(os[15] == rule_outcomes(content, raw, strict)[15]);
    }
}

/// With a Figma link the review has no Design Reference finding at all.
pub proof fn law_figma_link_satisfies_design(content: Seq<char>, raw: Seq<char>, strict: bool)
    requires
        mentions_figma(content, raw),
    ensures
        forall|i: int|
            0 <= i < review_spec(content, raw, strict).len() ==> (#[trigger] review_spec(
                content,
                raw,
                strict,
            )[i]).section != "Design Reference"@,
{
    lemma_review_is_all_findings(content, raw, strict);
    let os = rule_outcomes(content, raw, strict);
    assert(os[7] == design_rule(lowercase(content), lowercase(raw), strict));
    assert(os[7] is None);
    assert forall|i: int| 0 <= i < review_spec(content, raw, strict).len() implies (
    #[trigger] review_spec(content, raw, strict)[i]).section != "Design Reference"@ by {
        lemma_all_findings_from(os, i);
        let k = choose|k: int| 0 <= k < os.len() && os[k] == Some(all_findings(os)[i]);
        lemma_design_section_is_its_own(content, raw, strict, k);
    }
}

proof fn lemma_section_of_background_is_its_own(content: Seq<char>, raw: Seq<char>, strict: bool, k: int)
    requires
        0 <= k < 16,
        k != 1,
    ensures
        rule_outcomes(content, raw, strict)[k] matches Some(f) ==> f.section != "Background & Problem Statement"@,
{
    reveal_strlit("Background & Problem Statement");
    assert("Acceptance Criteria"@ != "Background & Problem Statement"@) by {
        reveal_strlit("Acceptance Criteria");
        assert("Acceptance Criteria"@.len() != "Background & Problem Statement"@.len());
    }
    assert("Design Reference"@ != "Background & Problem Statement"@) by {
        reveal_strlit("Design Reference");
        assert("Design Reference"@.len() != "Background & Problem Statement"@.len());
    }
    assert("Design-Rule Linkage"@ != "Background & Problem Statement"@) by {
        reveal_strlit("Design-Rule Linkage");
        assert("Design-Rule Linkage"@.len() != "Background & Problem Statement"@.len());
    }
    assert("Event Tracking"@ != "Background & Problem Statement"@) by {
        reveal_strlit("Event Tracking");
        assert("Event Tracking"@.len() != "Background & Problem Statement"@.len());
    }
    assert("Feature Sections"@ != "Background & Problem Statement"@) by {
        reveal_strlit("Feature Sections");
        assert("Feature Sections"@.len() != "Background & Problem Statement"@.len());
    }
    assert("General Rules"@ != "Background & Problem Statement"@) by {
        reveal_strlit("General Rules");
        assert("General Rules"@.len() != "Background & Problem Statement"@.len());
    }
    assert("LCMP Keys"@ != "Background & Problem Statement"@) by {
        reveal_strlit("LCMP Keys");
        assert("LCMP Keys"@.len() != "Background & Problem Statement"@.len());
    }
    assert("Metadata"@ != "Background & Problem Statement"@) by {
        reveal_strlit("Metadata");
        assert("Metadata"@.len() != "Background & Problem Statement"@.len());
    }
    assert("Objectives"@ != "Background & Problem Statement"@) by {
        reveal_strlit("Objectives");
        assert("Objectives"@.len() != "Background & Problem Statement"@.len());
    }
    assert("Related PRDs"@ != "Background & Problem Statement"@) by {
        reveal_strlit("Related PRDs");
        assert("Related PRDs"@.len() != "Background & Problem Statement"@.len());
    }
    assert("Requirements Clarity"@ != "Background & Problem Statement"@) by {
        reveal_strlit("Requirements Clarity");
        assert("Requirements Clarity"@.len() != "Background & Problem Statement"@.len());
    }
    assert("Scope"@ != "Background & Problem Statement"@) by {
        reveal_strlit("Scope");
        assert("Scope"@.len() != "Background & Problem Statement"@.len());
    }
    assert("Success Metrics"@ != "Background & Problem Statement"@) by {
        reveal_strlit("Success Metrics");
        assert("Success Metrics"@.len() != "Background & Problem Statement"@.len());
    }
    assert("Technical Docs / API Contract"@ != "Background & Problem Statement"@) by {
        reveal_strlit("Technical Docs / API Contract");
        assert("Technical Docs / API Contract"@.len() != "Background & Problem Statement"@.len());
    }
    assert("User Flows"@ != "Background & Problem Statement"@) by {
        reveal_strlit("User Flows");
        assert("User Flows"@.len() != "Background & Problem Statement"@.len());
    }
    let os = rule_outcomes(content, raw, strict);
    if k == 0 {
        assert(os[0] == rule_outcomes(content, raw, strict)[0]);
    }
    if k == 2 {
        assert(os[2] == rule_outcomes(content, raw, strict)[2]);
    }
    if k == 3 {
        assert(os[3] == rule_outcomes(content, raw, strict)[3]);
    }
    if k == 4 {
        assert(os[4] == rule_outcomes(content, raw, strict)[4]);
    }
    if k == 5 {
        assert(os[5] == rule_outcomes(content, raw, strict)[5]);
    }
    if k == 6 {
        assert(os[6] == rule_outcomes(content, raw, strict)[6]);
    }
    if k == 7 {
        assert(os[7] == rule_outcomes(content, raw, strict)[7]);
    }
    if k == 8 {
        assert(os[8] == rule_outcomes(content, raw, strict)[8]);
    }
    if k == 9 {
        assert(os[9] == rule_outcomes(content, raw, strict)[9]);
    }
    if k == 10 {
        assert(os[10] == rule_outcomes(content, raw, strict)[10]);
    }
    if k == 11 {
        assert(os[11] == rule_outcomes(content, raw, strict)[11]);
    }
    if k == 12 {
        assert(os[12] == rule_outcomes(content, raw, strict)[12]);
    }
    if k == 13 {
        assert(os[13] == rule_outcomes(content, raw, strict)[13]);
    }
    if k == 14 {
        assert(os[14] == rule_outcomes(content, raw, strict)[14]);
    }
    if k == 15 {
        assert(os[15] == rule_outcomes(content, raw, strict)[15]);
    }
}

/// The Background & Problem Statement rule: where the texts mention none of its markers the
/// review has its finding (10 points); where they mention one, the review
/// has no Background & Problem Statement finding at all.
pub proof fn law_background_rule(content: Seq<char>, raw: Seq<char>, strict: bool)
    ensures
        !(mentions(content, raw, "background"@) || mentions(content, raw, "problem statement"@) || mentions(content, raw, "## problem"@) || mentions(content, raw, "### problem"@)) ==> review_spec(content, raw, strict).contains(
            FindingModel {
                severity: Severity::Missing,
                section: "Background & Problem Statement"@,
                points: 10,
                message: "No background section found. Add a section explaining WHY this feature is needed and what user/business problem it solves."@,
            },
        ),
        (mentions(content, raw, "background"@) || mentions(content, raw, "problem statement"@) || mentions(content, raw, "## problem"@) || mentions(content, raw, "### problem"@)) ==> forall|i: int|
            0 <= i < review_spec(content, raw, strict).len() ==> (#[trigger] review_spec(
                content,
                raw,
                strict,
            )[i]).section != "Background & Problem Statement"@,
{
    lemma_review_is_all_findings(content, raw, strict);
    let os = rule_outcomes(content, raw, strict);
    assert(os[1] == background_rule(lowercase(content), lowercase(raw), strict));
    if !(mentions(content, raw, "background"@) || mentions(content, raw, "problem statement"@) || mentions(content, raw, "## problem"@) || mentions(content, raw, "### problem"@)) {
        lemma_all_findings_has(os, 1);
    } else {
        assert forall|i: int| 0 <= i < review_spec(content, raw, strict).len() implies (
        #[trigger] review_spec(content, raw, strict)[i]).section != "Background & Problem Statement"@ by {
            lemma_all_findings_from(os, i);
            let k = choose|k: int| 0 <= k < os.len() && os[k] == Some(all_findings(os)[i]);
            if k != 1 {
                lemma_section_of_background_is_its_own(content, raw, strict, k);
            }
        }
    }
}

proof fn lemma_section_of_objectives_is_its_own(content: Seq<char>, raw: Seq<char>, strict: bool, k: int)
    requires
        0 <= k < 16,
        k != 2,
    ensures
        rule_outcomes(content, raw, strict)[k] matches Some(f) ==> f.section != "Objectives"@,
{
    reveal_strlit("Objectives");
    assert("Acceptance Criteria"@ != "Objectives"@) by {
        reveal_strlit("Acceptance Criteria");
        assert("Acceptance Criteria"@.len() != "Objectives"@.len());
    }
    assert("Background & Problem Statement"@ != "Objectives"@) by {
        reveal_strlit("Background & Problem Statement");
        assert("Background & Problem Statement"@.len() != "Objectives"@.len());
    }
    assert("Design Reference"@ != "Objectives"@) by {
        reveal_strlit("Design Reference");
        assert("Design Reference"@.len() != "Objectives"@.len());
    }
    assert("Design-Rule Linkage"@ != "Objectives"@) by {
        reveal_strlit("Design-Rule Linkage");
        assert("Design-Rule Linkage"@.len() != "Objectives"@.len());
    }
    assert("Event Tracking"@ != "Objectives"@) by {
        reveal_strlit("Event Tracking");
        assert("Event Tracking"@.len() != "Objectives"@.len());
    }
    assert("Feature Sections"@ != "Objectives"@) by {
        reveal_strlit("Feature Sections");
        assert("Feature Sections"@.len() != "Objectives"@.len());
    }
    assert("General Rules"@ != "Objectives"@) by {
        reveal_strlit("General Rules");
        assert("General Rules"@.len() != "Objectives"@.len());
    }
    assert("LCMP Keys"@ != "Objectives"@) by {
        reveal_strlit("LCMP Keys");
        assert("LCMP Keys"@.len() != "Objectives"@.len());
    }
    assert("Metadata"@ != "Objectives"@) by {
        reveal_strlit("Metadata");
        assert("Metadata"@.len() != "Objectives"@.len());
    }
    assert("Related PRDs"@ != "Objectives"@) by {
        reveal_strlit("Related PRDs");
        assert("Related PRDs"@.len() != "Objectives"@.len());
    }
    assert("Requirements Clarity"@ != "Objectives"@) by {
        reveal_strlit("Requirements Clarity");
        assert("Requirements Clarity"@.len() != "Objectives"@.len());
    }
    assert("Scope"@ != "Objectives"@) by {
        reveal_strlit("Scope");
        assert("Scope"@.len() != "Objectives"@.len());
    }
    assert("Success Metrics"@ != "Objectives"@) by {
        reveal_strlit("Success Metrics");
        assert("Success Metrics"@.len() != "Objectives"@.len());
    }
    assert("Technical Docs / API Contract"@ != "Objectives"@) by {
        reveal_strlit("Technical Docs / API Contract");
        assert("Technical Docs / API Contract"@.len() != "Objectives"@.len());
    }
    assert("User Flows"@ != "Objectives"@) by {
        reveal_strlit("User Flows");
        assert("User Flows"@[0] != "Objectives"@[0]);
    }
    let os = rule_outcomes(content, raw, strict);
    if k == 0 {
        assert(os[0] == rule_outcomes(content, raw, strict)[0]);
    }
    if k == 1 {
        assert(os[1] == rule_outcomes(content, raw, strict)[1]);
    }
    if k == 3 {
        assert(os[3] == rule_outcomes(content, raw, strict)[3]);
    }
    if k == 4 {
        assert(os[4] == rule_outcomes(content, raw, strict)[4]);
    }
    if k == 5 {
        assert(os[5] == rule_outcomes(content, raw, strict)[5]);
    }
    if k == 6 {
        assert(os[6] == rule_outcomes(content, raw, strict)[6]);
    }
    if k == 7 {
        assert(os[7] == rule_outcomes(content, raw, strict)[7]);
    }
    if k == 8 {
        assert(os[8] == rule_outcomes(content, raw, strict)[8]);
    }
    if k == 9 {
        assert(os[9] == rule_outcomes(content, raw, strict)[9]);
    }
    if k == 10 {
        assert(os[10] == rule_outcomes(content, raw, strict)[10]);
    }
    if k == 11 {
        assert(os[11] == rule_outcomes(content, raw, strict)[11]);
    }
    if k == 12 {
        assert(os[12] == rule_outcomes(content, raw, strict)[12]);
    }
    if k == 13 {
        assert(os[13] == rule_outcomes(content, raw, strict)[13]);
    }
    if k == 14 {
        assert(os[14] == rule_outcomes(content, raw, strict)[14]);
    }
    if k == 15 {
        assert(os[15] == rule_outcomes(content, raw, strict)[15]);
    }
}

/// The Objectives rule: where the texts mention none of its markers the
/// review has its finding (10 points); where they mention one, the review
/// has no Objectives finding at all.
pub proof fn law_objectives_rule(content: Seq<char>, raw: Seq<char>, strict: bool)
    ensures
        !(mentions(content, raw, "objective"@) || mentions(content, raw, "## goal"@) || mentions(content, raw, "### goal"@)) ==> review_spec(content, raw, strict).contains(
            FindingModel {
                severity: Severity::Missing,
                section: "Objectives"@,
                points: 10,
                message: "No objectives section found. Add specific, measurable goals this feature should achieve."@,
            },
        ),
        (mentions(content, raw, "objective"@) || mentions(content, raw, "## goal"@) || mentions(content, raw, "### goal"@)) ==> forall|i: int|
            0 <= i < review_spec(content, raw, strict).len() ==> (#[trigger] review_spec(
                content,
                raw,
                strict,
            )[i]).section != "Objectives"@,
{
    lemma_review_is_all_findings(content, raw, strict);
    let os = rule_outcomes(content, raw, strict);
    assert(os[2] == objectives_rule(lowercase(content), lowercase(raw), strict));
    if !(mentions(content, raw, "objective"@) || mentions(content, raw, "## goal"@) || mentions(content, raw, "### goal"@)) {
        lemma_all_findings_has(os, 2);
    } else {
        assert forall|i: int| 0 <= i < review_spec(content, raw, strict).len() implies (
        #[trigger] review_spec(content, raw, strict)[i]).section != "Objectives"@ by {
            lemma_all_findings_from(os, i);
            let k = choose|k: int| 0 <= k < os.len() && os[k] == Some(all_findings(os)[i]);
            if k != 2 {
                lemma_section_of_objectives_is_its_own(content, raw, strict, k);
            }
        }
    }
}

proof fn lemma_section_of_scope_is_its_own(content: Seq<char>, raw: Seq<char>, strict: bool, k: int)
    requires
        0 <= k < 16,
        k != 3,
    ensures
        rule_outcomes(content, raw, strict)[k] matches Some(f) ==> f.section != "Scope"@,
{
    reveal_strlit("Scope");
    assert("Acceptance Criteria"@ != "Scope"@) by {
        reveal_strlit("Acceptance Criteria");
        assert("Acceptance Criteria"@.len() != "Scope"@.len());
    }
    assert("Background & Problem Statement"@ != "Scope"@) by {
        reveal_strlit("Background & Problem Statement");
        assert("Background & Problem Statement"@.len() != "Scope"@.len());
    }
    assert("Design Reference"@ != "Scope"@) by {
        reveal_strlit("Design Reference");
        assert("Design Reference"@.len() != "Scope"@.len());
    }
    assert("Design-Rule Linkage"@ != "Scope"@) by {
        reveal_strlit("Design-Rule Linkage");
        assert("Design-Rule Linkage"@.len() != "Scope"@.len());
    }
    assert("Event Tracking"@ != "Scope"@) by {
        reveal_strlit("Event Tracking");
        assert("Event Tracking"@.len() != "Scope"@.len());
    }
    assert("Feature Sections"@ != "Scope"@) by {
        reveal_strlit("Feature Sections");
        assert("Feature Sections"@.len() != "Scope"@.len());
    }
    assert("General Rules"@ != "Scope"@) by {
        reveal_strlit("General Rules");
        assert("General Rules"@.len() != "Scope"@.len());
    }
    assert("LCMP Keys"@ != "Scope"@) by {
        reveal_strlit("LCMP Keys");
        assert("LCMP Keys"@.len() != "Scope"@.len());
    }
    assert("Metadata"@ != "Scope"@) by {
        reveal_strlit("Metadata");
        assert("Metadata"@.len() != "Scope"@.len());
    }
    assert("Objectives"@ != "Scope"@) by {
        reveal_strlit("Objectives");
        assert("Objectives"@.len() != "Scope"@.len());
    }
    assert("Related PRDs"@ != "Scope"@) by {
        reveal_strlit("Related PRDs");
        assert("Related PRDs"@.len() != "Scope"@.len());
    }
    assert("Requirements Clarity"@ != "Scope"@) by {
        reveal_strlit("Requirements Clarity");
        assert("Requirements Clarity"@.len() != "Scope"@.len());
    }
    assert("Success Metrics"@ != "Scope"@) by {
        reveal_strlit("Success Metrics");
        assert("Success Metrics"@.len() != "Scope"@.len());
    }
    assert("Technical Docs / API Contract"@ != "Scope"@) by {
        reveal_strlit("Technical Docs / API Contract");
        assert("Technical Docs / API Contract"@.len() != "Scope"@.len());
    }
    assert("User Flows"@ != "Scope"@) by {
        reveal_strlit("User Flows");
        assert("User Flows"@.len() != "Scope"@.len());
    }
    let os = rule_outcomes(content, raw, strict);
    if k == 0 {
        assert(os[0] == rule_outcomes(content, raw, strict)[0]);
    }
    if k == 1 {
        assert(os[1] == rule_outcomes(content, raw, strict)[1]);
    }
    if k == 2 {
        assert(os[2] == rule_outcomes(content, raw, strict)[2]);
    }
    if k == 4 {
        assert(os[4] == rule_outcomes(content, raw, strict)[4]);
    }
    if k == 5 {
        assert(os[5] == rule_outcomes(content, raw, strict)[5]);
    }
    if k == 6 {
        assert(os[6] == rule_outcomes(content, raw, strict)[6]);
    }
    if k == 7 {
        assert(os[7] == rule_outcomes(content, raw, strict)[7]);
    }
    if k == 8 {
        assert(os[8] == rule_outcomes(content, raw, strict)[8]);
    }
    if k == 9 {
        assert(os[9] == rule_outcomes(content, raw, strict)[9]);
    }
    if k == 10 {
        assert(os[10] == rule_outcomes(content, raw, strict)[10]);
    }
    if k == 11 {
        assert(os[11] == rule_outcomes(content, raw, strict)[11]);
    }
    if k == 12 {
        assert(os[12] == rule_outcomes(content, raw, strict)[12]);
    }
    if k == 13 {
        assert(os[13] == rule_outcomes(content, raw, strict)[13]);
    }
    if k == 14 {
        assert(os[14] == rule_outcomes(content, raw, strict)[14]);
    }
    if k == 15 {
        assert(os[15] == rule_outcomes(content, raw, strict)[15]);
    }
}

/// The Scope rule: where the texts mention none of its markers the
/// review has its finding (8 points, 3 when relaxed); where they mention one, the review
/// has no Scope finding at all.
pub proof fn law_scope_rule(content: Seq<char>, raw: Seq<char>, strict: bool)
    ensures
        !(mentions(content, raw, "## scope"@) || mentions(content, raw, "### scope"@) || mentions(content, raw, "# scope"@) || mentions(content, raw, "scope requirement"@) || mentions(content, raw, "in scope"@) || mentions(content, raw, "out of scope"@) || mentions(content, raw, "in-scope"@) || mentions(content, raw, "out-of-scope"@)) ==> review_spec(content, raw, strict).contains(
            FindingModel {
                severity: if strict { Severity::Missing } else { Severity::Incomplete },
                section: "Scope"@,
                points: if strict { 8 } else { 3 },
                message: "No scope section found. Add In Scope / Out of Scope to prevent scope creep and set clear boundaries for engineering."@,
            },
        ),
        (mentions(content, raw, "## scope"@) || mentions(content, raw, "### scope"@) || mentions(content, raw, "# scope"@) || mentions(content, raw, "scope requirement"@) || mentions(content, raw, "in scope"@) || mentions(content, raw, "out of scope"@) || mentions(content, raw, "in-scope"@) || mentions(content, raw, "out-of-scope"@)) ==> forall|i: int|
            0 <= i < review_spec(content, raw, strict).len() ==> (#[trigger] review_spec(
                content,
                raw,
                strict,
            )[i]).section != "Scope"@,
{
    lemma_review_is_all_findings(content, raw, strict);
    let os = rule_outcomes(content, raw, strict);
    assert(os[3] == scope_rule(lowercase(content), lowercase(raw), strict));
    if !(mentions(content, raw, "## scope"@) || mentions(content, raw, "### scope"@) || mentions(content, raw, "# scope"@) || mentions(content, raw, "scope requirement"@) || mentions(content, raw, "in scope"@) || mentions(content, raw, "out of scope"@) || mentions(content, raw, "in-scope"@) || mentions(content, raw, "out-of-scope"@)) {
        lemma_all_findings_has(os, 3);
    } else {
        assert forall|i: int| 0 <= i < review_spec(content, raw, strict).len() implies (
        #[trigger] review_spec(content, raw, strict)[i]).section != "Scope"@ by {
            lemma_all_findings_from(os, i);
            let k = choose|k: int| 0 <= k < os.len() && os[k] == Some(all_findings(os)[i]);
            if k != 3 {
                lemma_section_of_scope_is_its_own(content, raw, strict, k);
            }
        }
    }
}

proof fn lemma_section_of_general_rules_is_its_own(content: Seq<char>, raw: Seq<char>, strict: bool, k: int)
    requires
        0 <= k < 16,
        k != 4,
    ensures
        rule_outcomes(content, raw, strict)[k] matches Some(f) ==> f.section != "General Rules"@,
{
    reveal_strlit("General Rules");
    assert("Acceptance Criteria"@ != "General Rules"@) by {
        reveal_strlit("Acceptance Criteria");
        assert("Acceptance Criteria"@.len() != "General Rules"@.len());
    }
    assert("Background & Problem Statement"@ != "General Rules"@) by {
        reveal_strlit("Background & Problem Statement");
        assert("Background & Problem Statement"@.len() != "General Rules"@.len());
    }
    assert("Design Reference"@ != "General Rules"@) by {
        reveal_strlit("Design Reference");
        assert("Design Reference"@.len() != "General Rules"@.len());
    }
    assert("Design-Rule Linkage"@ != "General Rules"@) by {
        reveal_strlit("Design-Rule Linkage");
        assert("Design-Rule Linkage"@.len() != "General Rules"@.len());
    }
    assert("Event Tracking"@ != "General Rules"@) by {
        reveal_strlit("Event Tracking");
        assert("Event Tracking"@.len() != "General Rules"@.len());
    }
    assert("Feature Sections"@ != "General Rules"@) by {
        reveal_strlit("Feature Sections");
        assert("Feature Sections"@.len() != "General Rules"@.len());
    }
    assert("LCMP Keys"@ != "General Rules"@) by {
        reveal_strlit("LCMP Keys");
        assert("LCMP Keys"@.len() != "General Rules"@.len());
    }
    assert("Metadata"@ != "General Rules"@) by {
        reveal_strlit("Metadata");
        assert("Metadata"@.len() != "General Rules"@.len());
    }
    assert("Objectives"@ != "General Rules"@) by {
        reveal_strlit("Objectives");
        assert("Objectives"@.len() != "General Rules"@.len());
    }
    assert("Related PRDs"@ != "General Rules"@) by {
        reveal_strlit("Related PRDs");
        assert("Related PRDs"@.len() != "General Rules"@.len());
    }
    assert("Requirements Clarity"@ != "General Rules"@) by {
        reveal_strlit("Requirements Clarity");
        assert("Requirements Clarity"@.len() != "General Rules"@.len());
    }
    assert("Scope"@ != "General Rules"@) by {
        reveal_strlit("Scope");
        assert("Scope"@.len() != "General Rules"@.len());
    }
    assert("Success Metrics"@ != "General Rules"@) by {
        reveal_strlit("Success Metrics");
        assert("Success Metrics"@.len() != "General Rules"@.len());
    }
    assert("Technical Docs / API Contract"@ != "General Rules"@) by {
        reveal_strlit("Technical Docs / API Contract");
        assert("Technical Docs / API Contract"@.len() != "General Rules"@.len());
    }
    assert("User Flows"@ != "General Rules"@) by {
        reveal_strlit("User Flows");
        assert("User Flows"@.len() != "General Rules"@.len());
    }
    let os = rule_outcomes(content, raw, strict);
    if k == 0 {
        assert(os[0] == rule_outcomes(content, raw, strict)[0]);
    }
    if k == 1 {
        assert(os[1] == rule_outcomes(content, raw, strict)[1]);
    }
    if k == 2 {
        assert(os[2] == rule_outcomes(content, raw, strict)[2]);
    }
    if k == 3 {
        assert(os[3] == rule_outcomes(content, raw, strict)[3]);
    }
    if k == 5 {
        assert(os[5] == rule_outcomes(content, raw, strict)[5]);
    }
    if k == 6 {
        assert(os[6] == rule_outcomes(content, raw, strict)[6]);
    }
    if k == 7 {
        assert(os[7] == rule_outcomes(content, raw, strict)[7]);
    }
    if k == 8 {
        assert(os[8] == rule_outcomes(content, raw, strict)[8]);
    }
    if k == 9 {
        assert(os[9] == rule_outcomes(content, raw, strict)[9]);
    }
    if k == 10 {
        assert(os[10] == rule_outcomes(content, raw, strict)[10]);
    }
    if k == 11 {
        assert(os[11] == rule_outcomes(content, raw, strict)[11]);
    }
    if k == 12 {
        assert(os[12] == rule_outcomes(content, raw, strict)[12]);
    }
    if k == 13 {
        assert(os[13] == rule_outcomes(content, raw, strict)[13]);
    }
    if k == 14 {
        assert(os[14] == rule_outcomes(content, raw, strict)[14]);
    }
    if k == 15 {
        assert(os[15] == rule_outcomes(content, raw, strict)[15]);
    }
}

/// The General Rules rule: where the texts mention none of its markers the
/// review has its finding (5 points, 2 when relaxed); where they mention one, the review
/// has no General Rules finding at all.
pub proof fn law_general_rules_rule(content: Seq<char>, raw: Seq<char>, strict: bool)
    ensures
        !(mentions(content, raw, "general rule"@) || mentions(content, raw, "## constraint"@) || mentions(content, raw, "universal rule"@) || mentions(content, raw, "# general rules"@) || mentions(content, raw, "## rule"@) || mentions(content, raw, "### rule"@)) ==> review_spec(content, raw, strict).contains(
            FindingModel {
                severity: Severity::Incomplete,
                section: "General Rules"@,
                points: if strict { 5 } else { 2 },
                message: "No general rules section. Add performance requirements, data freshness, platform constraints."@,
            },
        ),
        (mentions(content, raw, "general rule"@) || mentions(content, raw, "## constraint"@) || mentions(content, raw, "universal rule"@) || mentions(content, raw, "# general rules"@) || mentions(content, raw, "## rule"@) || mentions(content, raw, "### rule"@)) ==> forall|i: int|
            0 <= i < review_spec(content, raw, strict).len() ==> (#[trigger] review_spec(
                content,
                raw,
                strict,
            )[i]).section != "General Rules"@,
{
    lemma_review_is_all_findings(content, raw, strict);
    let os = rule_outcomes(content, raw, strict);
    assert(os[4] == general_rules_rule(lowercase(content), lowercase(raw), strict));
    if !(mentions(content, raw, "general rule"@) || mentions(content, raw, "## constraint"@) || mentions(content, raw, "universal rule"@) || mentions(content, raw, "# general rules"@) || mentions(content, raw, "## rule"@) || mentions(content, raw, "### rule"@)) {
        lemma_all_findings_has(os, 4);
    } else {
        assert forall|i: int| 0 <= i < review_spec(content, raw, strict).len() implies (
        #[trigger] review_spec(content, raw, strict)[i]).section != "General Rules"@ by {
            lemma_all_findings_from(os, i);
            let k = choose|k: int| 0 <= k < os.len() && os[k] == Some(all_findings(os)[i]);
            if k != 4 {
                lemma_section_of_general_rules_is_its_own(content, raw, strict, k);
            }
        }
    }
}

proof fn lemma_section_of_user_flows_is_its_own(content: Seq<char>, raw: Seq<char>, strict: bool, k: int)
    requires
        0 <= k < 16,
        k != 8,
    ensures
        rule_outcomes(content, raw, strict)[k] matches Some(f) ==> f.section != "User Flows"@,
{
    reveal_strlit("User Flows");
    assert("Acceptance Criteria"@ != "User Flows"@) by {
        reveal_strlit("Acceptance Criteria");
        assert("Acceptance Criteria"@.len() != "User Flows"@.len());
    }
    assert("Background & Problem Statement"@ != "User Flows"@) by {
        reveal_strlit("Background & Problem Statement");
        assert("Background & Problem Statement"@.len() != "User Flows"@.len());
    }
    assert("Design Reference"@ != "User Flows"@) by {
        reveal_strlit("Design Reference");
        assert("Design Reference"@.len() != "User Flows"@.len());
    }
    assert("Design-Rule Linkage"@ != "User Flows"@) by {
        reveal_strlit("Design-Rule Linkage");
        assert("Design-Rule Linkage"@.len() != "User Flows"@.len());
    }
    assert("Event Tracking"@ != "User Flows"@) by {
        reveal_strlit("Event Tracking");
        assert("Event Tracking"@.len() != "User Flows"@.len());
    }
    assert("Feature Sections"@ != "User Flows"@) by {
        reveal_strlit("Feature Sections");
        assert("Feature Sections"@.len() != "User Flows"@.len());
    }
    assert("General Rules"@ != "User Flows"@) by {
        reveal_strlit("General Rules");
        assert("General Rules"@.len() != "User Flows"@.len());
    }
    assert("LCMP Keys"@ != "User Flows"@) by {
        reveal_strlit("LCMP Keys");
        assert("LCMP Keys"@.len() != "User Flows"@.len());
    }
    assert("Metadata"@ != "User Flows"@) by {
        reveal_strlit("Metadata");
        assert("Metadata"@.len() != "User Flows"@.len());
    }
    assert("Objectives"@ != "User Flows"@) by {
        reveal_strlit("Objectives");
        assert("Objectives"@[0] != "User Flows"@[0]);
    }
    assert("Related PRDs"@ != "User Flows"@) by {
        reveal_strlit("Related PRDs");
        assert("Related PRDs"@.len() != "User Flows"@.len());
    }
    assert("Requirements Clarity"@ != "User Flows"@) by {
        reveal_strlit("Requirements Clarity");
        assert("Requirements Clarity"@.len() != "User Flows"@.len());
    }
    assert("Scope"@ != "User Flows"@) by {
        reveal_strlit("Scope");
        assert("Scope"@.len() != "User Flows"@.len());
    }
    assert("Success Metrics"@ != "User Flows"@) by {
        reveal_strlit("Success Metrics");
        assert("Success Metrics"@.len() != "User Flows"@.len());
    }
    assert("Technical Docs / API Contract"@ != "User Flows"@) by {
        reveal_strlit("Technical Docs / API Contract");
        assert("Technical Docs / API Contract"@.len() != "User Flows"@.len());
    }
    let os = rule_outcomes(content, raw, strict);
    if k == 0 {
        assert(os[0] == rule_outcomes(content, raw, strict)[0]);
    }
    if k == 1 {
        assert(os[1] == rule_outcomes(content, raw, strict)[1]);
    }
    if k == 2 {
        assert(os[2] == rule_outcomes(content, raw, strict)[2]);
    }
    if k == 3 {
        assert(os[3] == rule_outcomes(content, raw, strict)[3]);
    }
    if k == 4 {
        assert(os[4] == rule_outcomes(content, raw, strict)[4]);
    }
    if k == 5 {
        assert(os[5] == rule_outcomes(content, raw, strict)[5]);
    }
    if k == 6 {
        assert(os[6] == rule_outcomes(content, raw, strict)[6]);
    }
    if k == 7 {
        assert(os[7] == rule_outcomes(content, raw, strict)[7]);
    }
    if k == 9 {
        assert(os[9] == rule_outcomes(content, raw, strict)[9]);
    }
    if k == 10 {
        assert(os[10] == rule_outcomes(content, raw, strict)[10]);
    }
    if k == 11 {
        assert(os[11] == rule_outcomes(content, raw, strict)[11]);
    }
    if k == 12 {
        assert(os[12] == rule_outcomes(content, raw, strict)[12]);
    }
    if k == 13 {
        assert(os[13] == rule_outcomes(content, raw, strict)[13]);
    }
    if k == 14 {
        assert(os[14] == rule_outcomes(content, raw, strict)[14]);
    }
    if k == 15 {
        assert(os[15] == rule_outcomes(content, raw, strict)[15]);
    }
}

/// The User Flows rule: where the texts mention none of its markers the
/// review has its finding (8 points, 5 when relaxed); where they mention one, the review
/// has no User Flows finding at all.
pub proof fn law_user_flows_rule(content: Seq<char>, raw: Seq<char>, strict: bool)
    ensures
        !(mentions(content, raw, "user flow"@) || mentions(content, raw, "user journey"@) || mentions(content, raw, "entry point"@) || mentions(content, raw, "happy path"@) || mentions(content, raw, "## flow"@) || mentions(content, raw, "behavior flow"@) || (mentions(content, raw, "stage"@) && mentions(content, raw, "interaction"@))) ==> review_spec(content, raw, strict).contains(
            FindingModel {
                severity: if strict { Severity::Missing } else { Severity::Incomplete },
                section: "User Flows"@,
                points: if strict { 8 } else { 5 },
                message: "No user flow section found. Add entry points, happy path, and failure/edge paths."@,
            },
        ),
        (mentions(content, raw, "user flow"@) || mentions(content, raw, "user journey"@) || mentions(content, raw, "entry point"@) || mentions(content, raw, "happy path"@) || mentions(content, raw, "## flow"@) || mentions(content, raw, "behavior flow"@) || (mentions(content, raw, "stage"@) && mentions(content, raw, "interaction"@))) ==> forall|i: int|
            0 <= i < review_spec(content, raw, strict).len() ==> (#[trigger] review_spec(
                content,
                raw,
                strict,
            )[i]).section != "User Flows"@,
{
    lemma_review_is_all_findings(content, raw, strict);
    let os = rule_outcomes(content, raw, strict);
    assert(os[8] == user_flows_rule(lowercase(content), lowercase(raw), strict));
    if !(mentions(content, raw, "user flow"@) || mentions(content, raw, "user journey"@) || mentions(content, raw, "entry point"@) || mentions(content, raw, "happy path"@) || mentions(content, raw, "## flow"@) || mentions(content, raw, "behavior flow"@) || (mentions(content, raw, "stage"@) && mentions(content, raw, "interaction"@))) {
        lemma_all_findings_has(os, 8);
    } else {
        assert forall|i: int| 0 <= i < review_spec(content, raw, strict).len() implies (
        #[trigger] review_spec(content, raw, strict)[i]).section != "User Flows"@ by {
            lemma_all_findings_from(os, i);
            let k = choose|k: int| 0 <= k < os.len() && os[k] == Some(all_findings(os)[i]);
            if k != 8 {
                lemma_section_of_user_flows_is_its_own(content, raw, strict, k);
            }
        }
    }
}

proof fn lemma_section_of_tech_docs_is_its_own(content: Seq<char>, raw: Seq<char>, strict: bool, k: int)
    requires
        0 <= k < 16,
        k != 9,
    ensures
        rule_outcomes(content, raw, strict)[k] matches Some(f) ==> f.section != "Technical Docs / API Contract"@,
{
    reveal_strlit("Technical Docs / API Contract");
    assert("Acceptance Criteria"@ != "Technical Docs / API Contract"@) by {
        reveal_strlit("Acceptance Criteria");
        assert("Acceptance Criteria"@.len() != "Technical Docs / API Contract"@.len());
    }
    assert("Background & Problem Statement"@ != "Technical Docs / API Contract"@) by {
        reveal_strlit("Background & Problem Statement");
        assert("Background & Problem Statement"@.len() != "Technical Docs / API Contract"@.len());
    }
    assert("Design Reference"@ != "Technical Docs / API Contract"@) by {
        reveal_strlit("Design Reference");
        assert("Design Reference"@.len() != "Technical Docs / API Contract"@.len());
    }
    assert("Design-Rule Linkage"@ != "Technical Docs / API Contract"@) by {
        reveal_strlit("Design-Rule Linkage");
        assert("Design-Rule Linkage"@.len() != "Technical Docs / API Contract"@.len());
    }
    assert("Event Tracking"@ != "Technical Docs / API Contract"@) by {
        reveal_strlit("Event Tracking");
        assert("Event Tracking"@.len() != "Technical Docs / API Contract"@.len());
    }
    assert("Feature Sections"@ != "Technical Docs / API Contract"@) by {
        reveal_strlit("Feature Sections");
        assert("Feature Sections"@.len() != "Technical Docs / API Contract"@.len());
    }
    assert("General Rules"@ != "Technical Docs / API Contract"@) by {
        reveal_strlit("General Rules");
        assert("General Rules"@.len() != "Technical Docs / API Contract"@.len());
    }
    assert("LCMP Keys"@ != "Technical Docs / API Contract"@) by {
        reveal_strlit("LCMP Keys");
        assert("LCMP Keys"@.len() != "Technical Docs / API Contract"@.len());
    }
    assert("Metadata"@ != "Technical Docs / API Contract"@) by {
        reveal_strlit("Metadata");
        assert("Metadata"@.len() != "Technical Docs / API Contract"@.len());
    }
    assert("Objectives"@ != "Technical Docs / API Contract"@) by {
        reveal_strlit("Objectives");
        assert("Objectives"@.len() != "Technical Docs / API Contract"@.len());
    }
    assert("Related PRDs"@ != "Technical Docs / API Contract"@) by {
        reveal_strlit("Related PRDs");
        assert("Related PRDs"@.len() != "Technical Docs / API Contract"@.len());
    }
    assert("Requirements Clarity"@ != "Technical Docs / API Contract"@) by {
        reveal_strlit("Requirements Clarity");
        assert("Requirements Clarity"@.len() != "Technical Docs / API Contract"@.len());
    }
    assert("Scope"@ != "Technical Docs / API Contract"@) by {
        reveal_strlit("Scope");
        assert("Scope"@.len() != "Technical Docs / API Contract"@.len());
    }
    assert("Success Metrics"@ != "Technical Docs / API Contract"@) by {
        reveal_strlit("Success Metrics");
        assert("Success Metrics"@.len() != "Technical Docs / API Contract"@.len());
    }
    assert("User Flows"@ != "Technical Docs / API Contract"@) by {
        reveal_strlit("User Flows");
        assert("User Flows"@.len() != "Technical Docs / API Contract"@.len());
    }
    let os = rule_outcomes(content, raw, strict);
    if k == 0 {
        assert(os[0] == rule_outcomes(content, raw, strict)[0]);
    }
    if k == 1 {
        assert(os[1] == rule_outcomes(content, raw, strict)[1]);
    }
    if k == 2 {
        assert(os[2] == rule_outcomes(content, raw, strict)[2]);
    }
    if k == 3 {
        assert(os[3] == rule_outcomes(content, raw, strict)[3]);
    }
    if k == 4 {
        assert(os[4] == rule_outcomes(content, raw, strict)[4]);
    }
    if k == 5 {
        assert(os[5] == rule_outcomes(content, raw, strict)[5]);
    }
    if k == 6 {
        assert(os[6] == rule_outcomes(content, raw, strict)[6]);
    }
    if k == 7 {
        assert(os[7] == rule_outcomes(content, raw, strict)[7]);
    }
    if k == 8 {
        assert(os[8] == rule_outcomes(content, raw, strict)[8]);
    }
    if k == 10 {
        assert(os[10] == rule_outcomes(content, raw, strict)[10]);
    }
    if k == 11 {
        assert(os[11] == rule_outcomes(content, raw, strict)[11]);
    }
    if k == 12 {
        assert(os[12] == rule_outcomes(content, raw, strict)[12]);
    }
    if k == 13 {
        assert(os[13] == rule_outcomes(content, raw, strict)[13]);
    }
    if k == 14 {
        assert(os[14] == rule_outcomes(content, raw, strict)[14]);
    }
    if k == 15 {
        assert(os[15] == rule_outcomes(content, raw, strict)[15]);
    }
}

/// The Technical Docs / API Contract rule: where the texts mention none of its markers the
/// review has its finding (8 points, 3 when relaxed); where they mention one, the review
/// has no Technical Docs / API Contract finding at all.
pub proof fn law_tech_docs_rule(content: Seq<char>, raw: Seq<char>, strict: bool)
    ensures
        !(mentions(content, raw, "api contract"@) || mentions(content, raw, "api endpoint"@) || mentions(content, raw, "sequence diagram"@) || mentions(content, raw, "## technical"@) || mentions(content, raw, "### technical"@) || mentions(content, raw, "## api"@) || mentions(content, raw, "## be requirement"@) || mentions(content, raw, "# be requirement"@) || mentions(content, raw, "backend spec"@) || mentions(content, raw, "data model"@) || mentions(content, raw, "deeplink"@) || mentions(content, raw, "rest api"@) || mentions(content, raw, "websocket"@)) ==> review_spec(content, raw, strict).contains(
            FindingModel {
                severity: if strict { Severity::Missing } else { Severity::Incomplete },
                section: "Technical Docs / API Contract"@,
                points: if strict { 8 } else { 3 },
                message: "No technical documentation found. Add API contracts, data models, or backend specs for engineering integration."@,
            },
        ),
        (mentions(content, raw, "api contract"@) || mentions(content, raw, "api endpoint"@) || mentions(content, raw, "sequence diagram"@) || mentions(content, raw, "## technical"@) || mentions(content, raw, "### technical"@) || mentions(content, raw, "## api"@) || mentions(content, raw, "## be requirement"@) || mentions(content, raw, "# be requirement"@) || mentions(content, raw, "backend spec"@) || mentions(content, raw, "data model"@) || mentions(content, raw, "deeplink"@) || mentions(content, raw, "rest api"@) || mentions(content, raw, "websocket"@)) ==> forall|i: int|
            0 <= i < review_spec(content, raw, strict).len() ==> (#[trigger] review_spec(
                content,
                raw,
                strict,
            )[i]).section != "Technical Docs / API Contract"@,
{
    lemma_review_is_all_findings(content, raw, strict);
    let os = rule_outcomes(content, raw, strict);
    assert(os[9] == tech_docs_rule(lowercase(content), lowercase(raw), strict));
    if !(mentions(content, raw, "api contract"@) || mentions(content, raw, "api endpoint"@) || mentions(content, raw, "sequence diagram"@) || mentions(content, raw, "## technical"@) || mentions(content, raw, "### technical"@) || mentions(content, raw, "## api"@) || mentions(content, raw, "## be requirement"@) || mentions(content, raw, "# be requirement"@) || mentions(content, raw, "backend spec"@) || mentions(content, raw, "data model"@) || mentions(content, raw, "deeplink"@) || mentions(content, raw, "rest api"@) || mentions(content, raw, "websocket"@)) {
        lemma_all_findings_has(os, 9);
    } else {
        assert forall|i: int| 0 <= i < review_spec(content, raw, strict).len() implies (
        #[trigger] review_spec(content, raw, strict)[i]).section != "Technical Docs / API Contract"@ by {
            lemma_all_findings_from(os, i);
            let k = choose|k: int| 0 <= k < os.len() && os[k] == Some(all_findings(os)[i]);
            if k != 9 {
                lemma_section_of_tech_docs_is_its_own(content, raw, strict, k);
            }
        }
    }
}

proof fn lemma_section_of_event_tracking_is_its_own(content: Seq<char>, raw: Seq<char>, strict: bool, k: int)
    requires
        0 <= k < 16,
        k != 10,
    ensures
        rule_outcomes(content, raw, strict)[k] matches Some(f) ==> f.section != "Event Tracking"@,
{
    reveal_strlit("Event Tracking");
    assert("Acceptance Criteria"@ != "Event Tracking"@) by {
        reveal_strlit("Acceptance Criteria");
        assert("Acceptance Criteria"@.len() != "Event Tracking"@.len());
    }
    assert("Background & Problem Statement"@ != "Event Tracking"@) by {
        reveal_strlit("Background & Problem Statement");
        assert("Background & Problem Statement"@.len() != "Event Tracking"@.len());
    }
    assert("Design Reference"@ != "Event Tracking"@) by {
        reveal_strlit("Design Reference");
        assert("Design Reference"@.len() != "Event Tracking"@.len());
    }
    assert("Design-Rule Linkage"@ != "Event Tracking"@) by {
        reveal_strlit("Design-Rule Linkage");
        assert("Design-Rule Linkage"@.len() != "Event Tracking"@.len());
    }
    assert("Feature Sections"@ != "Event Tracking"@) by {
        reveal_strlit("Feature Sections");
        assert("Feature Sections"@.len() != "Event Tracking"@.len());
    }
    assert("General Rules"@ != "Event Tracking"@) by {
        reveal_strlit("General Rules");
        assert("General Rules"@.len() != "Event Tracking"@.len());
    }
    assert("LCMP Keys"@ != "Event Tracking"@) by {
        reveal_strlit("LCMP Keys");
        assert("LCMP Keys"@.len() != "Event Tracking"@.len());
    }
    assert("Metadata"@ != "Event Tracking"@) by {
        reveal_strlit("Metadata");
        assert("Metadata"@.len() != "Event Tracking"@.len());
    }
    assert("Objectives"@ != "Event Tracking"@) by {
        reveal_strlit("Objectives");
        assert("Objectives"@.len() != "Event Tracking"@.len());
    }
    assert("Related PRDs"@ != "Event Tracking"@) by {
        reveal_strlit("Related PRDs");
        assert("Related PRDs"@.len() != "Event Tracking"@.len());
    }
    assert("Requirements Clarity"@ != "Event Tracking"@) by {
        reveal_strlit("Requirements Clarity");
        assert("Requirements Clarity"@.len() != "Event Tracking"@.len());
    }
    assert("Scope"@ != "Event Tracking"@) by {
        reveal_strlit("Scope");
        assert("Scope"@.len() != "Event Tracking"@.len());
    }
    assert("Success Metrics"@ != "Event Tracking"@) by {
        reveal_strlit("Success Metrics");
        assert("Success Metrics"@.len() != "Event Tracking"@.len());
    }
    assert("Technical Docs / API Contract"@ != "Event Tracking"@) by {
        reveal_strlit("Technical Docs / API Contract");
        assert("Technical Docs / API Contract"@.len() != "Event Tracking"@.len());
    }
    assert("User Flows"@ != "Event Tracking"@) by {
        reveal_strlit("User Flows");
        assert("User Flows"@.len() != "Event Tracking"@.len());
    }
    let os = rule_outcomes(content, raw, strict);
    if k == 0 {
        assert(os[0] == rule_outcomes(content, raw, strict)[0]);
    }
    if k == 1 {
        assert(os[1] == rule_outcomes(content, raw, strict)[1]);
    }
    if k == 2 {
        assert(os[2] == rule_outcomes(content, raw, strict)[2]);
    }
    if k == 3 {
        assert(os[3] == rule_outcomes(content, raw, strict)[3]);
    }
    if k == 4 {
        assert(os[4] == rule_outcomes(content, raw, strict)[4]);
    }
    if k == 5 {
        assert(os[5] == rule_outcomes(content, raw, strict)[5]);
    }
    if k == 6 {
        assert(os[6] == rule_outcomes(content, raw, strict)[6]);
    }
    if k == 7 {
        assert(os[7] == rule_outcomes(content, raw, strict)[7]);
    }
    if k == 8 {
        assert(os[8] == rule_outcomes(content, raw, strict)[8]);
    }
    if k == 9 {
        assert(os[9] == rule_outcomes(content, raw, strict)[9]);
    }
    if k == 11 {
        assert(os[11] == rule_outcomes(content, raw, strict)[11]);
    }
    if k == 12 {
        assert(os[12] == rule_outcomes(content, raw, strict)[12]);
    }
    if k == 13 {
        assert(os[13] == rule_outcomes(content, raw, strict)[13]);
    }
    if k == 14 {
        assert(os[14] == rule_outcomes(content, raw, strict)[14]);
    }
    if k == 15 {
        assert(os[15] == rule_outcomes(content, raw, strict)[15]);
    }
}

/// The Event Tracking rule: where the texts mention none of its markers the
/// review has its finding (3 points); where they mention one, the review
/// has no Event Tracking finding at all.
pub proof fn law_event_tracking_rule(content: Seq<char>, raw: Seq<char>, strict: bool)
    ensures
        !(mentions(content, raw, "event tracking"@) || mentions(content, raw, "analytics"@) || mentions(content, raw, "## event"@) || mentions(content, raw, "| event"@) || mentions(content, raw, "_viewed"@) || mentions(content, raw, "_clicked"@)) ==> review_spec(content, raw, strict).contains(
            FindingModel {
                severity: Severity::Incomplete,
                section: "Event Tracking"@,
                points: 3,
                message: "No event tracking section. Add analytics events table (Event Name / Trigger / Properties)."@,
            },
        ),
        (mentions(content, raw, "event tracking"@) || mentions(content, raw, "analytics"@) || mentions(content, raw, "## event"@) || mentions(content, raw, "| event"@) || mentions(content, raw, "_viewed"@) || mentions(content, raw, "_clicked"@)) ==> forall|i: int|
            0 <= i < review_spec(content, raw, strict).len() ==> (#[trigger] review_spec(
                content,
                raw,
                strict,
            )[i]).section != "Event Tracking"@,
{
    lemma_review_is_all_findings(content, raw, strict);
    let os = rule_outcomes(content, raw, strict);
    assert(os[10] == event_tracking_rule(lowercase(content), lowercase(raw), strict));
    if !(mentions(content, raw, "event tracking"@) || mentions(content, raw, "analytics"@) || mentions(content, raw, "## event"@) || mentions(content, raw, "| event"@) || mentions(content, raw, "_viewed"@) || mentions(content, raw, "_clicked"@)) {
        lemma_all_findings_has(os, 10);
    } else {
        assert forall|i: int| 0 <= i < review_spec(content, raw, strict).len() implies (
        #[trigger] review_spec(content, raw, strict)[i]).section != "Event Tracking"@ by {
            lemma_all_findings_from(os, i);
            let k = choose|k: int| 0 <= k < os.len() && os[k] == Some(all_findings(os)[i]);
            if k != 10 {
                lemma_section_of_event_tracking_is_its_own(content, raw, strict, k);
            }
        }
    }
}

proof fn lemma_section_of_lcmp_is_its_own(content: Seq<char>, raw: Seq<char>, strict: bool, k: int)
    requires
        0 <= k < 16,
        k != 11,
    ensures
        rule_outcomes(content, raw, strict)[k] matches Some(f) ==> f.section != "LCMP Keys"@,
{
    reveal_strlit("LCMP Keys");
    assert("Acceptance Criteria"@ != "LCMP Keys"@) by {
        reveal_strlit("Acceptance Criteria");
        assert("Acceptance Criteria"@.len() != "LCMP Keys"@.len());
    }
    assert("Background & Problem Statement"@ != "LCMP Keys"@) by {
        reveal_strlit("Background & Problem Statement");
        assert("Background & Problem Statement"@.len() != "LCMP Keys"@.len());
    }
    assert("Design Reference"@ != "LCMP Keys"@) by {
        reveal_strlit("Design Reference");
        assert("Design Reference"@.len() != "LCMP Keys"@.len());
    }
    assert("Design-Rule Linkage"@ != "LCMP Keys"@) by {
        reveal_strlit("Design-Rule Linkage");
        assert("Design-Rule Linkage"@.len() != "LCMP Keys"@.len());
    }
    assert("Event Tracking"@ != "LCMP Keys"@) by {
        reveal_strlit("Event Tracking");
        assert("Event Tracking"@.len() != "LCMP Keys"@.len());
    }
    assert("Feature Sections"@ != "LCMP Keys"@) by {
        reveal_strlit("Feature Sections");
        assert("Feature Sections"@.len() != "LCMP Keys"@.len());
    }
    assert("General Rules"@ != "LCMP Keys"@) by {
        reveal_strlit("General Rules");
        assert("General Rules"@.len() != "LCMP Keys"@.len());
    }
    assert("Metadata"@ != "LCMP Keys"@) by {
        reveal_strlit("Metadata");
        assert("Metadata"@.len() != "LCMP Keys"@.len());
    }
    assert("Objectives"@ != "LCMP Keys"@) by {
        reveal_strlit("Objectives");
        assert("Objectives"@.len() != "LCMP Keys"@.len());
    }
    assert("Related PRDs"@ != "LCMP Keys"@) by {
        reveal_strlit("Related PRDs");
        assert("Related PRDs"@.len() != "LCMP Keys"@.len());
    }
    assert("Requirements Clarity"@ != "LCMP Keys"@) by {
        reveal_strlit("Requirements Clarity");
        assert("Requirements Clarity"@.len() != "LCMP Keys"@.len());
    }
    assert("Scope"@ != "LCMP Keys"@) by {
        reveal_strlit("Scope");
        assert("Scope"@.len() != "LCMP Keys"@.len());
    }
    assert("Success Metrics"@ != "LCMP Keys"@) by {
        reveal_strlit("Success Metrics");
        assert("Success Metrics"@.len() != "LCMP Keys"@.len());
    }
    assert("Technical Docs / API Contract"@ != "LCMP Keys"@) by {
        reveal_strlit("Technical Docs / API Contract");
        assert("Technical Docs / API Contract"@.len() != "LCMP Keys"@.len());
    }
    assert("User Flows"@ != "LCMP Keys"@) by {
        reveal_strlit("User Flows");
        assert("User Flows"@.len() != "LCMP Keys"@.len());
    }
    let os = rule_outcomes(content, raw, strict);
    if k == 0 {
        assert(os[0] == rule_outcomes(content, raw, strict)[0]);
    }
    if k == 1 {
        assert(os[1] == rule_outcomes(content, raw, strict)[1]);
    }
    if k == 2 {
        assert(os[2] == rule_outcomes(content, raw, strict)[2]);
    }
    if k == 3 {
        assert(os[3] == rule_outcomes(content, raw, strict)[3]);
    }
    if k == 4 {
        assert(os[4] == rule_outcomes(content, raw, strict)[4]);
    }
    if k == 5 {
        assert(os[5] == rule_outcomes(content, raw, strict)[5]);
    }
    if k == 6 {
        assert(os[6] == rule_outcomes(content, raw, strict)[6]);
    }
    if k == 7 {
        assert(os[7] == rule_outcomes(content, raw, strict)[7]);
    }
    if k == 8 {
        assert(os[8] == rule_outcomes(content, raw, strict)[8]);
    }
    if k == 9 {
        assert(os[9] == rule_outcomes(content, raw, strict)[9]);
    }
    if k == 10 {
        assert(os[10] == rule_outcomes(content, raw, strict)[10]);
    }
    if k == 12 {
        assert(os[12] == rule_outcomes(content, raw, strict)[12]);
    }
    if k == 13 {
        assert(os[13] == rule_outcomes(content, raw, strict)[13]);
    }
    if k == 14 {
        assert(os[14] == rule_outcomes(content, raw, strict)[14]);
    }
    if k == 15 {
        assert(os[15] == rule_outcomes(content, raw, strict)[15]);
    }
}

/// The LCMP Keys rule: where the texts mention none of its markers the
/// review has its finding (3 points); where they mention one, the review
/// has no LCMP Keys finding at all.
pub proof fn law_lcmp_rule(content: Seq<char>, raw: Seq<char>, strict: bool)
    ensures
        !(mentions(content, raw, "lcmp"@) || mentions(content, raw, "localization"@) || mentions(content, raw, "multilanguage"@) || mentions(content, raw, "| key | en |"@) || mentions(content, raw, "| key | id |"@)) ==> review_spec(content, raw, strict).contains(
            FindingModel {
                severity: Severity::Incomplete,
                section: "LCMP Keys"@,
                points: 3,
                message: "No LCMP keys or localization table. Add keys for all user-facing strings (Key / ID / EN / ZH)."@,
            },
        ),
        (mentions(content, raw, "lcmp"@) || mentions(content, raw, "localization"@) || mentions(content, raw, "multilanguage"@) || mentions(content, raw, "| key | en |"@) || mentions(content, raw, "| key | id |"@)) ==> forall|i: int|
            0 <= i < review_spec(content, raw, strict).len() ==> (#[trigger] review_spec(
                content,
                raw,
                strict,
            )[i]).section != "LCMP Keys"@,
{
    lemma_review_is_all_findings(content, raw, strict);
    let os = rule_outcomes(content, raw, strict);
    assert(os[11] == lcmp_rule(lowercase(content), lowercase(raw), strict));
    if !(mentions(content, raw, "lcmp"@) || mentions(content, raw, "localization"@) || mentions(content, raw, "multilanguage"@) || mentions(content, raw, "| key | en |"@) || mentions(content, raw, "| key | id |"@)) {
        lemma_all_findings_has(os, 11);
    } else {
        assert forall|i: int| 0 <= i < review_spec(content, raw, strict).len() implies (
        #[trigger] review_spec(content, raw, strict)[i]).section != "LCMP Keys"@ by {
            lemma_all_findings_from(os, i);
            let k = choose|k: int| 0 <= k < os.len() && os[k] == Some(all_findings(os)[i]);
            if k != 11 {
                lemma_section_of_lcmp_is_its_own(content, raw, strict, k);
            }
        }
    }
}

proof fn lemma_section_of_success_metrics_is_its_own(content: Seq<char>, raw: Seq<char>, strict: bool, k: int)
    requires
        0 <= k < 16,
        k != 12,
    ensures
        rule_outcomes(content, raw, strict)[k] matches Some(f) ==> f.section != "Success Metrics"@,
{
    reveal_strlit("Success Metrics");
    assert("Acceptance Criteria"@ != "Success Metrics"@) by {
        reveal_strlit("Acceptance Criteria");
        assert("Acceptance Criteria"@.len() != "Success Metrics"@.len());
    }
    assert("Background & Problem Statement"@ != "Success Metrics"@) by {
        reveal_strlit("Background & Problem Statement");
        assert("Background & Problem Statement"@.len() != "Success Metrics"@.len());
    }
    assert("Design Reference"@ != "Success Metrics"@) by {
        reveal_strlit("Design Reference");
        assert("Design Reference"@.len() != "Success Metrics"@.len());
    }
    assert("Design-Rule Linkage"@ != "Success Metrics"@) by {
        reveal_strlit("Design-Rule Linkage");
        assert("Design-Rule Linkage"@.len() != "Success Metrics"@.len());
    }
    assert("Event Tracking"@ != "Success Metrics"@) by {
        reveal_strlit("Event Tracking");
        assert("Event Tracking"@.len() != "Success Metrics"@.len());
    }
    assert("Feature Sections"@ != "Success Metrics"@) by {
        reveal_strlit("Feature Sections");
        assert("Feature Sections"@.len() != "Success Metrics"@.len());
    }
    assert("General Rules"@ != "Success Metrics"@) by {
        reveal_strlit("General Rules");
        assert("General Rules"@.len() != "Success Metrics"@.len());
    }
    assert("LCMP Keys"@ != "Success Metrics"@) by {
        reveal_strlit("LCMP Keys");
        assert("LCMP Keys"@.len() != "Success Metrics"@.len());
    }
    assert("Metadata"@ != "Success Metrics"@) by {
        reveal_strlit("Metadata");
        assert("Metadata"@.len() != "Success Metrics"@.len());
    }
    assert("Objectives"@ != "Success Metrics"@) by {
        reveal_strlit("Objectives");
        assert("Objectives"@.len() != "Success Metrics"@.len());
    }
    assert("Related PRDs"@ != "Success Metrics"@) by {
        reveal_strlit("Related PRDs");
        assert("Related PRDs"@.len() != "Success Metrics"@.len());
    }
    assert("Requirements Clarity"@ != "Success Metrics"@) by {
        reveal_strlit("Requirements Clarity");
        assert("Requirements Clarity"@.len() != "Success Metrics"@.len());
    }
    assert("Scope"@ != "Success Metrics"@) by {
        reveal_strlit("Scope");
        assert("Scope"@.len() != "Success Metrics"@.len());
    }
    assert("Technical Docs / API Contract"@ != "Success Metrics"@) by {
        reveal_strlit("Technical Docs / API Contract");
        assert("Technical Docs / API Contract"@.len() != "Success Metrics"@.len());
    }
    assert("User Flows"@ != "Success Metrics"@) by {
        reveal_strlit("User Flows");
        assert("User Flows"@.len() != "Success Metrics"@.len());
    }
    let os = rule_outcomes(content, raw, strict);
    if k == 0 {
        assert(os[0] == rule_outcomes(content, raw, strict)[0]);
    }
    if k == 1 {
        assert(os[1] == rule_outcomes(content, raw, strict)[1]);
    }
    if k == 2 {
        assert(os[2] == rule_outcomes(content, raw, strict)[2]);
    }
    if k == 3 {
        assert(os[3] == rule_outcomes(content, raw, strict)[3]);
    }
    if k == 4 {
        assert(os[4] == rule_outcomes(content, raw, strict)[4]);
    }
    if k == 5 {
        assert(os[5] == rule_outcomes(content, raw, strict)[5]);
    }
    if k == 6 {
        assert(os[6] == rule_outcomes(content, raw, strict)[6]);
    }
    if k == 7 {
        assert(os[7] == rule_outcomes(content, raw, strict)[7]);
    }
    if k == 8 {
        assert(os[8] == rule_outcomes(content, raw, strict)[8]);
    }
    if k == 9 {
        assert(os[9] == rule_outcomes(content, raw, strict)[9]);
    }
    if k == 10 {
        assert(os[10] == rule_outcomes(content, raw, strict)[10]);
    }
    if k == 11 {
        assert(os[11] == rule_outcomes(content, raw, strict)[11]);
    }
    if k == 13 {
        assert(os[13] == rule_outcomes(content, raw, strict)[13]);
    }
    if k == 14 {
        assert(os[14] == rule_outcomes(content, raw, strict)[14]);
    }
    if k == 15 {
        assert(os[15] == rule_outcomes(content, raw, strict)[15]);
    }
}

/// The Success Metrics rule: where the texts mention none of its markers the
/// review has its finding (5 points); where they mention one, the review
/// has no Success Metrics finding at all.
pub proof fn law_success_metrics_rule(content: Seq<char>, raw: Seq<char>, strict: bool)
    ensures
        !(mentions(content, raw, "success definition"@) || mentions(content, raw, "success metric"@) || mentions(content, raw, "## success"@) || mentions(content, raw, "### success"@) || mentions(content, raw, "kpi"@)) ==> review_spec(content, raw, strict).contains(
            FindingModel {
                severity: if strict { Severity::Missing } else { Severity::Incomplete },
                section: "Success Metrics"@,
                points: 5,
                message: "No success metrics found. Add primary and secondary KPIs to measure feature impact."@,
            },
        ),
        (mentions(content, raw, "success definition"@) || mentions(content, raw, "success metric"@) || mentions(content, raw, "## success"@) || mentions(content, raw, "### success"@) || mentions(content, raw, "kpi"@)) ==> forall|i: int|
            0 <= i < review_spec(content, raw, strict).len() ==> (#[trigger] review_spec(
                content,
                raw,
                strict,
            )[i]).section != "Success Metrics"@,
{
    lemma_review_is_all_findings(content, raw, strict);
    let os = rule_outcomes(content, raw, strict);
    assert(os[12] == success_metrics_rule(lowercase(content), lowercase(raw), strict));
    if !(mentions(content, raw, "success definition"@) || mentions(content, raw, "success metric"@) || mentions(content, raw, "## success"@) || mentions(content, raw, "### success"@) || mentions(content, raw, "kpi"@)) {
        lemma_all_findings_has(os, 12);
    } else {
        assert forall|i: int| 0 <= i < review_spec(content, raw, strict).len() implies (
        #[trigger] review_spec(content, raw, strict)[i]).section != "Success Metrics"@ by {
            lemma_all_findings_from(os, i);
            let k = choose|k: int| 0 <= k < os.len() && os[k] == Some(all_findings(os)[i]);
            if k != 12 {
                lemma_section_of_success_metrics_is_its_own(content, raw, strict, k);
            }
        }
    }
}

proof fn lemma_section_of_related_prds_is_its_own(content: Seq<char>, raw: Seq<char>, strict: bool, k: int)
    requires
        0 <= k < 16,
        k != 13,
    ensures
        rule_outcomes(content, raw, strict)[k] matches Some(f) ==> f.section != "Related PRDs"@,
{
    reveal_strlit("Related PRDs");
    assert("Acceptance Criteria"@ != "Related PRDs"@) by {
        reveal_strlit("Acceptance Criteria");
        assert("Acceptance Criteria"@.len() != "Related PRDs"@.len());
    }
    assert("Background & Problem Statement"@ != "Related PRDs"@) by {
        reveal_strlit("Background & Problem Statement");
        assert("Background & Problem Statement"@.len() != "Related PRDs"@.len());
    }
    assert("Design Reference"@ != "Related PRDs"@) by {
        reveal_strlit("Design Reference");
        assert("Design Reference"@.len() != "Related PRDs"@.len());
    }
    assert("Design-Rule Linkage"@ != "Related PRDs"@) by {
        reveal_strlit("Design-Rule Linkage");
        assert("Design-Rule Linkage"@.len() != "Related PRDs"@.len());
    }
    assert("Event Tracking"@ != "Related PRDs"@) by {
        reveal_strlit("Event Tracking");
        assert("Event Tracking"@.len() != "Related PRDs"@.len());
    }
    assert("Feature Sections"@ != "Related PRDs"@) by {
        reveal_strlit("Feature Sections");
        assert("Feature Sections"@.len() != "Related PRDs"@.len());
    }
    assert("General Rules"@ != "Related PRDs"@) by {
        reveal_strlit("General Rules");
        assert("General Rules"@.len() != "Related PRDs"@.len());
    }
    assert("LCMP Keys"@ != "Related PRDs"@) by {
        reveal_strlit("LCMP Keys");
        assert("LCMP Keys"@.len() != "Related PRDs"@.len());
    }
    assert("Metadata"@ != "Related PRDs"@) by {
        reveal_strlit("Metadata");
        assert("Metadata"@.len() != "Related PRDs"@.len());
    }
    assert("Objectives"@ != "Related PRDs"@) by {
        reveal_strlit("Objectives");
        assert("Objectives"@.len() != "Related PRDs"@.len());
    }
    assert("Requirements Clarity"@ != "Related PRDs"@) by {
        reveal_strlit("Requirements Clarity");
        assert("Requirements Clarity"@.len() != "Related PRDs"@.len());
    }
    assert("Scope"@ != "Related PRDs"@) by {
        reveal_strlit("Scope");
        assert("Scope"@.len() != "Related PRDs"@.len());
    }
    assert("Success Metrics"@ != "Related PRDs"@) by {
        reveal_strlit("Success Metrics");
        assert("Success Metrics"@.len() != "Related PRDs"@.len());
    }
    assert("Technical Docs / API Contract"@ != "Related PRDs"@) by {
        reveal_strlit("Technical Docs / API Contract");
        assert("Technical Docs / API Contract"@.len() != "Related PRDs"@.len());
    }
    assert("User Flows"@ != "Related PRDs"@) by {
        reveal_strlit("User Flows");
        assert("User Flows"@.len() != "Related PRDs"@.len());
    }
    let os = rule_outcomes(content, raw, strict);
    if k == 0 {
        assert(os[0] == rule_outcomes(content, raw, strict)[0]);
    }
    if k == 1 {
        assert(os[1] == rule_outcomes(content, raw, strict)[1]);
    }
    if k == 2 {
        assert(os[2] == rule_outcomes(content, raw, strict)[2]);
    }
    if k == 3 {
        assert(os[3] == rule_outcomes(content, raw, strict)[3]);
    }
    if k == 4 {
        assert(os[4] == rule_outcomes(content, raw, strict)[4]);
    }
    if k == 5 {
        assert(os[5] == rule_outcomes(content, raw, strict)[5]);
    }
    if k == 6 {
        assert(os[6] == rule_outcomes(content, raw, strict)[6]);
    }
    if k == 7 {
        assert(os[7] == rule_outcomes(content, raw, strict)[7]);
    }
    if k == 8 {
        assert(os[8] == rule_outcomes(content, raw, strict)[8]);
    }
    if k == 9 {
        assert(os[9] == rule_outcomes(content, raw, strict)[9]);
    }
    if k == 10 {
        assert(os[10] == rule_outcomes(content, raw, strict)[10]);
    }
    if k == 11 {
        assert(os[11] == rule_outcomes(content, raw, strict)[11]);
    }
    if k == 12 {
        assert(os[12] == rule_outcomes(content, raw, strict)[12]);
    }
    if k == 14 {
        assert(os[14] == rule_outcomes(content, raw, strict)[14]);
    }
    if k == 15 {
        assert(os[15] == rule_outcomes(content, raw, strict)[15]);
    }
}

/// The Related PRDs rule: where the texts mention none of its markers the
/// review has its finding (2 points); where they mention one, the review
/// has no Related PRDs finding at all.
pub proof fn law_related_prds_rule(content: Seq<char>, raw: Seq<char>, strict: bool)
    ensures
        !(mentions(content, raw, "related prd"@) || mentions(content, raw, "## related"@)) ==> review_spec(content, raw, strict).contains(
            FindingModel {
                severity: Severity::Suggestion,
                section: "Related PRDs"@,
                points: 2,
                message: "No related PRDs section. Consider linking dependent or related specifications."@,
            },
        ),
        (mentions(content, raw, "related prd"@) || mentions(content, raw, "## related"@)) ==> forall|i: int|
            0 <= i < review_spec(content, raw, strict).len() ==> (#[trigger] review_spec(
                content,
                raw,
                strict,
            )[i]).section != "Related PRDs"@,
{
    lemma_review_is_all_findings(content, raw, strict);
    let os = rule_outcomes(content, raw, strict);
    assert(os[13] == related_prds_rule(lowercase(content), lowercase(raw), strict));
    if !(mentions(content, raw, "related prd"@) || mentions(content, raw, "## related"@)) {
        lemma_all_findings_has(os, 13);
    } else {
        assert forall|i: int| 0 <= i < review_spec(content, raw, strict).len() implies (
        #[trigger] review_spec(content, raw, strict)[i]).section != "Related PRDs"@ by {
            lemma_all_findings_from(os, i);
            let k = choose|k: int| 0 <= k < os.len() && os[k] == Some(all_findings(os)[i]);
            if k != 13 {
                lemma_section_of_related_prds_is_its_own(content, raw, strict, k);
            }
        }
    }
}

proof fn lemma_section_of_metadata_is_its_own(content: Seq<char>, raw: Seq<char>, strict: bool, k: int)
    requires
        0 <= k < 16,
        k != 0,
    ensures
        rule_outcomes(content, raw, strict)[k] matches Some(f) ==> f.section != "Metadata"@,
{
    reveal_strlit("Metadata");
    assert("Acceptance Criteria"@ != "Metadata"@) by {
        reveal_strlit("Acceptance Criteria");
        assert("Acceptance Criteria"@.len() != "Metadata"@.len());
    }
    assert("Background & Problem Statement"@ != "Metadata"@) by {
        reveal_strlit("Background & Problem Statement");
        assert("Background & Problem Statement"@.len() != "Metadata"@.len());
    }
    assert("Design Reference"@ != "Metadata"@) by {
        reveal_strlit("Design Reference");
        assert("Design Reference"@.len() != "Metadata"@.len());
    }
    assert("Design-Rule Linkage"@ != "Metadata"@) by {
        reveal_strlit("Design-Rule Linkage");
        assert("Design-Rule Linkage"@.len() != "Metadata"@.len());
    }
    assert("Event Tracking"@ != "Metadata"@) by {
        reveal_strlit("Event Tracking");
        assert("Event Tracking"@.len() != "Metadata"@.len());
    }
    assert("Feature Sections"@ != "Metadata"@) by {
        reveal_strlit("Feature Sections");
        assert("Feature Sections"@.len() != "Metadata"@.len());
    }
    assert("General Rules"@ != "Metadata"@) by {
        reveal_strlit("General Rules");
        assert("General Rules"@.len() != "Metadata"@.len());
    }
    assert("LCMP Keys"@ != "Metadata"@) by {
        reveal_strlit("LCMP Keys");
        assert("LCMP Keys"@.len() != "Metadata"@.len());
    }
    assert("Objectives"@ != "Metadata"@) by {
        reveal_strlit("Objectives");
        assert("Objectives"@.len() != "Metadata"@.len());
    }
    assert("Related PRDs"@ != "Metadata"@) by {
        reveal_strlit("Related PRDs");
        assert("Related PRDs"@.len() != "Metadata"@.len());
    }
    assert("Requirements Clarity"@ != "Metadata"@) by {
        reveal_strlit("Requirements Clarity");
        assert("Requirements Clarity"@.len() != "Metadata"@.len());
    }
    assert("Scope"@ != "Metadata"@) by {
        reveal_strlit("Scope");
        assert("Scope"@.len() != "Metadata"@.len());
    }
    assert("Success Metrics"@ != "Metadata"@) by {
        reveal_strlit("Success Metrics");
        assert("Success Metrics"@.len() != "Metadata"@.len());
    }
    assert("Technical Docs / API Contract"@ != "Metadata"@) by {
        reveal_strlit("Technical Docs / API Contract");
        assert("Technical Docs / API Contract"@.len() != "Metadata"@.len());
    }
    assert("User Flows"@ != "Metadata"@) by {
        reveal_strlit("User Flows");
        assert("User Flows"@.len() != "Metadata"@.len());
    }
    let os = rule_outcomes(content, raw, strict);
    if k == 1 {
        assert(os[1] == rule_outcomes(content, raw, strict)[1]);
    }
    if k == 2 {
        assert(os[2] == rule_outcomes(content, raw, strict)[2]);
    }
    if k == 3 {
        assert(os[3] == rule_outcomes(content, raw, strict)[3]);
    }
    if k == 4 {
        assert(os[4] == rule_outcomes(content, raw, strict)[4]);
    }
    if k == 5 {
        assert(os[5] == rule_outcomes(content, raw, strict)[5]);
    }
    if k == 6 {
        assert(os[6] == rule_outcomes(content, raw, strict)[6]);
    }
    if k == 7 {
        assert(os[7] == rule_outcomes(content, raw, strict)[7]);
    }
    if k == 8 {
        assert(os[8] == rule_outcomes(content, raw, strict)[8]);
    }
    if k == 9 {
        assert(os[9] == rule_outcomes(content, raw, strict)[9]);
    }
    if k == 10 {
        assert(os[10] == rule_outcomes(content, raw, strict)[10]);
    }
    if k == 11 {
        assert(os[11] == rule_outcomes(content, raw, strict)[11]);
    }
    if k == 12 {
        assert(os[12] == rule_outcomes(content, raw, strict)[12]);
    }
    if k == 13 {
        assert(os[13] == rule_outcomes(content, raw, strict)[13]);
    }
    if k == 14 {
        assert(os[14] == rule_outcomes(content, raw, strict)[14]);
    }
    if k == 15 {
        assert(os[15] == rule_outcomes(content, raw, strict)[15]);
    }
}

/// Whether the texts carry metadata: a document status, a document owner,
/// a version, or a designer with a Figma link or a status.
pub open spec fn mentions_metadata(content: Seq<char>, raw: Seq<char>) -> bool {
    mentions(content, raw, "document status"@) || mentions(content, raw, "document owner"@)
        || mentions(content, raw, "version"@) || (mentions(content, raw, "designer"@) && (mentions(
        content,
        raw,
        "figma"@,
    ) || mentions(content, raw, "status"@)))
}

/// The Metadata rule: without metadata the review has the Missing finding
/// (5 points, 3 when relaxed); with metadata but no document status or no
/// document owner, the Incomplete finding of 2 points; with both, no
/// Metadata finding at all.
pub proof fn law_metadata_rule(content: Seq<char>, raw: Seq<char>, strict: bool)
    ensures
        !mentions_metadata(content, raw) ==> review_spec(content, raw, strict).contains(
            FindingModel {
                severity: Severity::Missing,
                section: "Metadata"@,
                points: if strict {
                    5
                } else {
                    3
                },
                message: "No metadata table found. Add: Document Status, Owner, Designer, Figma link, Version, Urgency."@,
            },
        ),
        mentions_metadata(content, raw) && !(mentions(content, raw, "document status"@) && mentions(
            content,
            raw,
            "document owner"@,
        )) ==> review_spec(content, raw, strict).contains(
            FindingModel {
                severity: Severity::Incomplete,
                section: "Metadata"@,
                points: 2,
                message: "Metadata incomplete. Ensure Document Status and Document Owner are specified."@,
            },
        ),
        mentions(content, raw, "document status"@) && mentions(content, raw, "document owner"@)
            ==> forall|i: int|
            0 <= i < review_spec(content, raw, strict).len() ==> (#[trigger] review_spec(
                content,
                raw,
                strict,
            )[i]).section != "Metadata"@,
{
    lemma_review_is_all_findings(content, raw, strict);
    let os = rule_outcomes(content, raw, strict);
    assert(os[0] == metadata_rule(lowercase(content), lowercase(raw), strict));
    if !(mentions(content, raw, "document status"@) && mentions(content, raw, "document owner"@)) {
        lemma_all_findings_has(os, 0);
    } else {
        assert forall|i: int| 0 <= i < review_spec(content, raw, strict).len() implies (
        #[trigger] review_spec(content, raw, strict)[i]).section != "Metadata"@ by {
            lemma_all_findings_from(os, i);
            let k = choose|k: int| 0 <= k < os.len() && os[k] == Some(all_findings(os)[i]);
            if k != 0 {
                lemma_section_of_metadata_is_its_own(content, raw, strict, k);
            }
        }
    }
}

} // verus!
