//! Scoring a review and presenting it: the score, the decision, the JSON
//! output record and the HTML comment posted to the wiki.
use vstd::prelude::*;
use crate::prd::review::{
    acceptance_rule, background_rule, design_rule, event_tracking_rule, features_rule,
    figure_rule, findings_view, general_rules_rule, lcmp_rule, metadata_rule, objectives_rule,
    opt_seq, related_prds_rule, review_spec, scope_rule, success_metrics_rule, tech_docs_rule,
    user_flows_rule, vague_rule, Finding, FindingModel, Severity,
};
use crate::text::lowercase;
use crate::text::{decimal, decimal_spec, push_chars, push_str};

verus! {

/// The score a PRD needs to be approved.
pub const APPROVAL_THRESHOLD: u32 = 95;

/// The points of all findings together.
pub open spec fn total_points(f: Seq<FindingModel>) -> nat
    decreases f.len(),
{
    if f.len() == 0 {
        0
    } else {
        total_points(f.drop_last()) + f.last().points as nat
    }
}

/// The score: 100 less the points of all findings, and never below 0.
pub open spec fn score_spec(f: Seq<FindingModel>) -> nat {
    if total_points(f) >= 100 {
        0
    } else {
        (100 - total_points(f)) as nat
    }
}

/// The sum of the points of all findings. The points must fit in a `u32`
/// together, as the sum overflows otherwise.
pub fn total_deduction(findings: &[Finding]) -> (t: u32)
    requires
        total_points(findings_view(findings@)) <= u32::MAX,
    ensures
        t == total_points(findings_view(findings@)),
{
    let mut t: u32 = 0;
    let mut i: usize = 0;
    while i < findings.len()
        invariant
            i <= findings.len(),
            total_points(findings_view(findings@)) <= u32::MAX,
            t == total_points(findings_view(findings@).take(i as int)),
        decreases findings.len() - i,
    {
        proof {
            lemma_total_points_prefix(findings_view(findings@), i as int + 1);
            assert(findings_view(findings@).take(i + 1).drop_last() =~= findings_view(
                findings@,
            ).take(i as int));
        }
        t = t + findings[i].points;
        i = i + 1;
    }
    assert(findings_view(findings@).take(findings.len() as int) =~= findings_view(findings@));
    t
}

/// A prefix costs no more than the whole.
pub proof fn lemma_total_points_prefix(f: Seq<FindingModel>, n: int)
    requires
        0 <= n <= f.len(),
    ensures
        total_points(f.take(n)) <= total_points(f),
    decreases f.len(),
{
    if n < f.len() {
        assert(f.drop_last().take(n) =~= f.take(n));
        lemma_total_points_prefix(f.drop_last(), n);
    } else {
        assert(f.take(n) =~= f);
    }
}

/// The review's score: 100 less the points of all findings, at least 0.
pub fn review_score(findings: &[Finding]) -> (s: u32)
    requires
        total_points(findings_view(findings@)) <= u32::MAX,
    ensures
        s == score_spec(findings_view(findings@)),
{
    let t = total_deduction(findings);
    100u32.saturating_sub(t)
}

/// Whether a score approves the PRD.
pub fn is_approved(score: u32) -> (b: bool)
    ensures
        b == (score >= APPROVAL_THRESHOLD),
{
    score >= APPROVAL_THRESHOLD
}

/// The number of findings with a severity.
pub open spec fn severity_count(f: Seq<FindingModel>, s: Severity) -> nat
    decreases f.len(),
{
    if f.len() == 0 {
        0
    } else {
        severity_count(f.drop_last(), s) + if f.last().severity == s {
            1nat
        } else {
            0nat
        }
    }
}

/// Counts the findings with a severity.
pub fn count_severity(findings: &[Finding], s: Severity) -> (n: usize)
    ensures
        n == severity_count(findings_view(findings@), s),
{
    let mut n: usize = 0;
    let mut i: usize = 0;
    while i < findings.len()
        invariant
            i <= findings.len(),
            n <= i,
            n == severity_count(findings_view(findings@).take(i as int), s),
        decreases findings.len() - i,
    {
        assert(findings_view(findings@).take(i + 1).drop_last() =~= findings_view(findings@).take(
            i as int,
        ));
        if findings[i].severity == s {
            n = n + 1;
        }
        i = i + 1;
    }
    assert(findings_view(findings@).take(findings.len() as int) =~= findings_view(findings@));
    n
}

// ───────────────────────── the JSON record ─────────────────────────

/// One finding as the JSON output shows it.
pub struct FindingOutput {
    pub severity: String,
    pub section: String,
    pub points: u32,
    pub message: String,
}

/// The review as the JSON output shows it.
pub struct ReviewOutput {
    pub page_id: String,
    pub title: String,
    pub score: u32,
    pub threshold: u32,
    pub decision: String,
    pub findings: Vec<FindingOutput>,
}

/// The name of a severity in the JSON output.
pub open spec fn severity_name(s: Severity) -> Seq<char> {
    match s {
        Severity::Missing => "missing"@,
        Severity::Incomplete => "incomplete"@,
        Severity::Suggestion => "suggestion"@,
    }
}

fn severity_name_exec(s: Severity) -> (r: String)
    ensures
        r@ == severity_name(s),
{
    match s {
        Severity::Missing => "missing".to_owned(),
        Severity::Incomplete => "incomplete".to_owned(),
        Severity::Suggestion => "suggestion".to_owned(),
    }
}

/// The output record of one finding.
pub open spec fn finding_output_matches(o: FindingOutput, f: FindingModel) -> bool {
    &&& o.severity@ == severity_name(f.severity)
    &&& o.section@ == f.section
    &&& o.points == f.points
    &&& o.message@ == f.message
}

/// The JSON record of a review: the decision is `APPROVED` or
/// `NEEDS_REVISION`, and each finding is kept in order.
pub fn findings_to_review_output(
    page_id: &str,
    title: &str,
    score: u32,
    approved: bool,
    findings: &[Finding],
) -> (r: ReviewOutput)
    ensures
        r.page_id@ == page_id@,
        r.title@ == title@,
        r.score == score,
        r.threshold == APPROVAL_THRESHOLD,
        r.decision@ == (if approved {
            "APPROVED"@
        } else {
            "NEEDS_REVISION"@
        }),
        r.findings@.len() == findings@.len(),
        forall|i: int|
            0 <= i < findings@.len() ==> finding_output_matches(
                #[trigger] r.findings@[i],
                findings@[i]@,
            ),
{
    let mut outs: Vec<FindingOutput> = Vec::new();
    let mut i: usize = 0;
    while i < findings.len()
        invariant
            i <= findings.len(),
            outs@.len() == i,
            forall|k: int|
                0 <= k < i ==> finding_output_matches(#[trigger] outs@[k], findings@[k]@),
        decreases findings.len() - i,
    {
        let f = &findings[i];
        outs.push(
            FindingOutput {
                severity: severity_name_exec(f.severity),
                section: f.section.clone(),
                points: f.points,
                message: f.message.clone(),
            },
        );
        i = i + 1;
    }
    let decision = if approved {
        "APPROVED".to_owned()
    } else {
        "NEEDS_REVISION".to_owned()
    };
    ReviewOutput {
        page_id: page_id.to_owned(),
        title: title.to_owned(),
        score,
        threshold: APPROVAL_THRESHOLD,
        decision,
        findings: outs,
    }
}


// ───────────────────────── laws ─────────────────────────

/// The points of two runs of findings add up.
pub proof fn lemma_total_points_concat(a: Seq<FindingModel>, b: Seq<FindingModel>)
    ensures
        total_points(a + b) == total_points(a) + total_points(b),
    decreases b.len(),
{
    if b.len() == 0 {
        assert(a + b =~= a);
    } else {
        assert((a + b).drop_last() =~= a + b.drop_last());
        lemma_total_points_concat(a, b.drop_last());
    }
}

/// The points of at most one finding.
pub open spec fn opt_points(o: Option<FindingModel>) -> nat {
    match o {
        Some(f) => f.points as nat,
        None => 0,
    }
}

proof fn lemma_opt_seq_points(o: Option<FindingModel>)
    ensures
        total_points(opt_seq(o)) == opt_points(o),
{
    if o is Some {
        let s = opt_seq(o);
        assert(s.drop_last() =~= Seq::<FindingModel>::empty());
        assert(total_points(s.drop_last()) == 0);
        assert(s.last() == o->Some_0);
    } else {
        assert(opt_seq(o).len() == 0);
    }
}

/// The review's points, rule by rule.
pub open spec fn review_points(content: Seq<char>, raw: Seq<char>, strict: bool) -> nat {
    let cl = lowercase(content);
    let rl = lowercase(raw);
    opt_points(metadata_rule(cl, rl, strict))
        + opt_points(background_rule(cl, rl, strict))
        + opt_points(objectives_rule(cl, rl, strict))
        + opt_points(scope_rule(cl, rl, strict))
        + opt_points(general_rules_rule(cl, rl, strict))
        + opt_points(acceptance_rule(content, raw, cl, rl))
        + opt_points(features_rule(cl, rl, strict))
        + opt_points(design_rule(cl, rl, strict))
        + opt_points(user_flows_rule(cl, rl, strict))
        + opt_points(tech_docs_rule(cl, rl, strict))
        + opt_points(event_tracking_rule(cl, rl, strict))
        + opt_points(lcmp_rule(cl, rl, strict))
        + opt_points(success_metrics_rule(cl, rl, strict))
        + opt_points(related_prds_rule(cl, rl, strict))
        + opt_points(vague_rule(cl))
        + opt_points(figure_rule(cl, rl))
}

/// The points of the review's findings are what the rules cost one by one.
pub proof fn lemma_review_total(content: Seq<char>, raw: Seq<char>, strict: bool)
    ensures
        total_points(review_spec(content, raw, strict)) == review_points(content, raw, strict),
{
    let cl = lowercase(content);
    let rl = lowercase(raw);
    let p1 = opt_seq(metadata_rule(cl, rl, strict));
    lemma_opt_seq_points(metadata_rule(cl, rl, strict));
    let p2 = p1 + opt_seq(background_rule(cl, rl, strict));
    lemma_opt_seq_points(background_rule(cl, rl, strict));
    lemma_total_points_concat(p1, opt_seq(background_rule(cl, rl, strict)));
    let p3 = p2 + opt_seq(objectives_rule(cl, rl, strict));
    lemma_opt_seq_points(objectives_rule(cl, rl, strict));
    lemma_total_points_concat(p2, opt_seq(objectives_rule(cl, rl, strict)));
    let p4 = p3 + opt_seq(scope_rule(cl, rl, strict));
    lemma_opt_seq_points(scope_rule(cl, rl, strict));
    lemma_total_points_concat(p3, opt_seq(scope_rule(cl, rl, strict)));
    let p5 = p4 + opt_seq(general_rules_rule(cl, rl, strict));
    lemma_opt_seq_points(general_rules_rule(cl, rl, strict));
    lemma_total_points_concat(p4, opt_seq(general_rules_rule(cl, rl, strict)));
    let p6 = p5 + opt_seq(acceptance_rule(content, raw, cl, rl));
    lemma_opt_seq_points(acceptance_rule(content, raw, cl, rl));
    lemma_total_points_concat(p5, opt_seq(acceptance_rule(content, raw, cl, rl)));
    let p7 = p6 + opt_seq(features_rule(cl, rl, strict));
    lemma_opt_seq_points(features_rule(cl, rl, strict));
    lemma_total_points_concat(p6, opt_seq(features_rule(cl, rl, strict)));
    let p8 = p7 + opt_seq(design_rule(cl, rl, strict));
    lemma_opt_seq_points(design_rule(cl, rl, strict));
    lemma_total_points_concat(p7, opt_seq(design_rule(cl, rl, strict)));
    let p9 = p8 + opt_seq(user_flows_rule(cl, rl, strict));
    lemma_opt_seq_points(user_flows_rule(cl, rl, strict));
    lemma_total_points_concat(p8, opt_seq(user_flows_rule(cl, rl, strict)));
    let p10 = p9 + opt_seq(tech_docs_rule(cl, rl, strict));
    lemma_opt_seq_points(tech_docs_rule(cl, rl, strict));
    lemma_total_points_concat(p9, opt_seq(tech_docs_rule(cl, rl, strict)));
    let p11 = p10 + opt_seq(event_tracking_rule(cl, rl, strict));
    lemma_opt_seq_points(event_tracking_rule(cl, rl, strict));
    lemma_total_points_concat(p10, opt_seq(event_tracking_rule(cl, rl, strict)));
    let p12 = p11 + opt_seq(lcmp_rule(cl, rl, strict));
    lemma_opt_seq_points(lcmp_rule(cl, rl, strict));
    lemma_total_points_concat(p11, opt_seq(lcmp_rule(cl, rl, strict)));
    let p13 = p12 + opt_seq(success_metrics_rule(cl, rl, strict));
    lemma_opt_seq_points(success_metrics_rule(cl, rl, strict));
    lemma_total_points_concat(p12, opt_seq(success_metrics_rule(cl, rl, strict)));
    let p14 = p13 + opt_seq(related_prds_rule(cl, rl, strict));
    lemma_opt_seq_points(related_prds_rule(cl, rl, strict));
    lemma_total_points_concat(p13, opt_seq(related_prds_rule(cl, rl, strict)));
    let p15 = p14 + opt_seq(vague_rule(cl));
    lemma_opt_seq_points(vague_rule(cl));
    lemma_total_points_concat(p14, opt_seq(vague_rule(cl)));
    let p16 = p15 + opt_seq(figure_rule(cl, rl));
    lemma_opt_seq_points(figure_rule(cl, rl));
    lemma_total_points_concat(p15, opt_seq(figure_rule(cl, rl)));
    assert(review_spec(content, raw, strict) == p16);
}

/// No review costs more than 240 points, so its score is always computed
/// without overflow.
pub proof fn lemma_review_points_bounded(content: Seq<char>, raw: Seq<char>, strict: bool)
    ensures
        total_points(review_spec(content, raw, strict)) <= 240,
{
    lemma_review_total(content, raw, strict);
}

/// Relaxed scoring never scores a PRD lower than strict scoring does: every
/// rule costs at most as much in relaxed mode.
#[verifier::spinoff_prover]
pub proof fn law_relaxed_never_below_strict(content: Seq<char>, raw: Seq<char>)
    ensures
        score_spec(review_spec(content, raw, false)) >= score_spec(review_spec(content, raw, true)),
{
    lemma_review_total(content, raw, false);
    lemma_review_total(content, raw, true);
}

/// The score is at most 100, and a PRD is approved exactly when its findings
/// cost at most 5 points.
pub proof fn law_score_and_approval(f: Seq<FindingModel>)
    ensures
        score_spec(f) <= 100,
        score_spec(f) >= APPROVAL_THRESHOLD <==> total_points(f) <= 5,
{
}


/// The score starts at 100 with no findings, and each finding takes its
/// points off it, never below 0.
pub proof fn law_each_finding_costs_its_points(f: Seq<FindingModel>, x: FindingModel)
    ensures
        score_spec(Seq::<FindingModel>::empty()) == 100,
        score_spec(f.push(x)) == if score_spec(f) >= x.points {
            score_spec(f) - x.points
        } else {
            0
        },
{
    assert(f.push(x).drop_last() =~= f);
    assert(total_points(f.push(x)) == total_points(f) + x.points as nat);
}

/// Reviews a PRD and scores it: the findings of `review_prd`, the score
/// they leave, and whether it reaches the approval threshold.
pub fn review_and_score(content: &str, raw_md: &str, strict: bool) -> (r: (Vec<Finding>, u32, bool))
    ensures
        findings_view(r.0@) == review_spec(content@, raw_md@, strict),
        r.1 == score_spec(review_spec(content@, raw_md@, strict)),
        r.2 == (r.1 >= APPROVAL_THRESHOLD),
{
    let findings = crate::prd::review::review_prd(content, raw_md, strict);
    proof {
        lemma_review_points_bounded(content@, raw_md@, strict);
    }
    let score = review_score(findings.as_slice());
    let approved = is_approved(score);
    (findings, score, approved)
}

// ───────────────────────── the framework's sections ─────────────────────────

/// A section of the review framework.
pub struct SectionSpec {
    pub id: u8,
    pub name: &'static str,
    pub weight_missing: u32,
    pub weight_incomplete: u32,
    pub automation_impact: &'static str,
}

/// The names of the framework's sections, in order (section `i + 1` at
/// index `i`).
pub open spec fn section_names() -> Seq<Seq<char>> {
    seq![
        "Metadata"@,
        "Background & Problem Statement"@,
        "Objectives"@,
        "Scope"@,
        "General Rules"@,
        "Acceptance Criteria"@,
        "Feature Sections"@,
        "Design Reference"@,
        "User Flows"@,
        "Technical Docs / API Contract"@,
        "Event Tracking"@,
        "LCMP Keys"@,
        "Success Metrics"@,
        "Related PRDs"@,
    ]
}

fn section(id: u8, name: &'static str, weight_missing: u32, weight_incomplete: u32, automation_impact: &'static str) -> (r: SectionSpec)
    ensures
        r.id == id,
        r.name@ == name@,
{
    SectionSpec { id, name, weight_missing, weight_incomplete, automation_impact }
}

/// The framework's 14 sections with their weights.
pub fn prd_sections() -> (r: Vec<SectionSpec>)
    ensures
        r@.len() == 14,
        forall|i: int| 0 <= i < 14 ==> (#[trigger] r@[i]).id == i + 1 && r@[i].name@ == section_names()[i],
{
    let mut r: Vec<SectionSpec> = Vec::new();
    r.push(section(1, "Metadata", 5, 2, "Routing: team, urgency, status"));
    r.push(section(2, "Background & Problem Statement", 10, 3, "Context for AI to understand why"));
    r.push(section(3, "Objectives", 10, 3, "Measurable goals for acceptance"));
    r.push(section(4, "Scope", 8, 3, "Prevents AI scope creep"));
    r.push(section(5, "General Rules", 5, 2, "Global constraints AI must follow"));
    r.push(section(6, "Acceptance Criteria", 15, 5, "Direct test generation input"));
    r.push(section(7, "Feature Sections", 15, 5, "Core implementation instructions"));
    r.push(section(8, "Design Reference", 8, 3, "UI implementation source of truth"));
    r.push(section(9, "User Flows", 8, 3, "Navigation and state machine input"));
    r.push(section(10, "Technical Docs / API Contract", 8, 3, "Backend integration automation"));
    r.push(section(11, "Event Tracking", 3, 1, "Analytics automation"));
    r.push(section(12, "LCMP Keys", 3, 1, "Localization automation"));
    r.push(section(13, "Success Metrics", 5, 2, "Post-launch validation"));
    r.push(section(14, "Related PRDs", 2, 1, "Dependency awareness"));
    r
}

// ───────────────────────── the HTML comment ─────────────────────────

/// The first finding, from index `i` on, about a section.
pub open spec fn first_for_section(f: Seq<FindingModel>, name: Seq<char>, i: int) -> Option<
    FindingModel,
>
    decreases f.len() - i,
{
    if i < 0 || i >= f.len() {
        None
    } else if f[i].section == name {
        Some(f[i])
    } else {
        first_for_section(f, name, i + 1)
    }
}

/// How the checklist shows a severity.
pub open spec fn checklist_status(s: Severity) -> Seq<char> {
    match s {
        Severity::Missing => "MISSING"@,
        Severity::Incomplete => "Incomplete"@,
        Severity::Suggestion => "Suggestion"@,
    }
}

/// The checklist row of a section.
pub open spec fn checklist_row(id: nat, name: Seq<char>, found: Option<FindingModel>) -> Seq<char> {
    let (status, points, notes) = match found {
        Some(f) => (checklist_status(f.severity), "-"@ + decimal_spec(f.points as nat), f.message),
        None => ("OK"@, "0"@, seq![]),
    };
    "<tr><td>"@ + decimal_spec(id) + "</td><td><strong>"@ + name + "</strong></td><td>"@ + status
        + "</td><td>"@ + points + "</td><td>"@ + notes + "</td></tr>"@
}

/// The checklist rows of the first `n` sections.
pub open spec fn checklist_rows(f: Seq<FindingModel>, n: int) -> Seq<char>
    decreases n,
{
    if n <= 0 || n > 14 {
        seq![]
    } else {
        checklist_rows(f, n - 1) + checklist_row(
            n as nat,
            section_names()[n - 1],
            first_for_section(f, section_names()[n - 1], 0),
        )
    }
}

/// How the action items show a severity.
pub open spec fn priority_label(s: Severity) -> Seq<char> {
    match s {
        Severity::Missing => "P0 — Blocker"@,
        Severity::Incomplete => "P1 — Important"@,
        Severity::Suggestion => "P2 — Nice to have"@,
    }
}

/// The action-item rows of the findings.
pub open spec fn action_rows(f: Seq<FindingModel>) -> Seq<char>
    decreases f.len(),
{
    if f.len() == 0 {
        seq![]
    } else {
        action_rows(f.drop_last()) + "<tr><td>"@ + priority_label(f.last().severity)
            + "</td><td><strong>"@ + f.last().section + "</strong></td><td>"@ + f.last().message
            + "</td></tr>"@
    }
}

/// The HTML comment that presents a review on the wiki page.
pub open spec fn review_html_spec(
    title: Seq<char>,
    role: Seq<char>,
    score: nat,
    approved: bool,
    f: Seq<FindingModel>,
    missing: nat,
    incomplete: nat,
    suggestions: nat,
) -> Seq<char> {
    let status = if approved {
        "APPROVED"@
    } else {
        "NEEDS REVISION"@
    };
    let color = if approved {
        "#36B37E"@
    } else {
        "#FF5630"@
    };
    "<h2>PRD Review: "@ + title + "</h2>"@ + "<p>"@
        + "<strong>"@ + role + ":</strong> Engineering (AI-assisted)<br/>"@
        + "<strong>Framework:</strong> 14-Section Standard (threshold: 95/100)<br/>"@
        + "<strong>Score:</strong> <span style=\"background-color: "@ + color
        + "; color: white; padding: 4px 12px; border-radius: 4px; font-weight: bold;\">"@
        + decimal_spec(score) + "/100 — "@ + status + "</span>"@ + "</p><hr/>"@
        + "<h3>Section Checklist</h3>"@
        + "<table><tr><th>#</th><th>Section</th><th>Status</th><th>Points</th><th>Notes</th></tr>"@
        + checklist_rows(f, 14) + "</table><hr/>"@ + (if missing > 0 || incomplete > 0 {
        "<h3>Action Items</h3>"@
            + "<table><tr><th>Priority</th><th>Section</th><th>Action</th></tr>"@ + action_rows(f)
            + "</table><hr/>"@
    } else {
        seq![]
    }) + "<p><strong>Summary:</strong> "@ + decimal_spec(missing) + " missing, "@ + decimal_spec(
        incomplete,
    ) + " incomplete, "@ + decimal_spec(suggestions) + " suggestions</p>"@
        + "<p><strong>Approval threshold:</strong> 95/100. Current score: <strong>"@
        + decimal_spec(score) + "/100</strong></p>"@
}

fn push_num(s: &mut String, n: u64)
    ensures
        final(s)@ == old(s)@ + decimal_spec(n as nat),
{
    let d = decimal(n);
    push_chars(s, d.as_slice());
}

fn first_for_section_exec(findings: &[Finding], name: &str) -> (r: Option<usize>)
    ensures
        match r {
            Some(i) => i < findings.len() && first_for_section(findings_view(findings@), name@, 0)
                == Some(findings@[i as int]@),
            None => first_for_section(findings_view(findings@), name@, 0) is None,
        },
{
    let n = crate::text::to_chars(name);
    let mut i: usize = 0;
    while i < findings.len()
        invariant
            i <= findings.len(),
            n@ == name@,
            first_for_section(findings_view(findings@), name@, 0) == first_for_section(
                findings_view(findings@),
                name@,
                i as int,
            ),
        decreases findings.len() - i,
    {
        let s = crate::text::to_chars(findings[i].section.as_str());
        if crate::text::eq_chars(s.as_slice(), n.as_slice()) {
            return Some(i);
        }
        i = i + 1;
    }
    None
}

fn push_checklist_row(out: &mut String, id: u8, name: &str, findings: &[Finding])
    ensures
        final(out)@ == old(out)@ + checklist_row(
            id as nat,
            name@,
            first_for_section(findings_view(findings@), name@, 0),
        ),
{
    let found = first_for_section_exec(findings, name);
    push_str(out, "<tr><td>");
    push_num(out, id as u64);
    push_str(out, "</td><td><strong>");
    push_str(out, name);
    push_str(out, "</strong></td><td>");
    match found {
        Some(i) => {
            let f = &findings[i];
            match f.severity {
                Severity::Missing => push_str(out, "MISSING"),
                Severity::Incomplete => push_str(out, "Incomplete"),
                Severity::Suggestion => push_str(out, "Suggestion"),
            }
            push_str(out, "</td><td>");
            push_str(out, "-");
            push_num(out, f.points as u64);
            push_str(out, "</td><td>");
            push_str(out, f.message.as_str());
        },
        None => {
            push_str(out, "OK");
            push_str(out, "</td><td>");
            push_str(out, "0");
            push_str(out, "</td><td>");
        },
    }
    push_str(out, "</td></tr>");
    proof {
        let fo = first_for_section(findings_view(findings@), name@, 0);
        assert(out@ =~= old(out)@ + checklist_row(id as nat, name@, fo));
    }
}

fn push_action_rows(out: &mut String, findings: &[Finding])
    ensures
        final(out)@ == old(out)@ + action_rows(findings_view(findings@)),
{
    let mut i: usize = 0;
    while i < findings.len()
        invariant
            i <= findings.len(),
            out@ == old(out)@ + action_rows(findings_view(findings@).take(i as int)),
        decreases findings.len() - i,
    {
        let ghost prev = out@;
        let f = &findings[i];
        push_str(out, "<tr><td>");
        match f.severity {
            Severity::Missing => push_str(out, "P0 — Blocker"),
            Severity::Incomplete => push_str(out, "P1 — Important"),
            Severity::Suggestion => push_str(out, "P2 — Nice to have"),
        }
        push_str(out, "</td><td><strong>");
        push_str(out, f.section.as_str());
        push_str(out, "</strong></td><td>");
        push_str(out, f.message.as_str());
        push_str(out, "</td></tr>");
        i = i + 1;
        proof {
            let t = findings_view(findings@).take(i as int);
            assert(t.drop_last() =~= findings_view(findings@).take(i - 1));
            assert(t.last() == findings@[i - 1]@);
            assert(out@ =~= old(out)@ + action_rows(t));
        }
    }
    assert(findings_view(findings@).take(findings.len() as int) =~= findings_view(findings@));
}

/// The HTML comment that presents a review on the wiki page: a header with
/// the line that says who made the review (`role`, the assessor's title,
/// from `TextNames`), the score
/// and decision, a checklist row for each of the framework's
/// sections (its first finding, if any), the action items when anything is
/// missing or incomplete, and a summary.
pub fn build_review_html(
    title: &str,
    role: &str,
    score: u32,
    approved: bool,
    findings: &[Finding],
    missing_count: usize,
    incomplete_count: usize,
    suggestion_count: usize,
) -> (r: String)
    ensures
        r@ == review_html_spec(
            title@,
            role@,
            score as nat,
            approved,
            findings_view(findings@),
            missing_count as nat,
            incomplete_count as nat,
            suggestion_count as nat,
        ),
{
    let mut h = String::new();
    push_str(&mut h, "<h2>PRD Review: ");
    push_str(&mut h, title);
    push_str(&mut h, "</h2>");
    push_str(&mut h, "<p>");
    push_str(&mut h, "<strong>");
    push_str(&mut h, role);
    push_str(&mut h, ":</strong> Engineering (AI-assisted)<br/>");
    push_str(&mut h, "<strong>Framework:</strong> 14-Section Standard (threshold: 95/100)<br/>");
    push_str(&mut h, "<strong>Score:</strong> <span style=\"background-color: ");
    push_str(&mut h, if approved { "#36B37E" } else { "#FF5630" });
    push_str(&mut h, "; color: white; padding: 4px 12px; border-radius: 4px; font-weight: bold;\">");
    push_num(&mut h, score as u64);
    push_str(&mut h, "/100 — ");
    push_str(&mut h, if approved { "APPROVED" } else { "NEEDS REVISION" });
    push_str(&mut h, "</span>");
    push_str(&mut h, "</p><hr/>");
    push_str(&mut h, "<h3>Section Checklist</h3>");
    push_str(&mut h, "<table><tr><th>#</th><th>Section</th><th>Status</th><th>Points</th><th>Notes</th></tr>");
    let ghost before_rows = h@;
    let sections = prd_sections();
    let mut k: usize = 0;
    while k < 14
        invariant
            k <= 14,
            sections@.len() == 14,
            forall|i: int| 0 <= i < 14 ==> (#[trigger] sections@[i]).id == i + 1 && sections@[i].name@ == section_names()[i],
            h@ == before_rows + checklist_rows(findings_view(findings@), k as int),
        decreases 14 - k,
    {
        let sp = &sections[k];
        push_checklist_row(&mut h, sp.id, sp.name, findings);
        k = k + 1;
        assert(h@ =~= before_rows + checklist_rows(findings_view(findings@), k as int));
    }
    push_str(&mut h, "</table><hr/>");
    let ghost before_actions = h@;
    if missing_count > 0 || incomplete_count > 0 {
        push_str(&mut h, "<h3>Action Items</h3>");
        push_str(&mut h, "<table><tr><th>Priority</th><th>Section</th><th>Action</th></tr>");
        push_action_rows(&mut h, findings);
        push_str(&mut h, "</table><hr/>");
    }
    let ghost after_actions = h@;
    push_str(&mut h, "<p><strong>Summary:</strong> ");
    push_num(&mut h, missing_count as u64);
    push_str(&mut h, " missing, ");
    push_num(&mut h, incomplete_count as u64);
    push_str(&mut h, " incomplete, ");
    push_num(&mut h, suggestion_count as u64);
    push_str(&mut h, " suggestions</p>");
    push_str(&mut h, "<p><strong>Approval threshold:</strong> 95/100. Current score: <strong>");
    push_num(&mut h, score as u64);
    push_str(&mut h, "/100</strong></p>");
    proof {
        let f = findings_view(findings@);
        let status = if approved { "APPROVED"@ } else { "NEEDS REVISION"@ };
        let color = if approved { "#36B37E"@ } else { "#FF5630"@ };
        let actions = if missing_count > 0 || incomplete_count > 0 {
            "<h3>Action Items</h3>"@
                + "<table><tr><th>Priority</th><th>Section</th><th>Action</th></tr>"@ + action_rows(f)
                + "</table><hr/>"@
        } else {
            seq![]
        };
        assert(after_actions =~= before_actions + actions);
        assert(h@ =~= review_html_spec(
            title@,
            role@,
            score as nat,
            approved,
            f,
            missing_count as nat,
            incomplete_count as nat,
            suggestion_count as nat,
        ));
    }
    h
}


// ───────────────────────── the console report ─────────────────────────

/// How the console report marks a severity.
pub open spec fn severity_icon(s: Severity) -> Seq<char> {
    match s {
        Severity::Missing => "🔴"@,
        Severity::Incomplete => "🟡"@,
        Severity::Suggestion => "🔵"@,
    }
}

/// The numbered console lines of the findings, each ending in a newline.
pub open spec fn console_finding_lines(f: Seq<FindingModel>) -> Seq<char>
    decreases f.len(),
{
    if f.len() == 0 {
        seq![]
    } else {
        console_finding_lines(f.drop_last()) + decimal_spec(f.len()) + ". "@ + severity_icon(
            f.last().severity,
        ) + " **"@ + f.last().section + "** (-"@ + decimal_spec(f.last().points as nat)
            + " pts) — "@ + f.last().message + "\n"@
    }
}

/// The review as the console shows it.
pub open spec fn review_console_spec(
    score: nat,
    approved: bool,
    f: Seq<FindingModel>,
    missing: nat,
    incomplete: nat,
    suggestions: nat,
) -> Seq<char> {
    "\n---\n\n"@ + "## PRD Quality Review (14-Section Framework)\n\n"@ + (if f.len() == 0 {
        "No issues found.\n\n"@
    } else {
        console_finding_lines(f) + "\n"@
    }) + "**Score: "@ + decimal_spec(score) + "/100** "@ + (if approved {
        "✅"@
    } else {
        "❌"@
    }) + " "@ + (if approved {
        "APPROVED"@
    } else {
        "NEEDS REVISION"@
    }) + "\n"@ + (if approved {
        seq![]
    } else if missing > 0 {
        "Required: 95/100 to approve. Fix 🔴 Missing items first.\n"@
    } else {
        "Required: 95/100 to approve. Address 🟡 Incomplete items.\n"@
    }) + "\nSummary: "@ + decimal_spec(missing) + " missing, "@ + decimal_spec(incomplete)
        + " incomplete, "@ + decimal_spec(suggestions) + " suggestions\n"@
}

fn push_console_line(t: &mut String, n: u64, f: &Finding)
    ensures
        final(t)@ == old(t)@ + decimal_spec(n as nat) + ". "@ + severity_icon(f.severity) + " **"@
            + f.section@ + "** (-"@ + decimal_spec(f.points as nat) + " pts) — "@ + f.message@
            + "\n"@,
{
    push_num(t, n);
    push_str(t, ". ");
    match f.severity {
        Severity::Missing => push_str(t, "🔴"),
        Severity::Incomplete => push_str(t, "🟡"),
        Severity::Suggestion => push_str(t, "🔵"),
    }
    push_str(t, " **");
    push_str(t, f.section.as_str());
    push_str(t, "** (-");
    push_num(t, f.points as u64);
    push_str(t, " pts) — ");
    push_str(t, f.message.as_str());
    push_str(t, "\n");
    assert(t@ =~= old(t)@ + decimal_spec(n as nat) + ". "@ + severity_icon(f.severity) + " **"@
        + f.section@ + "** (-"@ + decimal_spec(f.points as nat) + " pts) — "@ + f.message@
        + "\n"@);
}

/// The review as the console shows it: the numbered findings, the score
/// with the decision, what approval needs, and a summary.
pub fn review_console_text(
    score: u32,
    approved: bool,
    findings: &[Finding],
    missing_count: usize,
    incomplete_count: usize,
    suggestion_count: usize,
) -> (r: String)
    ensures
        r@ == review_console_spec(
            score as nat,
            approved,
            findings_view(findings@),
            missing_count as nat,
            incomplete_count as nat,
            suggestion_count as nat,
        ),
{
    let mut t = String::new();
    push_str(&mut t, "\n---\n\n");
    push_str(&mut t, "## PRD Quality Review (14-Section Framework)\n\n");
    let ghost before = t@;
    if findings.len() == 0 {
        push_str(&mut t, "No issues found.\n\n");
    } else {
        let mut i: usize = 0;
        while i < findings.len()
            invariant
                i <= findings.len(),
                t@ == before + console_finding_lines(findings_view(findings@).take(i as int)),
            decreases findings.len() - i,
        {
            push_console_line(&mut t, (i + 1) as u64, &findings[i]);
            i = i + 1;
            proof {
                let s = findings_view(findings@).take(i as int);
                assert(s.drop_last() =~= findings_view(findings@).take(i - 1));
                assert(s.last() == findings@[i - 1]@);
                assert(t@ =~= before + console_finding_lines(s));
            }
        }
        assert(findings_view(findings@).take(findings.len() as int) =~= findings_view(findings@));
        push_str(&mut t, "\n");
    }
    let ghost mid = t@;
    push_str(&mut t, "**Score: ");
    push_num(&mut t, score as u64);
    push_str(&mut t, "/100** ");
    push_str(&mut t, if approved { "✅" } else { "❌" });
    push_str(&mut t, " ");
    push_str(&mut t, if approved { "APPROVED" } else { "NEEDS REVISION" });
    push_str(&mut t, "\n");
    if !approved {
        if missing_count > 0 {
            push_str(&mut t, "Required: 95/100 to approve. Fix 🔴 Missing items first.\n");
        } else {
            push_str(&mut t, "Required: 95/100 to approve. Address 🟡 Incomplete items.\n");
        }
    }
    push_str(&mut t, "\nSummary: ");
    push_num(&mut t, missing_count as u64);
    push_str(&mut t, " missing, ");
    push_num(&mut t, incomplete_count as u64);
    push_str(&mut t, " incomplete, ");
    push_num(&mut t, suggestion_count as u64);
    push_str(&mut t, " suggestions\n");
    proof {
        let f = findings_view(findings@);
        let listing = if f.len() == 0 {
            "No issues found.\n\n"@
        } else {
            console_finding_lines(f) + "\n"@
        };
        assert(mid =~= before + listing);
        assert(t@ =~= review_console_spec(
            score as nat,
            approved,
            f,
            missing_count as nat,
            incomplete_count as nat,
            suggestion_count as nat,
        ));
    }
    t
}

} // verus!
