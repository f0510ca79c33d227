use prd_reviewer::jira::models::wiki::{WikiBody, WikiPage, WikiStorage};
use prd_reviewer::prd::format::format_prd;
use prd_reviewer::prd::report::{
    build_review_html, count_severity, findings_to_review_output, is_approved, prd_sections,
    review_and_score, review_console_text, review_score, total_deduction, APPROVAL_THRESHOLD,
};
use prd_reviewer::prd::review::{review_prd, Finding, Severity};
use prd_reviewer::prd::sections::{
    byte_len_exec, clean_raw_md, is_table_column_header, parse_into_sections, split_by_headings,
};

fn s(x: &str) -> String {
    x.to_string()
}

fn chars(x: &str) -> Vec<char> {
    x.chars().collect()
}

fn page(id: &str, title: &str) -> WikiPage {
    WikiPage {
        id: s(id),
        page_type: s("page"),
        title: s(title),
        status: s("current"),
        version: None,
        body: Some(WikiBody { storage: None, view: Some(WikiStorage { value: s("") }) }),
        links: None,
        space: None,
    }
}

const SAMPLE: &str = "Intro text\n# Scope\nIn: app\n# Acceptance Criteria\n- user can log in\n* user can log out\nok\nlonger line\n# Notes\nnone\n# Login\nDetails here";

const COMPLETE: &str = "Document Status: Done\nDocument Owner: Ana\n## Background\nWhy.\n## Objectives\nGoals.\n## Scope\nIn scope: app\n## General Rules\nFast.\n## Acceptance Criteria\nGiven a user When they tap Then it opens\n### Layout\nGrid.\nData source: the profile service\nDesign: https://figma.com/design/abc\n## User Flow\nSteps.\n## API Contract\nGET /profile\n## Event Tracking\nprofile_viewed\n## LCMP\nkeys\n## Success Metrics\nRetention.\n## Related PRDs\nNone.";

fn summary(f: &[Finding]) -> Vec<(String, u32)> {
    f.iter().map(|x| (x.section.clone(), x.points)).collect()
}

// ─── sections ───────────────────────────────────────────────────────────────

#[test]
fn page_text_is_sorted_into_parts() {
    let p = parse_into_sections(SAMPLE, "Page");
    assert_eq!(p.overview, Some(s("Intro text")));
    assert_eq!(p.scope, Some(s("In: app")));
    assert_eq!(p.requirements.len(), 1);
    assert_eq!(p.requirements[0].title, "Login");
    assert_eq!(p.requirements[0].content, "Details here");
    assert_eq!(p.acceptance_criteria, vec![s("user can log in"), s("user can log out"), s("longer line")]);
    assert!(p.acceptance_criteria_raw.is_empty());
    assert_eq!(p.notes, Some(s("none")));
    assert_eq!(p.remaining, "");
}

#[test]
fn short_first_block_becomes_the_overview() {
    let p = parse_into_sections("# Login\nline1\nline2\n# Payment\nDetails", "X");
    assert_eq!(p.overview, Some(s("line1\nline2")));
    assert_eq!(p.requirements.len(), 1);
    assert_eq!(p.requirements[0].title, "Payment");
}

#[test]
fn criteria_with_a_pipe_table_are_kept_whole() {
    let p = parse_into_sections("# Acceptance\n| a | b |\n| 1 | 2 |", "X");
    assert!(p.acceptance_criteria.is_empty());
    assert_eq!(p.acceptance_criteria_raw, vec![s("| a | b |\n| 1 | 2 |")]);
}

#[test]
fn repeated_title_headings_and_column_labels_are_dropped() {
    let md = "My Page\n=====\nbody\n## My Page\nmore\nPrevious\n**Hi Fi design**\ntext";
    assert_eq!(clean_raw_md(md, "My Page"), "## My Page\nbody\nmore\ntext");
    assert!(is_table_column_header(&chars("Previous")));
    assert!(!is_table_column_header(&chars("previous")));
}

#[test]
fn headings_split_the_text() {
    let blocks = split_by_headings(&chars("lead\n## **One** ##\nbody 1\n### Two\n"));
    let got: Vec<(String, String)> =
        blocks.iter().map(|(h, c)| (h.iter().collect(), c.iter().collect())).collect();
    assert_eq!(got, vec![(s(""), s("lead")), (s("One"), s("body 1")), (s("Two"), s(""))]);
}

#[test]
fn byte_lengths_count_utf8() {
    assert_eq!(byte_len_exec(&chars("aé—")), 6);
}

#[test]
fn structured_prd_of_a_page_with_sections() {
    let out = format_prd(&page("1", "Login"), SAMPLE);
    assert_eq!(
        out,
        "# PRD: Login\n\n## Metadata\n\n- **Page ID:** 1\n\n## Overview\n\nIntro text\n\n## Scope\n\nIn: app\n\n## Requirements\n\n### Login\n\nDetails here\n\n## Acceptance Criteria\n\n1. user can log in\n2. user can log out\n3. longer line\n\n## Notes\n\nnone"
    );
}

// ─── assessment ─────────────────────────────────────────────────────────────

#[test]
fn empty_prd_misses_every_section_strictly() {
    let f = review_prd("", "", true);
    assert_eq!(
        summary(&f),
        vec![
            (s("Metadata"), 5),
            (s("Background & Problem Statement"), 10),
            (s("Objectives"), 10),
            (s("Scope"), 8),
            (s("General Rules"), 5),
            (s("Acceptance Criteria"), 15),
            (s("Feature Sections"), 15),
            (s("Design Reference"), 8),
            (s("User Flows"), 8),
            (s("Technical Docs / API Contract"), 8),
            (s("Event Tracking"), 3),
            (s("LCMP Keys"), 3),
            (s("Success Metrics"), 5),
            (s("Related PRDs"), 2),
        ]
    );
    assert_eq!(total_deduction(&f), 105);
    assert_eq!(review_score(&f), 0);
    assert_eq!(count_severity(&f, Severity::Missing), 10);
    assert_eq!(count_severity(&f, Severity::Incomplete), 3);
    assert_eq!(count_severity(&f, Severity::Suggestion), 1);
}

#[test]
fn empty_prd_relaxed_weights() {
    let f = review_prd("", "", false);
    assert_eq!(total_deduction(&f), 87);
    assert_eq!(review_score(&f), 13);
    assert!(f[3].severity == Severity::Incomplete);
    assert_eq!(f[3].section, "Scope");
    assert_eq!(f[3].points, 3);
}

#[test]
fn relaxed_score_is_never_below_strict() {
    for text in ["", COMPLETE, "background objective tbd", SAMPLE] {
        let strict = review_and_score(text, "", true).1;
        let relaxed = review_and_score(text, "", false).1;
        assert!(relaxed >= strict);
    }
}

#[test]
fn complete_prd_is_approved_with_full_score() {
    let (f, score, approved) = review_and_score(COMPLETE, "", true);
    assert!(f.is_empty());
    assert_eq!(score, 100);
    assert!(approved);
}

#[test]
fn vague_language_costs_three_points() {
    let text = format!("{}\nDetails TBD.", COMPLETE);
    let (f, score, approved) = review_and_score(&text, "", true);
    assert_eq!(f.len(), 1);
    assert_eq!(f[0].section, "Requirements Clarity");
    assert_eq!(f[0].message, "Vague language found: \"tbd\". Replace with specific, measurable requirements.");
    assert_eq!(score, 97);
    assert!(approved);
}

#[test]
fn unreferenced_figures_are_noted() {
    let (f, score, _) = review_and_score(COMPLETE, "Figure X.1 home", true);
    assert_eq!(f.len(), 1);
    assert!(f[0].severity == Severity::Suggestion);
    assert_eq!(
        f[0].message,
        "Found 1 design figures but rules don't reference them. Link each figure to its corresponding rule."
    );
    assert_eq!(score, 98);
}

#[test]
fn feature_sections_need_layout_and_data() {
    let text = COMPLETE.replace("Data source: the profile service\n", "");
    let f = review_prd(&text, "", true);
    assert_eq!(f.len(), 1);
    assert_eq!(
        f[0].message,
        "Feature sections missing sub-sections: Data & Update Behavior. Each feature needs Layout, Rules, Data & Update, Edge Cases."
    );
    assert!(review_prd(&text, "", false).is_empty());
}

#[test]
fn approval_threshold() {
    assert_eq!(APPROVAL_THRESHOLD, 95);
    assert!(is_approved(95));
    assert!(!is_approved(94));
}

#[test]
fn framework_sections_in_order() {
    let secs = prd_sections();
    assert_eq!(secs.len(), 14);
    assert_eq!(secs[0].name, "Metadata");
    assert_eq!(secs[5].name, "Acceptance Criteria");
    assert_eq!(secs[13].id, 14);
    assert_eq!(secs[13].name, "Related PRDs");
}

#[test]
fn json_record_of_a_review() {
    let f = review_prd("", "", true);
    let out = findings_to_review_output("42", "Login", 0, false, &f);
    assert_eq!(out.page_id, "42");
    assert_eq!(out.threshold, 95);
    assert_eq!(out.decision, "NEEDS_REVISION");
    assert_eq!(out.findings.len(), 14);
    assert_eq!(out.findings[0].severity, "missing");
    assert_eq!(out.findings[4].severity, "incomplete");
    assert_eq!(out.findings[13].severity, "suggestion");
    assert_eq!(findings_to_review_output("1", "t", 100, true, &[]).decision, "APPROVED");
}

#[test]
fn console_text_of_a_clean_review() {
    assert_eq!(
        review_console_text(100, true, &[], 0, 0, 0),
        "\n---\n\n## PRD Quality Review (14-Section Framework)\n\nNo issues found.\n\n**Score: 100/100** ✅ APPROVED\n\nSummary: 0 missing, 0 incomplete, 0 suggestions\n"
    );
}

#[test]
fn console_text_lists_findings() {
    let f = vec![Finding { severity: Severity::Missing, section: s("Scope"), points: 8, message: s("Add scope.") }];
    assert_eq!(
        review_console_text(92, false, &f, 1, 0, 0),
        "\n---\n\n## PRD Quality Review (14-Section Framework)\n\n1. 🔴 **Scope** (-8 pts) — Add scope.\n\n**Score: 92/100** ❌ NEEDS REVISION\nRequired: 95/100 to approve. Fix 🔴 Missing items first.\n\nSummary: 1 missing, 0 incomplete, 0 suggestions\n"
    );
}

#[test]
fn review_comment_html() {
    let f = vec![Finding { severity: Severity::Incomplete, section: s("Scope"), points: 3, message: s("Narrow it.") }];
    let html = build_review_html("Login", "Assessor", 97, true, &f, 0, 1, 0);
    assert!(html.starts_with("<h2>PRD Review: Login</h2><p><strong>Assessor:</strong> Engineering (AI-assisted)<br/><strong>Framework:</strong> 14-Section Standard (threshold: 95/100)<br/>"));
    assert!(html.contains("<tr><td>4</td><td><strong>Scope</strong></td><td>Incomplete</td><td>-3</td><td>Narrow it.</td></tr>"));
    assert!(html.contains("<tr><td>1</td><td><strong>Metadata</strong></td><td>OK</td><td>0</td><td></td></tr>"));
    assert!(html.contains("<h3>Action Items</h3>"));
    assert!(html.contains("<tr><td>P1 — Important</td><td><strong>Scope</strong></td><td>Narrow it.</td></tr>"));
    assert!(html.ends_with(
        "<p><strong>Summary:</strong> 0 missing, 1 incomplete, 0 suggestions</p><p><strong>Approval threshold:</strong> 95/100. Current score: <strong>97/100</strong></p>"
    ));
}

fn points_for(f: &[Finding], name: &str) -> u32 {
    f.iter().filter(|x| x.section == name).map(|x| x.points).sum()
}

fn all_sections() -> Vec<String> {
    prd_sections().iter().map(|x| s(x.name)).collect()
}

#[test]
fn relaxed_costs_no_section_more() {
    for (c, r) in [("", ""), (SAMPLE, ""), ("Designer: Bo\nStatus: draft", "figure x.1"), (COMPLETE, "")] {
        let strict = review_prd(c, r, true);
        let relaxed = review_prd(c, r, false);
        for name in all_sections().iter().chain([s("Requirements Clarity"), s("Design-Rule Linkage")].iter()) {
            assert!(points_for(&relaxed, name) <= points_for(&strict, name), "{}", name);
        }
    }
}

#[test]
fn more_text_costs_no_section_more() {
    let base = "Document Status: Draft\n## Acceptance Criteria\nworks";
    let more = [
        "\nDocument Owner: Ana",
        "\n1. log in",
        "\n| design | home.png | figure",
        "\nfigma.com/design/x",
        "\n### Layout\nTBD",
    ];
    for strict in [true, false] {
        let before_c = review_prd(base, "", strict);
        let before_r = review_prd("", base, strict);
        for x in more {
            let after_c = review_prd(&format!("{}{}", base, x), "", strict);
            let after_r = review_prd("", &format!("{}{}", base, x), strict);
            for name in all_sections() {
                assert!(points_for(&after_c, &name) <= points_for(&before_c, &name), "{} {}", name, x);
                assert!(points_for(&after_r, &name) <= points_for(&before_r, &name), "{} {}", name, x);
            }
        }
    }
    let lower = review_prd(&format!("{}\n1. log in", base), "", true);
    assert!(points_for(&lower, "Acceptance Criteria") < points_for(&review_prd(base, "", true), "Acceptance Criteria"));
}
