//! The automated PRD review: which of the framework's sections a PRD lacks
//! or leaves incomplete, with the points each finding costs.
//!
//! A rule looks for phrases in the lower-cased formatted PRD and in the
//! lower-cased markdown it was made from; `has` holds when either text
//! contains the phrase.
use vstd::prelude::*;
use crate::text::{
    contains, contains_spec, is_ascii_text, count_matches, count_matches_spec, lines, lines_spec, lowercase,
    starts_with, starts_with_spec, to_chars, to_lowercase, trim, trim_spec, views,
};

verus! {

/// How serious a finding is.
#[derive(PartialEq, Eq, Structural, Clone, Copy)]
pub enum Severity {
    Missing,
    Incomplete,
    Suggestion,
}

/// One problem the review found, and what it costs.
pub struct Finding {
    pub severity: Severity,
    pub section: String,
    pub points: u32,
    pub message: String,
}

/// The model of a `Finding`.
pub struct FindingModel {
    pub severity: Severity,
    pub section: Seq<char>,
    pub points: u32,
    pub message: Seq<char>,
}

impl View for Finding {
    type V = FindingModel;

    open spec fn view(&self) -> FindingModel {
        FindingModel {
            severity: self.severity,
            section: self.section@,
            points: self.points,
            message: self.message@,
        }
    }
}

/// The models of a sequence of findings.
pub open spec fn findings_view(f: Seq<Finding>) -> Seq<FindingModel> {
    f.map_values(|x: Finding| x@)
}

/// A finding.
pub open spec fn finding(
    severity: Severity,
    section: Seq<char>,
    points: u32,
    message: Seq<char>,
) -> FindingModel {
    FindingModel { severity, section, points, message }
}

/// The phrase occurs in one of the two lower-cased texts.
pub open spec fn has(cl: Seq<char>, rl: Seq<char>, p: Seq<char>) -> bool {
    contains_spec(cl, p) || contains_spec(rl, p)
}

/// At most one finding.
pub open spec fn opt_seq(o: Option<FindingModel>) -> Seq<FindingModel> {
    match o {
        Some(f) => seq![f],
        None => seq![],
    }
}

fn mk(severity: Severity, section: &str, points: u32, message: &str) -> (r: Finding)
    ensures
        r@ == finding(severity, section@, points, message@),
{
    Finding { severity, section: section.to_owned(), points, message: message.to_owned() }
}

fn has_exec(cl: &[char], rl: &[char], p: &str) -> (b: bool)
    ensures
        b == has(cl@, rl@, p@),
{
    let pc = to_chars(p);
    contains(cl, pc.as_slice()) || contains(rl, pc.as_slice())
}

// ───────────────────────── 1. Metadata ─────────────────────────

/// Rule 1: a metadata table, with Document Status and Document Owner.
pub open spec fn metadata_rule(cl: Seq<char>, rl: Seq<char>, strict: bool) -> Option<FindingModel> {
    let has_metadata = has(cl, rl, "document status"@) || has(cl, rl, "document owner"@) || has(
        cl,
        rl,
        "version"@,
    ) || (has(cl, rl, "designer"@) && (has(cl, rl, "figma"@) || has(cl, rl, "status"@)));
    let complete = has_metadata && has(cl, rl, "document status"@) && has(
        cl,
        rl,
        "document owner"@,
    );
    if !has_metadata {
        Some(
            finding(
                Severity::Missing,
                "Metadata"@,
                if strict {
                    5
                } else {
                    3
                },
                "No metadata table found. Add: Document Status, Owner, Designer, Figma link, Version, Urgency."@,
            ),
        )
    } else if !complete {
        Some(
            finding(
                Severity::Incomplete,
                "Metadata"@,
                2,
                "Metadata incomplete. Ensure Document Status and Document Owner are specified."@,
            ),
        )
    } else {
        None
    }
}

fn metadata_check(cl: &[char], rl: &[char], strict: bool) -> (r: Option<Finding>)
    ensures
        opt_view(r) == metadata_rule(cl@, rl@, strict),
{
    let has_metadata = has_exec(cl, rl, "document status") || has_exec(cl, rl, "document owner")
        || has_exec(cl, rl, "version") || (has_exec(cl, rl, "designer") && (has_exec(
        cl,
        rl,
        "figma",
    ) || has_exec(cl, rl, "status")));
    let complete = has_metadata && has_exec(cl, rl, "document status") && has_exec(
        cl,
        rl,
        "document owner",
    );
    if !has_metadata {
        Some(
            mk(
                Severity::Missing,
                "Metadata",
                if strict {
                    5
                } else {
                    3
                },
                "No metadata table found. Add: Document Status, Owner, Designer, Figma link, Version, Urgency.",
            ),
        )
    } else if !complete {
        Some(
            mk(
                Severity::Incomplete,
                "Metadata",
                2,
                "Metadata incomplete. Ensure Document Status and Document Owner are specified.",
            ),
        )
    } else {
        None
    }
}

/// The model of an optional finding.
pub open spec fn opt_view(o: Option<Finding>) -> Option<FindingModel> {
    match o {
        Some(f) => Some(f@),
        None => None,
    }
}


/// Rule 2: a background / problem statement section.
pub open spec fn background_rule(cl: Seq<char>, rl: Seq<char>, strict: bool) -> Option<FindingModel> {
    if !(has(cl, rl, "background"@) || has(cl, rl, "problem statement"@) || has(cl, rl, "## problem"@) || has(cl, rl, "### problem"@)) {
        Some(finding(Severity::Missing, "Background & Problem Statement"@, 10, "No background section found. Add a section explaining WHY this feature is needed and what user/business problem it solves."@))
    } else {
        None
    }
}

fn background_check(cl: &[char], rl: &[char], strict: bool) -> (r: Option<Finding>)
    ensures
        opt_view(r) == background_rule(cl@, rl@, strict),
{
    if !(has_exec(cl, rl, "background") || has_exec(cl, rl, "problem statement") || has_exec(cl, rl, "## problem") || has_exec(cl, rl, "### problem")) {
        Some(mk(Severity::Missing, "Background & Problem Statement", 10, "No background section found. Add a section explaining WHY this feature is needed and what user/business problem it solves."))
    } else {
        None
    }
}

/// Rule 3: an objectives section.
pub open spec fn objectives_rule(cl: Seq<char>, rl: Seq<char>, strict: bool) -> Option<FindingModel> {
    if !(has(cl, rl, "objective"@) || has(cl, rl, "## goal"@) || has(cl, rl, "### goal"@)) {
        Some(finding(Severity::Missing, "Objectives"@, 10, "No objectives section found. Add specific, measurable goals this feature should achieve."@))
    } else {
        None
    }
}

fn objectives_check(cl: &[char], rl: &[char], strict: bool) -> (r: Option<Finding>)
    ensures
        opt_view(r) == objectives_rule(cl@, rl@, strict),
{
    if !(has_exec(cl, rl, "objective") || has_exec(cl, rl, "## goal") || has_exec(cl, rl, "### goal")) {
        Some(mk(Severity::Missing, "Objectives", 10, "No objectives section found. Add specific, measurable goals this feature should achieve."))
    } else {
        None
    }
}

/// Rule 4: a scope section (in scope / out of scope).
pub open spec fn scope_rule(cl: Seq<char>, rl: Seq<char>, strict: bool) -> Option<FindingModel> {
    if !(has(cl, rl, "## scope"@) || has(cl, rl, "### scope"@) || has(cl, rl, "# scope"@) || has(cl, rl, "scope requirement"@) || has(cl, rl, "in scope"@) || has(cl, rl, "out of scope"@) || has(cl, rl, "in-scope"@) || has(cl, rl, "out-of-scope"@)) {
        Some(finding(if strict { Severity::Missing } else { Severity::Incomplete }, "Scope"@, if strict { 8 } else { 3 }, "No scope section found. Add In Scope / Out of Scope to prevent scope creep and set clear boundaries for engineering."@))
    } else {
        None
    }
}

fn scope_check(cl: &[char], rl: &[char], strict: bool) -> (r: Option<Finding>)
    ensures
        opt_view(r) == scope_rule(cl@, rl@, strict),
{
    if !(has_exec(cl, rl, "## scope") || has_exec(cl, rl, "### scope") || has_exec(cl, rl, "# scope") || has_exec(cl, rl, "scope requirement") || has_exec(cl, rl, "in scope") || has_exec(cl, rl, "out of scope") || has_exec(cl, rl, "in-scope") || has_exec(cl, rl, "out-of-scope")) {
        Some(mk(if strict { Severity::Missing } else { Severity::Incomplete }, "Scope", if strict { 8 } else { 3 }, "No scope section found. Add In Scope / Out of Scope to prevent scope creep and set clear boundaries for engineering."))
    } else {
        None
    }
}

/// Rule 5: a general rules / constraints section.
pub open spec fn general_rules_rule(cl: Seq<char>, rl: Seq<char>, strict: bool) -> Option<FindingModel> {
    if !(has(cl, rl, "general rule"@) || has(cl, rl, "## constraint"@) || has(cl, rl, "universal rule"@) || has(cl, rl, "# general rules"@) || has(cl, rl, "## rule"@) || has(cl, rl, "### rule"@)) {
        Some(finding(Severity::Incomplete, "General Rules"@, if strict { 5 } else { 2 }, "No general rules section. Add performance requirements, data freshness, platform constraints."@))
    } else {
        None
    }
}

fn general_rules_check(cl: &[char], rl: &[char], strict: bool) -> (r: Option<Finding>)
    ensures
        opt_view(r) == general_rules_rule(cl@, rl@, strict),
{
    if !(has_exec(cl, rl, "general rule") || has_exec(cl, rl, "## constraint") || has_exec(cl, rl, "universal rule") || has_exec(cl, rl, "# general rules") || has_exec(cl, rl, "## rule") || has_exec(cl, rl, "### rule")) {
        Some(mk(Severity::Incomplete, "General Rules", if strict { 5 } else { 2 }, "No general rules section. Add performance requirements, data freshness, platform constraints."))
    } else {
        None
    }
}

/// Rule 9: user flows (entry points, happy path, ...).
pub open spec fn user_flows_rule(cl: Seq<char>, rl: Seq<char>, strict: bool) -> Option<FindingModel> {
    if !(has(cl, rl, "user flow"@) || has(cl, rl, "user journey"@) || has(cl, rl, "entry point"@) || has(cl, rl, "happy path"@) || has(cl, rl, "## flow"@) || has(cl, rl, "behavior flow"@) || (has(cl, rl, "stage"@) && has(cl, rl, "interaction"@))) {
        Some(finding(if strict { Severity::Missing } else { Severity::Incomplete }, "User Flows"@, if strict { 8 } else { 5 }, "No user flow section found. Add entry points, happy path, and failure/edge paths."@))
    } else {
        None
    }
}

fn user_flows_check(cl: &[char], rl: &[char], strict: bool) -> (r: Option<Finding>)
    ensures
        opt_view(r) == user_flows_rule(cl@, rl@, strict),
{
    if !(has_exec(cl, rl, "user flow") || has_exec(cl, rl, "user journey") || has_exec(cl, rl, "entry point") || has_exec(cl, rl, "happy path") || has_exec(cl, rl, "## flow") || has_exec(cl, rl, "behavior flow") || (has_exec(cl, rl, "stage") && has_exec(cl, rl, "interaction"))) {
        Some(mk(if strict { Severity::Missing } else { Severity::Incomplete }, "User Flows", if strict { 8 } else { 5 }, "No user flow section found. Add entry points, happy path, and failure/edge paths."))
    } else {
        None
    }
}

/// Rule 10: technical documentation or an API contract.
pub open spec fn tech_docs_rule(cl: Seq<char>, rl: Seq<char>, strict: bool) -> Option<FindingModel> {
    if !(has(cl, rl, "api contract"@) || has(cl, rl, "api endpoint"@) || has(cl, rl, "sequence diagram"@) || has(cl, rl, "## technical"@) || has(cl, rl, "### technical"@) || has(cl, rl, "## api"@) || has(cl, rl, "## be requirement"@) || has(cl, rl, "# be requirement"@) || has(cl, rl, "backend spec"@) || has(cl, rl, "data model"@) || has(cl, rl, "deeplink"@) || has(cl, rl, "rest api"@) || has(cl, rl, "websocket"@)) {
        Some(finding(if strict { Severity::Missing } else { Severity::Incomplete }, "Technical Docs / API Contract"@, if strict { 8 } else { 3 }, "No technical documentation found. Add API contracts, data models, or backend specs for engineering integration."@))
    } else {
        None
    }
}

fn tech_docs_check(cl: &[char], rl: &[char], strict: bool) -> (r: Option<Finding>)
    ensures
        opt_view(r) == tech_docs_rule(cl@, rl@, strict),
{
    if !(has_exec(cl, rl, "api contract") || has_exec(cl, rl, "api endpoint") || has_exec(cl, rl, "sequence diagram") || has_exec(cl, rl, "## technical") || has_exec(cl, rl, "### technical") || has_exec(cl, rl, "## api") || has_exec(cl, rl, "## be requirement") || has_exec(cl, rl, "# be requirement") || has_exec(cl, rl, "backend spec") || has_exec(cl, rl, "data model") || has_exec(cl, rl, "deeplink") || has_exec(cl, rl, "rest api") || has_exec(cl, rl, "websocket")) {
        Some(mk(if strict { Severity::Missing } else { Severity::Incomplete }, "Technical Docs / API Contract", if strict { 8 } else { 3 }, "No technical documentation found. Add API contracts, data models, or backend specs for engineering integration."))
    } else {
        None
    }
}

/// Rule 11: an event tracking section.
pub open spec fn event_tracking_rule(cl: Seq<char>, rl: Seq<char>, strict: bool) -> Option<FindingModel> {
    if !(has(cl, rl, "event tracking"@) || has(cl, rl, "analytics"@) || has(cl, rl, "## event"@) || has(cl, rl, "| event"@) || has(cl, rl, "_viewed"@) || has(cl, rl, "_clicked"@)) {
        Some(finding(Severity::Incomplete, "Event Tracking"@, 3, "No event tracking section. Add analytics events table (Event Name / Trigger / Properties)."@))
    } else {
        None
    }
}

fn event_tracking_check(cl: &[char], rl: &[char], strict: bool) -> (r: Option<Finding>)
    ensures
        opt_view(r) == event_tracking_rule(cl@, rl@, strict),
{
    if !(has_exec(cl, rl, "event tracking") || has_exec(cl, rl, "analytics") || has_exec(cl, rl, "## event") || has_exec(cl, rl, "| event") || has_exec(cl, rl, "_viewed") || has_exec(cl, rl, "_clicked")) {
        Some(mk(Severity::Incomplete, "Event Tracking", 3, "No event tracking section. Add analytics events table (Event Name / Trigger / Properties)."))
    } else {
        None
    }
}

/// Rule 12: LCMP keys or a localization table.
pub open spec fn lcmp_rule(cl: Seq<char>, rl: Seq<char>, strict: bool) -> Option<FindingModel> {
    if !(has(cl, rl, "lcmp"@) || has(cl, rl, "localization"@) || has(cl, rl, "multilanguage"@) || has(cl, rl, "| key | en |"@) || has(cl, rl, "| key | id |"@)) {
        Some(finding(Severity::Incomplete, "LCMP Keys"@, 3, "No LCMP keys or localization table. Add keys for all user-facing strings (Key / ID / EN / ZH)."@))
    } else {
        None
    }
}

fn lcmp_check(cl: &[char], rl: &[char], strict: bool) -> (r: Option<Finding>)
    ensures
        opt_view(r) == lcmp_rule(cl@, rl@, strict),
{
    if !(has_exec(cl, rl, "lcmp") || has_exec(cl, rl, "localization") || has_exec(cl, rl, "multilanguage") || has_exec(cl, rl, "| key | en |") || has_exec(cl, rl, "| key | id |")) {
        Some(mk(Severity::Incomplete, "LCMP Keys", 3, "No LCMP keys or localization table. Add keys for all user-facing strings (Key / ID / EN / ZH)."))
    } else {
        None
    }
}

/// Rule 13: success metrics or KPIs.
pub open spec fn success_metrics_rule(cl: Seq<char>, rl: Seq<char>, strict: bool) -> Option<FindingModel> {
    if !(has(cl, rl, "success definition"@) || has(cl, rl, "success metric"@) || has(cl, rl, "## success"@) || has(cl, rl, "### success"@) || has(cl, rl, "kpi"@)) {
        Some(finding(if strict { Severity::Missing } else { Severity::Incomplete }, "Success Metrics"@, 5, "No success metrics found. Add primary and secondary KPIs to measure feature impact."@))
    } else {
        None
    }
}

fn success_metrics_check(cl: &[char], rl: &[char], strict: bool) -> (r: Option<Finding>)
    ensures
        opt_view(r) == success_metrics_rule(cl@, rl@, strict),
{
    if !(has_exec(cl, rl, "success definition") || has_exec(cl, rl, "success metric") || has_exec(cl, rl, "## success") || has_exec(cl, rl, "### success") || has_exec(cl, rl, "kpi")) {
        Some(mk(if strict { Severity::Missing } else { Severity::Incomplete }, "Success Metrics", 5, "No success metrics found. Add primary and secondary KPIs to measure feature impact."))
    } else {
        None
    }
}

/// Rule 14: links to related PRDs.
pub open spec fn related_prds_rule(cl: Seq<char>, rl: Seq<char>, strict: bool) -> Option<FindingModel> {
    if !(has(cl, rl, "related prd"@) || has(cl, rl, "## related"@)) {
        Some(finding(Severity::Suggestion, "Related PRDs"@, 2, "No related PRDs section. Consider linking dependent or related specifications."@))
    } else {
        None
    }
}

fn related_prds_check(cl: &[char], rl: &[char], strict: bool) -> (r: Option<Finding>)
    ensures
        opt_view(r) == related_prds_rule(cl@, rl@, strict),
{
    if !(has_exec(cl, rl, "related prd") || has_exec(cl, rl, "## related")) {
        Some(mk(Severity::Suggestion, "Related PRDs", 2, "No related PRDs section. Consider linking dependent or related specifications."))
    } else {
        None
    }
}


// ───────────────────────── 6. Acceptance Criteria ─────────────────────────

/// A line of `s` that, trimmed, starts a numbered list (`1.`) or a checklist
/// item (`- [`).
pub open spec fn has_numbered_line(s: Seq<char>) -> bool {
    exists|i: int|
        0 <= i < lines_spec(s).len() && {
            let t = trim_spec(#[trigger] lines_spec(s)[i]);
            starts_with_spec(t, "1."@) || starts_with_spec(t, "- ["@)
        }
}

fn has_numbered_line_exec(s: &[char]) -> (b: bool)
    ensures
        b == has_numbered_line(s@),
{
    let ls = lines(s);
    let one = to_chars("1.");
    let check = to_chars("- [");
    let mut i: usize = 0;
    while i < ls.len()
        invariant
            i <= ls.len(),
            views(ls@) == lines_spec(s@),
            forall|k: int|
                0 <= k < i ==> {
                    let t = trim_spec(#[trigger] lines_spec(s@)[k]);
                    !(starts_with_spec(t, one@) || starts_with_spec(t, check@))
                },
            one@ == "1."@,
            check@ == "- ["@,
        decreases ls.len() - i,
    {
        let t = trim(ls[i].as_slice());
        assert(views(ls@)[i as int] == ls@[i as int]@);
        if starts_with(t.as_slice(), one.as_slice()) || starts_with(t.as_slice(), check.as_slice()) {
            return true;
        }
        i = i + 1;
    }
    false
}

/// Rule 6: acceptance criteria, written as testable conditions
/// (Given/When/Then or a numbered checklist).
pub open spec fn acceptance_rule(
    content: Seq<char>,
    raw: Seq<char>,
    cl: Seq<char>,
    rl: Seq<char>,
) -> Option<FindingModel> {
    if !(has(cl, rl, "acceptance criteria"@) || has(cl, rl, "## acceptance"@)) {
        Some(
            finding(
                Severity::Missing,
                "Acceptance Criteria"@,
                15,
                "No acceptance criteria found. Add testable conditions (Given/When/Then) that define when each feature is done."@,
            ),
        )
    } else {
        let testable = has(cl, rl, "given"@) && has(cl, rl, "when"@) && has(cl, rl, "then"@);
        let numbered = has_numbered_line(content) || has_numbered_line(raw);
        if !testable && !numbered {
            Some(
                finding(
                    Severity::Incomplete,
                    "Acceptance Criteria"@,
                    5,
                    "Acceptance criteria exist but may not be structured as testable conditions. Use Given/When/Then or numbered checklist."@,
                ),
            )
        } else {
            None
        }
    }
}

fn acceptance_check(content: &[char], raw: &[char], cl: &[char], rl: &[char]) -> (r: Option<
    Finding,
>)
    ensures
        opt_view(r) == acceptance_rule(content@, raw@, cl@, rl@),
{
    if !(has_exec(cl, rl, "acceptance criteria") || has_exec(cl, rl, "## acceptance")) {
        Some(
            mk(
                Severity::Missing,
                "Acceptance Criteria",
                15,
                "No acceptance criteria found. Add testable conditions (Given/When/Then) that define when each feature is done.",
            ),
        )
    } else {
        let testable = has_exec(cl, rl, "given") && has_exec(cl, rl, "when") && has_exec(
            cl,
            rl,
            "then",
        );
        let numbered = has_numbered_line_exec(content) || has_numbered_line_exec(raw);
        if !testable && !numbered {
            Some(
                mk(
                    Severity::Incomplete,
                    "Acceptance Criteria",
                    5,
                    "Acceptance criteria exist but may not be structured as testable conditions. Use Given/When/Then or numbered checklist.",
                ),
            )
        } else {
            None
        }
    }
}

// ───────────────────────── 7. Feature Sections ─────────────────────────

/// Rule 7: feature sections; in strict mode each also needs Layout and
/// Data & Update sub-sections.
pub open spec fn features_rule(cl: Seq<char>, rl: Seq<char>, strict: bool) -> Option<FindingModel> {
    let has_features = has(cl, rl, "## enhancement"@) || has(cl, rl, "### enhancement"@) || has(
        cl,
        rl,
        "# fe requirement"@,
    ) || has(cl, rl, "## fe requirement"@) || has(cl, rl, "## compose"@) || has(
        cl,
        rl,
        "## question"@,
    ) || has(cl, rl, "### layout"@) || has(cl, rl, "### rules"@) || has(
        cl,
        rl,
        "scope requirements:"@,
    ) || has(cl, rl, "**scope requirements**"@) || has(cl, rl, "# scope requirement"@) || has(
        cl,
        rl,
        "**location**:"@,
    );
    if !has_features {
        Some(
            finding(
                Severity::Missing,
                "Feature Sections"@,
                15,
                "No feature/enhancement sections found. Add detailed specs per feature with Layout, Rules, Data & Update, Edge Cases."@,
            ),
        )
    } else if strict {
        let has_layout = has(cl, rl, "### layout"@) || has(cl, rl, "| layout"@);
        let has_data = has(cl, rl, "data & update"@) || has(cl, rl, "data source"@) || has(
            cl,
            rl,
            "api endpoint"@,
        ) || has(cl, rl, "update behavior"@) || has(cl, rl, "update frequency"@);
        if !has_layout || !has_data {
            let missing = if !has_layout && !has_data {
                "Layout, Data & Update Behavior"@
            } else if !has_layout {
                "Layout"@
            } else {
                "Data & Update Behavior"@
            };
            Some(
                finding(
                    Severity::Incomplete,
                    "Feature Sections"@,
                    5,
                    "Feature sections missing sub-sections: "@ + missing
                        + ". Each feature needs Layout, Rules, Data & Update, Edge Cases."@,
                ),
            )
        } else {
            None
        }
    } else {
        None
    }
}

fn features_check(cl: &[char], rl: &[char], strict: bool) -> (r: Option<Finding>)
    ensures
        opt_view(r) == features_rule(cl@, rl@, strict),
{
    let has_features = has_exec(cl, rl, "## enhancement") || has_exec(cl, rl, "### enhancement")
        || has_exec(cl, rl, "# fe requirement") || has_exec(cl, rl, "## fe requirement")
        || has_exec(cl, rl, "## compose") || has_exec(cl, rl, "## question") || has_exec(
        cl,
        rl,
        "### layout",
    ) || has_exec(cl, rl, "### rules") || has_exec(cl, rl, "scope requirements:") || has_exec(
        cl,
        rl,
        "**scope requirements**",
    ) || has_exec(cl, rl, "# scope requirement") || has_exec(cl, rl, "**location**:");
    if !has_features {
        Some(
            mk(
                Severity::Missing,
                "Feature Sections",
                15,
                "No feature/enhancement sections found. Add detailed specs per feature with Layout, Rules, Data & Update, Edge Cases.",
            ),
        )
    } else if strict {
        let has_layout = has_exec(cl, rl, "### layout") || has_exec(cl, rl, "| layout");
        let has_data = has_exec(cl, rl, "data & update") || has_exec(cl, rl, "data source")
            || has_exec(cl, rl, "api endpoint") || has_exec(cl, rl, "update behavior") || has_exec(
            cl,
            rl,
            "update frequency",
        );
        if !has_layout || !has_data {
            let missing: &str = if !has_layout && !has_data {
                "Layout, Data & Update Behavior"
            } else if !has_layout {
                "Layout"
            } else {
                "Data & Update Behavior"
            };
            let mut msg = String::new();
            crate::text::push_str(&mut msg, "Feature sections missing sub-sections: ");
            crate::text::push_str(&mut msg, missing);
            crate::text::push_str(
                &mut msg,
                ". Each feature needs Layout, Rules, Data & Update, Edge Cases.",
            );
            let r = Finding {
                severity: Severity::Incomplete,
                section: "Feature Sections".to_owned(),
                points: 5,
                message: msg,
            };
            assert(r@.message =~= features_rule(cl@, rl@, strict)->Some_0.message);
            Some(r)
        } else {
            None
        }
    } else {
        None
    }
}

// ───────────────────────── 8. Design Reference ─────────────────────────

/// Rule 8: a Figma link, or at least labelled design images.
pub open spec fn design_rule(cl: Seq<char>, rl: Seq<char>, strict: bool) -> Option<FindingModel> {
    let has_figma = has(cl, rl, "figma.com"@) || has(cl, rl, "figma link"@) || has(
        cl,
        rl,
        "figma design"@,
    );
    let has_images = has(cl, rl, "| design |"@) || has(cl, rl, "| design|"@) || has(
        cl,
        rl,
        "|design|"@,
    ) || (has(cl, rl, ".png"@) && has(cl, rl, "figure"@));
    if !has_figma && !has_images {
        Some(
            finding(
                Severity::Missing,
                "Design Reference"@,
                8,
                "No design reference found. Add a Figma link or embed design images with figure labels."@,
            ),
        )
    } else if !has_figma && has_images {
        Some(
            finding(
                Severity::Suggestion,
                "Design Reference"@,
                if strict {
                    3
                } else {
                    2
                },
                "Design images found but no Figma link. Add a Figma URL for developers to inspect spacing, colors, and specs."@,
            ),
        )
    } else {
        None
    }
}

fn design_check(cl: &[char], rl: &[char], strict: bool) -> (r: Option<Finding>)
    ensures
        opt_view(r) == design_rule(cl@, rl@, strict),
{
    let has_figma = has_exec(cl, rl, "figma.com") || has_exec(cl, rl, "figma link") || has_exec(
        cl,
        rl,
        "figma design",
    );
    let has_images = has_exec(cl, rl, "| design |") || has_exec(cl, rl, "| design|") || has_exec(
        cl,
        rl,
        "|design|",
    ) || (has_exec(cl, rl, ".png") && has_exec(cl, rl, "figure"));
    if !has_figma && !has_images {
        Some(
            mk(
                Severity::Missing,
                "Design Reference",
                8,
                "No design reference found. Add a Figma link or embed design images with figure labels.",
            ),
        )
    } else if !has_figma && has_images {
        Some(
            mk(
                Severity::Suggestion,
                "Design Reference",
                if strict {
                    3
                } else {
                    2
                },
                "Design images found but no Figma link. Add a Figma URL for developers to inspect spacing, colors, and specs.",
            ),
        )
    } else {
        None
    }
}

// ───────────────────────── cross-cutting: vague language ─────────────────────────

/// The vague phrases, in the order they are looked for.
pub open spec fn vague_phrases() -> Seq<Seq<char>> {
    seq![
        "improve the"@,
        "better user experience"@,
        "make it easier"@,
        "enhance the"@,
        "optimize the"@,
        "as needed"@,
        "if necessary"@,
        "should be good"@,
        "nice to have"@,
        "tbd"@,
        "to be decided"@,
    ]
}

fn vague_phrase(i: usize) -> (r: &'static str)
    requires
        i < 11,
    ensures
        r@ == vague_phrases()[i as int],
{
    if i == 0 { "improve the" }
    else if i == 1 { "better user experience" }
    else if i == 2 { "make it easier" }
    else if i == 3 { "enhance the" }
    else if i == 4 { "optimize the" }
    else if i == 5 { "as needed" }
    else if i == 6 { "if necessary" }
    else if i == 7 { "should be good" }
    else if i == 8 { "nice to have" }
    else if i == 9 { "tbd" }
    else { "to be decided" }
}

/// The first vague phrase, from index `i` of the list on, that the
/// lower-cased formatted PRD contains.
pub open spec fn first_vague_from(cl: Seq<char>, i: int) -> Option<Seq<char>>
    decreases 11 - i,
{
    if i < 0 || i >= 11 {
        None
    } else if contains_spec(cl, vague_phrases()[i]) {
        Some(vague_phrases()[i])
    } else {
        first_vague_from(cl, i + 1)
    }
}

/// Cross-cutting rule: vague language in the formatted PRD (the first vague
/// phrase found is reported).
pub open spec fn vague_rule(cl: Seq<char>) -> Option<FindingModel> {
    match first_vague_from(cl, 0) {
        Some(p) => Some(
            finding(
                Severity::Incomplete,
                "Requirements Clarity"@,
                3,
                "Vague language found: \""@ + p
                    + "\". Replace with specific, measurable requirements."@,
            ),
        ),
        None => None,
    }
}

fn vague_check(cl: &[char]) -> (r: Option<Finding>)
    ensures
        opt_view(r) == vague_rule(cl@),
{
    let mut i: usize = 0;
    while i < 11
        invariant
            i <= 11,
            first_vague_from(cl@, 0) == first_vague_from(cl@, i as int),
        decreases 11 - i,
    {
        let p = vague_phrase(i);
        let pc = to_chars(p);
        if contains(cl, pc.as_slice()) {
            let mut msg = String::new();
            crate::text::push_str(&mut msg, "Vague language found: \"");
            crate::text::push_str(&mut msg, p);
            crate::text::push_str(&mut msg, "\". Replace with specific, measurable requirements.");
            let r = Finding {
                severity: Severity::Incomplete,
                section: "Requirements Clarity".to_owned(),
                points: 3,
                message: msg,
            };
            assert(r@.message =~= vague_rule(cl@)->Some_0.message);
            return Some(r);
        }
        i = i + 1;
    }
    None
}

// ───────────────────────── cross-cutting: figure references ─────────────────────────

/// Cross-cutting rule: design figures (`figure x.`) that no rule references.
pub open spec fn figure_rule(cl: Seq<char>, rl: Seq<char>) -> Option<FindingModel> {
    let figure_count = count_matches_spec(cl, "figure x."@) + count_matches_spec(rl, "figure x."@);
    let rule_refs = count_matches_spec(cl, "figure x."@) + count_matches_spec(cl, "show figure"@);
    if figure_count > 0 && rule_refs == 0 {
        Some(
            finding(
                Severity::Suggestion,
                "Design-Rule Linkage"@,
                2,
                "Found "@ + crate::text::decimal_spec(figure_count)
                    + " design figures but rules don't reference them. Link each figure to its corresponding rule."@,
            ),
        )
    } else {
        None
    }
}

fn figure_check(cl: &[char], rl: &[char]) -> (r: Option<Finding>)
    ensures
        opt_view(r) == figure_rule(cl@, rl@),
{
    let fig = to_chars("figure x.");
    let show = to_chars("show figure");
    proof {
        reveal_strlit("figure x.");
        reveal_strlit("show figure");
    }
    let in_content = count_matches(cl, fig.as_slice());
    let in_raw = count_matches(rl, fig.as_slice());
    let shown = count_matches(cl, show.as_slice());
    if (in_content > 0 || in_raw > 0) && in_content == 0 && shown == 0 {
        let n = in_raw as u64;
        let digits = crate::text::decimal(n);
        let mut msg = String::new();
        crate::text::push_str(&mut msg, "Found ");
        crate::text::push_chars(&mut msg, digits.as_slice());
        crate::text::push_str(
            &mut msg,
            " design figures but rules don't reference them. Link each figure to its corresponding rule.",
        );
        let r = Finding {
            severity: Severity::Suggestion,
            section: "Design-Rule Linkage".to_owned(),
            points: 2,
            message: msg,
        };
        assert(r@.message =~= figure_rule(cl@, rl@)->Some_0.message);
        Some(r)
    } else {
        None
    }
}

// ───────────────────────── the review ─────────────────────────

/// The findings of the review, in the framework's order, for the formatted
/// PRD `content` and the markdown `raw` it was made from.
pub open spec fn review_spec(content: Seq<char>, raw: Seq<char>, strict: bool) -> Seq<FindingModel> {
    let cl = lowercase(content);
    let rl = lowercase(raw);
    opt_seq(metadata_rule(cl, rl, strict)) + opt_seq(background_rule(cl, rl, strict)) + opt_seq(
        objectives_rule(cl, rl, strict),
    ) + opt_seq(scope_rule(cl, rl, strict)) + opt_seq(general_rules_rule(cl, rl, strict))
        + opt_seq(acceptance_rule(content, raw, cl, rl)) + opt_seq(features_rule(cl, rl, strict))
        + opt_seq(design_rule(cl, rl, strict)) + opt_seq(user_flows_rule(cl, rl, strict)) + opt_seq(
        tech_docs_rule(cl, rl, strict),
    ) + opt_seq(event_tracking_rule(cl, rl, strict)) + opt_seq(lcmp_rule(cl, rl, strict))
        + opt_seq(success_metrics_rule(cl, rl, strict)) + opt_seq(related_prds_rule(cl, rl, strict))
        + opt_seq(vague_rule(cl)) + opt_seq(figure_rule(cl, rl))
}

fn push_opt(out: &mut Vec<Finding>, f: Option<Finding>)
    ensures
        findings_view(final(out)@) == findings_view(old(out)@) + opt_seq(opt_view(f)),
{
    match f {
        Some(x) => {
            out.push(x);
            assert(findings_view(out@) =~= findings_view(old(out)@) + opt_seq(opt_view(Some(x))));
        },
        None => {
            assert(findings_view(out@) =~= findings_view(old(out)@) + opt_seq(opt_view(None)));
        },
    }
}

/// Reviews a PRD with the 14-section framework: one finding per missing or
/// incomplete section, then the cross-cutting checks (see `review_spec`).
/// `strict` selects the strict weights. Of ASCII texts, which std
/// lower-cases character by character, the review is `ascii_review_spec`.
pub fn review_prd(content: &str, raw_md: &str, strict: bool) -> (r: Vec<Finding>)
    ensures
        findings_view(r@) == review_spec(content@, raw_md@, strict),
        is_ascii_text(content@) && is_ascii_text(raw_md@) ==> findings_view(r@)
            == crate::prd::laws::ascii_review_spec(content@, raw_md@, strict),
{
    let cls = to_lowercase(content);
    let rls = to_lowercase(raw_md);
    proof {
        if is_ascii_text(content@) && is_ascii_text(raw_md@) {
            crate::prd::laws::lemma_review_of_ascii(content@, raw_md@, strict);
        }
    }
    let cl = to_chars(cls.as_str());
    let rl = to_chars(rls.as_str());
    let c = to_chars(content);
    let rw = to_chars(raw_md);
    let cl = cl.as_slice();
    let rl = rl.as_slice();
    let mut out: Vec<Finding> = Vec::new();
    push_opt(&mut out, metadata_check(cl, rl, strict));
    push_opt(&mut out, background_check(cl, rl, strict));
    push_opt(&mut out, objectives_check(cl, rl, strict));
    push_opt(&mut out, scope_check(cl, rl, strict));
    push_opt(&mut out, general_rules_check(cl, rl, strict));
    push_opt(&mut out, acceptance_check(c.as_slice(), rw.as_slice(), cl, rl));
    push_opt(&mut out, features_check(cl, rl, strict));
    push_opt(&mut out, design_check(cl, rl, strict));
    push_opt(&mut out, user_flows_check(cl, rl, strict));
    push_opt(&mut out, tech_docs_check(cl, rl, strict));
    push_opt(&mut out, event_tracking_check(cl, rl, strict));
    push_opt(&mut out, lcmp_check(cl, rl, strict));
    push_opt(&mut out, success_metrics_check(cl, rl, strict));
    push_opt(&mut out, related_prds_check(cl, rl, strict));
    push_opt(&mut out, vague_check(cl));
    push_opt(&mut out, figure_check(cl, rl));
    proof {
        assert(findings_view(Seq::<Finding>::empty()) =~= Seq::<FindingModel>::empty());
    }
    out
}

} // verus!
