use prd_reviewer::templates::{agent_md, claude_md, fill, prd_template, skill_prd_reviewer, TextNames};

fn names() -> TextNames {
    TextNames {
        program: "prdx".to_string(),
        assistant: "Helper".to_string(),
        assistant_dir: ".helper".to_string(),
        role: "Assessor".to_string(),
        role_plural: "assessors".to_string(),
    }
}

#[test]
fn holes_are_filled_with_the_names() {
    assert_eq!(
        fill("run {program} in {assistant_dir} with {assistant}; {role}/{role_plural}", &names()),
        "run prdx in .helper with Helper; Assessor/assessors"
    );
    assert_eq!(fill("no holes here", &names()), "no holes here");
}

#[test]
fn project_notes_name_the_program() {
    let t = claude_md(&names());
    assert!(t.starts_with("# PRD Co-Pilot — Review · Generate · Adjust\n\nThis project uses the `prdx` CLI together with a Helper Code skill +"));
    assert!(t.contains("prdx prd fetch <PAGE_ID> --raw          # Raw markdown"));
    assert!(t.contains("`.helper/skills/prdx/SKILL.md`"));
    assert!(!t.contains("{program}"));
}

#[test]
fn agent_and_skill_files_are_filled() {
    let a = agent_md(&names());
    assert!(a.starts_with("---\nname: prdx\n"));
    assert!(a.contains("1. `prdx prd fetch <PAGE_ID> --raw`"));
    let s = skill_prd_reviewer(&names());
    assert!(s.starts_with("---\nname: prdx\n"));
    assert!(s.contains("**Assessor:** PRD Co-Pilot"));
    assert!(!s.contains('{') || !s.contains("{program}"));
}

#[test]
fn prd_template_lists_the_sections() {
    let t = prd_template(&names());
    assert!(t.starts_with("# PRD: T-"));
    assert!(t.contains("## 1. Metadata"));
    assert!(t.contains("(for assessors — 11-Section Standard, deductions sum to 100)"));
}
