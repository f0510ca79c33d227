use prd_reviewer::jira::client::{collection_url, export_has_fallback, export_output_path, export_url};
use prd_reviewer::jira::error::JiraError;
use prd_reviewer::jira::models::wiki::{WikiPage, WikiUser, WikiVersion};
use prd_reviewer::jira::render::{
    create_issue_fields, page_create_payload, page_update_payload, raw_prd_filename,
    require_status, update_issue_fields, FieldValue,
};
use prd_reviewer::project_files::{is_up_to_date, manifest_version, notes_file_update};

fn s(x: &str) -> String {
    x.to_string()
}

fn current(version: Option<i32>) -> WikiPage {
    WikiPage {
        id: s("7"),
        page_type: s("page"),
        title: s("Old title"),
        status: s("current"),
        version: version.map(|n| WikiVersion { number: n, by: Some(WikiUser { display_name: s("Ann") }) }),
        body: None,
        links: None,
        space: None,
    }
}

#[test]
fn collection_urls() {
    assert_eq!(collection_url("https://j/rest/api/2", "issue"), "https://j/rest/api/2/issue");
    assert_eq!(collection_url("https://j/rest/api/2", "project"), "https://j/rest/api/2/project");
}

#[test]
fn only_pdf_exports_fall_back() {
    assert!(export_has_fallback("pdf"));
    assert!(!export_has_fallback("html"));
    assert!(!export_has_fallback("PDF"));
    assert_eq!(export_url("https://w/rest/api/content", "9", "pdf"), "https://w/rest/api/content/9/export/pdf");
    assert_eq!(export_output_path("", "9", "html"), "page_9.html");
    assert_eq!(export_output_path("out.pdf", "9", "pdf"), "out.pdf");
}

#[test]
fn create_payload_names_the_parent_when_given() {
    let p = page_create_payload(s("SP"), s("Title"), s("<p>x</p>"), s("12"));
    assert_eq!(p.page_type, "page");
    assert_eq!(p.title, "Title");
    assert_eq!(p.space.key, "SP");
    assert_eq!(p.body.storage.value, "<p>x</p>");
    assert_eq!(p.ancestors.len(), 1);
    assert_eq!(p.ancestors[0].id, "12");
    assert!(page_create_payload(s("SP"), s("T"), s(""), s("")).ancestors.is_empty());
}

#[test]
fn update_payload_bumps_the_version() {
    let p = page_update_payload(&current(Some(4)), Some(s("New")), Some(s("<p>b</p>")));
    assert_eq!(p.page_type, "page");
    assert_eq!(p.title, "New");
    assert_eq!(p.version.number, 5);
    assert_eq!(p.body.storage.value, "<p>b</p>");
    let q = page_update_payload(&current(None), None, None);
    assert_eq!(q.title, "Old title");
    assert_eq!(q.version.number, 1);
    assert_eq!(q.body.storage.value, "");
}

#[test]
fn transition_needs_a_status() {
    assert_eq!(require_status(Some(s("Done"))).unwrap(), "Done");
    match require_status(None) {
        Err(JiraError::Config(m)) => {
            assert_eq!(m, "--status is required (or use --list to see available transitions)")
        }
        other => panic!("unexpected {:?}", other),
    }
}

#[test]
fn raw_prd_file_name() {
    assert_eq!(raw_prd_filename("a/b: c?"), "a-b- c.raw.md");
    assert_eq!(raw_prd_filename("  Plain  "), "Plain.raw.md");
}

#[test]
fn manifest_versions() {
    let manifest = "[package]\nname = \"tool\"\n  version = \"1.2.3\"\n[dependencies]\n";
    assert_eq!(manifest_version(manifest), Some(s("1.2.3")));
    assert_eq!(manifest_version("versions\nversion = \"\"\nversion = \"0.9\""), Some(s("0.9")));
    assert_eq!(manifest_version("name = \"x\""), None);
}

#[test]
fn up_to_date_needs_a_known_equal_version() {
    assert!(is_up_to_date("1.2.3", "1.2.3"));
    assert!(!is_up_to_date("1.2.4", "1.2.3"));
    assert!(!is_up_to_date("", ""));
}

fn shown(fields: &[(String, FieldValue)]) -> Vec<String> {
    fields
        .iter()
        .map(|(n, v)| match v {
            FieldValue::Text(t) => format!("{}={}", n, t),
            FieldValue::Keyed(k, t) => format!("{}.{}={}", n, k, t),
        })
        .collect()
}

#[test]
fn new_issue_fields() {
    let f = create_issue_fields(s("PROJ"), s("Task"), s("Do it"), s(""));
    assert_eq!(shown(&f), vec![s("project.key=PROJ"), s("issuetype.name=Task"), s("summary=Do it")]);
    let g = create_issue_fields(s("PROJ"), s("Bug"), s("Fix"), s("Steps"));
    assert_eq!(shown(&g)[3], "description=Steps");
}

#[test]
fn update_fields_in_order() {
    let f = update_issue_fields(Some(s("S")), None, Some(s("bob"))).unwrap();
    assert_eq!(shown(&f), vec![s("summary=S"), s("assignee.name=bob")]);
    match update_issue_fields(None, None, None) {
        Err(JiraError::Config(m)) => {
            assert_eq!(m, "no fields to update; use --summary, --description, or --assignee")
        }
        other => panic!("unexpected {:?}", other.is_ok()),
    }
}

#[test]
fn second_init_leaves_the_notes_file_alone() {
    let marker = "<!-- tool -->";
    let first = notes_file_update(Some("My notes\n\n"), marker, "section v1");
    assert_eq!(first, "My notes\n\n<!-- tool -->\nsection v1");
    let second = notes_file_update(Some(&first), marker, "section v1");
    assert_eq!(second, first);
    let updated = notes_file_update(Some(&first), marker, "section v2");
    assert_eq!(updated, "My notes\n\n<!-- tool -->\nsection v2");
}
