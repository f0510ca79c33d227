use prd_reviewer::jira::error::JiraError;
use prd_reviewer::jira::models::jira::{
    JiraAttachment, JiraComment, JiraCommentList, JiraIssue, JiraIssueFields, JiraIssueType,
    JiraStatus, JiraTransition, JiraUser,
};
use prd_reviewer::jira::models::wiki::{
    WikiBody, WikiLinks, WikiPage, WikiSpace, WikiStorage, WikiUser, WikiVersion,
};
use prd_reviewer::jira::render::{
    attachment_map, check_board, check_update_fields, comment_source, convert_issue_markup,
    find_transition, issue_markdown, page_markdown, prd_filename, task_filename, CommentSource,
};
use prd_reviewer::prd::format::{format_prd, raw_prd_content};

fn s(x: &str) -> String {
    x.to_string()
}

fn config_message(e: JiraError) -> String {
    match e {
        JiraError::Config(m) => m,
        other => panic!("not a config error: {:?}", other),
    }
}

fn sample_issue() -> JiraIssue {
    JiraIssue {
        key: s("PROJ-1"),
        fields: JiraIssueFields {
            summary: s("Fix it"),
            description: s("Desc"),
            status: Some(JiraStatus { name: s("Open") }),
            issuetype: Some(JiraIssueType { name: s("Bug") }),
            priority: None,
            assignee: Some(JiraUser { display_name: s("Ann"), name: s("ann") }),
            reporter: None,
            created: s("2024-01-01"),
            updated: s("2024-01-02"),
            comment: Some(JiraCommentList {
                comments: vec![JiraComment { author: None, body: s("hi"), created: s("c1") }],
            }),
            attachment: Vec::new(),
        },
    }
}

fn sample_page() -> WikiPage {
    WikiPage {
        id: s("42"),
        page_type: s("page"),
        title: s("T"),
        status: s("current"),
        version: Some(WikiVersion { number: 3, by: Some(WikiUser { display_name: s("Ann") }) }),
        body: Some(WikiBody { storage: None, view: Some(WikiStorage { value: s("Body") }) }),
        links: Some(WikiLinks { base: s("https://w"), web_ui: s("/x"), tiny_ui: s("") }),
        space: Some(WikiSpace { id: 1, key: s("SP"), name: s("Space"), space_type: s("global") }),
    }
}

#[test]
fn issue_markdown_with_comments() {
    let md = issue_markdown(&sample_issue(), true);
    assert_eq!(
        md,
        "# PROJ-1\n\n**Fix it**\n\n| Field | Value |\n| --- | --- |\n| Type | Bug |\n| Status | Open |\n| Assignee | Ann |\n| Created | 2024-01-01 |\n| Updated | 2024-01-02 |\n\n---\n\nDesc\n\n---\n\n## Comments (1)\n\n**Unknown** - _c1_\n\nhi\n\n"
    );
}

#[test]
fn issue_markdown_without_comments() {
    let md = issue_markdown(&sample_issue(), false);
    assert!(md.ends_with("| Updated | 2024-01-02 |\n\n---\n\nDesc\n"));
    assert!(!md.contains("Comments"));
}

#[test]
fn issue_markup_uses_the_issue_attachments() {
    let mut issue = sample_issue();
    issue.fields.description = s("!shot.png!");
    issue.fields.attachment = vec![JiraAttachment {
        filename: s("shot.png"),
        content: s("http://j/att/shot.png"),
        mime_type: s("image/png"),
    }];
    let map = attachment_map(&issue);
    assert_eq!(map, vec![(s("shot.png"), s("http://j/att/shot.png"))]);
    convert_issue_markup(&mut issue);
    assert_eq!(issue.fields.description, "![shot.png](http://j/att/shot.png)");
    assert_eq!(issue.fields.comment.unwrap().comments[0].body, "hi");
}

#[test]
fn page_markdown_has_a_metadata_line() {
    assert_eq!(
        page_markdown(&sample_page()),
        "# T\n\n**ID:** 42  |  **Space:** SP  |  **Version:** 3  |  **URL:** https://w/x\n\n---\n\nBody"
    );
}

#[test]
fn raw_prd_has_plain_metadata() {
    assert_eq!(
        raw_prd_content(&sample_page(), "text"),
        "PRD: T\n\nPage ID: 42\nSpace: SP\nVersion: 3\nLast Updated By: Ann\nSource: https://w/x\n\n---\n\ntext"
    );
}

#[test]
fn structured_prd_of_an_empty_page() {
    assert_eq!(
        format_prd(&sample_page(), ""),
        "# PRD: T\n\n## Metadata\n\n- **Page ID:** 42\n- **Space:** SP\n- **Version:** 3\n- **Last Updated By:** Ann\n- **Source:** https://w/x\n\n## Overview\n\nThis document describes the requirements for **T**."
    );
}

#[test]
fn transitions_are_found_by_name_or_target() {
    let ts = vec![
        JiraTransition { id: s("11"), name: s("Start"), to: Some(JiraStatus { name: s("In Progress") }) },
        JiraTransition { id: s("21"), name: s("Done"), to: None },
    ];
    assert_eq!(find_transition(&ts, "In Progress").unwrap(), "11");
    assert_eq!(find_transition(&ts, "Done").unwrap(), "21");
    assert_eq!(
        config_message(find_transition(&ts, "X").unwrap_err()),
        "transition 'X' not found; use --list to see available transitions"
    );
}

#[test]
fn saved_names_are_safe() {
    assert_eq!(prd_filename("a/b: c*?\"<>|d "), "a-b- c-d.md");
    assert_eq!(task_filename("PROJ-1"), "PROJ-1.md");
}

#[test]
fn argument_checks() {
    assert_eq!(config_message(check_board(0).unwrap_err()), "--board is required");
    assert!(check_board(5).is_ok());
    assert_eq!(
        config_message(check_update_fields(&None, &None, &None).unwrap_err()),
        "no fields to update; use --summary, --description, or --assignee"
    );
    assert!(check_update_fields(&None, &Some(s("d")), &None).is_ok());
    assert!(matches!(comment_source("f.txt", "b"), Ok(CommentSource::File(f)) if f == "f.txt"));
    assert!(matches!(comment_source("", "b"), Ok(CommentSource::Body(b)) if b == "b"));
    assert_eq!(config_message(comment_source("", "").err().unwrap()), "Provide --body or --file");
}
