use prd_reviewer::figma::models::{Comment, CommentUser, Mode, VariableCollection};
use prd_reviewer::figma::output::Tableable;
use prd_reviewer::jira::models::jira::JiraBoard;
use prd_reviewer::project_files::{config_status, has_marker, notes_file_update};

fn s(x: &str) -> String {
    x.to_string()
}

fn comment(message: &str, resolved: &str) -> Comment {
    Comment {
        id: s("1"),
        message: s(message),
        file_key: s("K"),
        parent_id: s("0"),
        user: CommentUser { handle: s("ann"), img_url: s("") },
        created_at: s("today"),
        resolved_at: s(resolved),
        order_id: s("1"),
    }
}

#[test]
fn board_rows() {
    let b = JiraBoard { id: 7, name: s("Team"), board_type: s("scrum") };
    assert_eq!(b.row(), vec![s("7"), s("Team"), s("scrum")]);
    assert_eq!(JiraBoard::headers(), vec!["ID", "Name", "Type"]);
}

#[test]
fn long_messages_are_shortened_by_bytes() {
    let long = "a".repeat(70);
    let row = comment(&long, "").row();
    assert_eq!(row[2], format!("{}...", "a".repeat(60)));
    assert_eq!(row[4], "");
    let accented = "\u{e9}".repeat(40);
    let row = comment(&accented, "yesterday").row();
    assert_eq!(row[2], format!("{}...", "\u{e9}".repeat(30)));
    assert_eq!(row[4], "yes");
    let short = comment("short", "").row();
    assert_eq!(short[2], "short");
}

#[test]
fn collection_rows_list_modes_and_counts() {
    let c = VariableCollection {
        id: s("c"),
        name: s("Colors"),
        key: s("k"),
        modes: vec![Mode { mode_id: s("1"), name: s("Light") }, Mode { mode_id: s("2"), name: s("Dark") }],
        variable_ids: vec![s("v1"), s("v2"), s("v3")],
    };
    assert_eq!(c.row(), vec![s("c"), s("Colors"), s("k"), s("Light, Dark"), s("3")]);
}

#[test]
fn notes_file_keeps_the_user_text() {
    assert_eq!(
        notes_file_update(Some("My notes\n\n<!-- m -->\nold"), "<!-- m -->", "new"),
        "My notes\n\n<!-- m -->\nnew"
    );
    assert_eq!(notes_file_update(Some("Mine  \n"), "<!-- m -->", "new"), "Mine\n\n<!-- m -->\nnew");
    assert_eq!(notes_file_update(None, "<!-- m -->", "new"), "<!-- m -->\nnew");
    assert!(has_marker("x <!-- m --> y", "<!-- m -->"));
    assert!(!has_marker("x", "<!-- m -->"));
}

#[test]
fn credentials_line() {
    assert_eq!(config_status(true, false, true), "Jira + Figma configured");
    assert_eq!(config_status(false, false, false), "No credentials configured");
}
