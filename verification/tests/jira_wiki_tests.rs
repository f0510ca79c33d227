use prd_reviewer::jira_wiki::{convert_inline_formatting, convert_jira_line, convert_jira_wiki};

fn chars(s: &str) -> Vec<char> {
    s.chars().collect()
}

fn text(v: Vec<char>) -> String {
    v.into_iter().collect()
}

#[test]
fn line_markup_becomes_markdown() {
    let wiki = "h1. Title\n* item\n** sub\n# one\n## two\n----\nbq. quote";
    assert_eq!(
        convert_jira_wiki(wiki, &Vec::new()),
        "# Title\n- item\n  - sub\n1. one\n  1. two\n\n---\n\n> quote"
    );
}

#[test]
fn headings_go_up_to_six_levels() {
    assert_eq!(text(convert_jira_line(&chars("h6. Deep"))), "###### Deep");
    assert_eq!(text(convert_jira_line(&chars("h7. x"))), "h7. x");
    assert_eq!(text(convert_jira_line(&chars("  plain  "))), "  plain  ");
}

#[test]
fn images_point_at_attachments() {
    let att = vec![(
        "shot.png".to_string(),
        "https://jira/secure/attachment/1/shot.png".to_string(),
    )];
    assert_eq!(
        convert_jira_wiki("See !shot.png|thumbnail! and !http://x/y.png! and !missing.png!", &att),
        "See ![shot.png](https://jira/secure/attachment/1/shot.png) and !http://x/y.png! and ![missing.png](missing.png)"
    );
}

#[test]
fn later_attachment_of_the_same_name_wins() {
    let att = vec![
        ("a.png".to_string(), "u1".to_string()),
        ("a.png".to_string(), "u2".to_string()),
    ];
    assert_eq!(convert_inline_formatting("!a.png!", &att), "![a.png](u2)");
}

#[test]
fn links_and_monospace() {
    assert_eq!(
        convert_jira_wiki("[Google|https://google.com] and [https://x.io] use {{cmd}} now", &Vec::new()),
        "[Google](https://google.com) and [https://x.io](https://x.io) use `cmd` now"
    );
}

#[test]
fn code_blocks_keep_their_language() {
    assert_eq!(
        convert_jira_wiki("{code:language=java}\nint x;\n{code}", &Vec::new()),
        "```java\nint x;\n\n```"
    );
    assert_eq!(convert_jira_wiki("{code}abc{code}", &Vec::new()), "```abc\n```");
    assert_eq!(convert_jira_wiki("{noformat}raw{noformat}", &Vec::new()), "```\nraw\n```");
}

#[test]
fn quotes_panels_and_colours() {
    assert_eq!(convert_jira_wiki("{quote}\nline1\nline2\n{quote}", &Vec::new()), "> line1\n> line2");
    assert_eq!(convert_jira_wiki("{panel:title=T}text{panel}", &Vec::new()), "> text");
    assert_eq!(convert_jira_wiki("{color:red}warn{color}", &Vec::new()), "warn");
}

#[test]
fn long_blank_runs_are_shortened() {
    assert_eq!(convert_jira_wiki("a\n\n\n\n\nb", &Vec::new()), "a\n\n\nb");
    assert_eq!(convert_jira_wiki("h2. A\r\nB", &Vec::new()), "## A\nB");
}
