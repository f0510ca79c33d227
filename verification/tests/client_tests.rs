use prd_reviewer::config::{FigmaSection, JiraSection, TuntunConfig, WikiSection};
use prd_reviewer::figma::client::{
    file_nodes_url, file_url, on_rate_limited, parse_retry_after, RetryAction,
};
use prd_reviewer::figma::output::{OutputArgs, OutputFormat};
use prd_reviewer::jira::client::{
    agile_base, boards_url, extract_host, issue_resource_url, issue_url, page_url,
    search_issues_url, search_pages_url, sprints_url, Credentials,
};
use prd_reviewer::jira::config::{derive_wiki_base, Config};
use prd_reviewer::jira::error::JiraError;

fn s(x: &str) -> String {
    x.to_string()
}

fn settings(export_dir: &str) -> TuntunConfig {
    TuntunConfig {
        jira: JiraSection { access_token: s("J"), base_url: s("https://jira.x/rest/api/2") },
        wiki: WikiSection { access_token: s("W"), base_url: s("https://wiki.x/rest/api/content") },
        figma: FigmaSection { personal_token: s("F"), default_team_id: s("T"), export_dir: s(export_dir) },
    }
}

#[test]
fn hosts_are_read() {
    assert_eq!(extract_host("https://jira.example.com/rest/api/2"), "jira.example.com");
    assert_eq!(extract_host("https://h"), "h");
    assert_eq!(extract_host("plain"), "plain");
}

#[test]
fn settings_load_and_validate() {
    let cfg = Config::load(Ok(settings(""))).unwrap();
    assert_eq!(cfg.base_url_wiki, "https://wiki.x");
    assert_eq!(cfg.base_url_api, "https://wiki.x/rest/api/content");
    assert!(cfg.validate().is_ok());
    match Config::load(Err(s("boom"))) {
        Err(JiraError::Config(m)) => assert_eq!(m, "boom"),
        _ => panic!("expected a config error"),
    }
    let mut bad = Config::load(Ok(settings(""))).unwrap();
    bad.base_url_jira = String::new();
    match bad.validate() {
        Err(JiraError::Config(m)) => assert_eq!(m, "jira.base_url is required"),
        _ => panic!("expected a config error"),
    }
    let figma = prd_reviewer::figma::config::Config::load(Ok(settings(""))).unwrap();
    assert_eq!(figma.export_dir, "./");
    let figma = prd_reviewer::figma::config::Config::load(Ok(settings("/out"))).unwrap();
    assert_eq!(figma.export_dir, "/out");
}

#[test]
fn wiki_root_is_derived() {
    assert_eq!(derive_wiki_base("https://wiki.x/rest/api/content"), "https://wiki.x");
    assert_eq!(derive_wiki_base("https://wiki.x//"), "https://wiki.x");
}

#[test]
fn tokens_are_routed_by_host() {
    let cfg = Config::load(Ok(settings(""))).unwrap();
    let c = Credentials::new(&cfg);
    assert_eq!(c.auth_header("https://wiki.x/download/a.png"), (s("Authorization"), s("Bearer W")));
    assert_eq!(c.auth_header("https://jira.x/rest/api/2/issue/A-1"), (s("Authorization"), s("Bearer J")));
    assert_eq!(c.auth_header("https://elsewhere/x"), (s("Authorization"), s("Bearer J")));
    let none = Credentials { jira_token: s(""), wiki_token: s(""), jira_host: s("a"), wiki_host: s("b") };
    assert_eq!(none.auth_header("https://b/x"), (s(""), s("")));
    assert!(none.auth_for_url("https://b/x").is_none());
}

#[test]
fn jira_urls() {
    assert_eq!(agile_base("https://jira.x/rest/api/2"), "https://jira.x/rest/agile/1.0");
    assert_eq!(agile_base("https://jira.x"), "https://jira.x");
    assert_eq!(issue_url("B", "A-1", ""), "B/issue/A-1");
    assert_eq!(issue_url("B", "A-1", "renderedFields"), "B/issue/A-1?expand=renderedFields");
    assert_eq!(issue_resource_url("B", "A-1", "comment"), "B/issue/A-1/comment");
    assert_eq!(search_issues_url("B", "project = X", 50), "B/search?jql=project%20%3D%20X&maxResults=50");
    assert_eq!(boards_url("G", ""), "G/board");
    assert_eq!(boards_url("G", "MY PRJ"), "G/board?projectKeyOrId=MY%20PRJ");
    assert_eq!(sprints_url("G", 7), "G/board/7/sprint");
}

#[test]
fn wiki_urls() {
    assert_eq!(page_url("B", "42", "version"), "B/42?expand=version");
    assert_eq!(
        search_pages_url("B", "My Page", "", "SP", 10),
        "B/search?cql=title~%22My%20Page%22%20AND%20space%3D%22SP%22&limit=10"
    );
    assert_eq!(search_pages_url("B", "t", "type=page", "", 5), "B/search?cql=type%3Dpage&limit=5");
    assert_eq!(search_pages_url("B", "", "", "", -1), "B/search?limit=-1");
}

#[test]
fn retry_after_header() {
    assert_eq!(parse_retry_after(""), 5);
    assert_eq!(parse_retry_after("30"), 30);
    assert_eq!(parse_retry_after("500"), 120);
    assert_eq!(parse_retry_after("0"), 5);
    assert_eq!(parse_retry_after("abc"), 5);
    assert_eq!(parse_retry_after("+7"), 7);
    assert!(matches!(on_rate_limited(3, "10"), RetryAction::GiveUp));
    assert!(matches!(on_rate_limited(0, "10"), RetryAction::Wait(10)));
}

#[test]
fn figma_urls() {
    assert_eq!(file_url("B", "K", 2), "B/v1/files/K?depth=2");
    assert_eq!(
        file_nodes_url("B", "K", &vec![s("1:2"), s("3:4")]),
        "B/v1/files/K/nodes?ids=1%3A2,3%3A4"
    );
}

#[test]
fn output_flags() {
    assert!(matches!(OutputFormat::from_flags(true, true), OutputFormat::Json));
    assert!(matches!(OutputFormat::from_flags(false, true), OutputFormat::Yaml));
    assert!(matches!(OutputArgs { json: false, yaml: false }.format(), OutputFormat::Table));
}

#[test]
fn error_messages() {
    let e = JiraError::Api { status: 404, body: s("nf") };
    assert_eq!(e.message(), "API error 404: nf");
    assert_eq!(JiraError::Config(s("x")).message(), "Config error: x");
}
