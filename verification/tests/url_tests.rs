use prd_reviewer::figma::error::FigmaError;
use prd_reviewer::figma::url::{file_key, parse, parse_detailed, url_decode, url_encode};

fn parse_message(e: FigmaError) -> String {
    match e {
        FigmaError::Parse(m) => m,
        other => panic!("not a parse error: {:?}", other),
    }
}

#[test]
fn design_url_gives_file_key() {
    let u = parse("https://www.figma.com/design/abc123DEF/My-Design").unwrap();
    assert_eq!(u.file_key, "abc123DEF");
    assert_eq!(u.node_id, "");
    assert_eq!(u.url_type, "design");
}

#[test]
fn node_id_is_converted_to_api_form() {
    let u = parse("https://www.figma.com/design/abc123DEF/My-Design?node-id=1-23").unwrap();
    assert_eq!(u.node_id, "1:23");
}

#[test]
fn detailed_parse_of_a_design_link() {
    let d = parse_detailed("https://www.figma.com/design/abc123DEF/My-Design?node-id=1-23&t=tok").unwrap();
    assert_eq!(d.kind, "url");
    assert_eq!(d.scheme.as_deref(), Some("https"));
    assert_eq!(d.host.as_deref(), Some("www.figma.com"));
    assert_eq!(d.path.as_deref(), Some("/design/abc123DEF/My-Design"));
    assert_eq!(d.url_type.as_deref(), Some("design"));
    assert!(!d.is_branch);
    assert_eq!(d.file_key, "abc123DEF");
    assert_eq!(d.file_slug.as_deref(), Some("My-Design"));
    assert_eq!(d.sharing_view_token.as_deref(), Some("tok"));
    let node = d.node.unwrap();
    assert_eq!(node.raw, "1-23");
    assert_eq!(node.api_format, "1:23");
    assert_eq!(node.url_encoded, "1%3A23");
    assert_eq!(d.links.figma_design, "https://www.figma.com/design/abc123DEF/My-Design");
    assert_eq!(d.links.rest_file, "https://api.figma.com/v1/files/abc123DEF");
    assert_eq!(
        d.links.rest_nodes.as_deref(),
        Some("https://api.figma.com/v1/files/abc123DEF/nodes?ids=1%3A23")
    );
    assert_eq!(
        d.links.web.as_deref(),
        Some("https://www.figma.com/design/abc123DEF/My-Design?node-id=1-23&t=tok")
    );
}

#[test]
fn bare_host_is_normalised_in_the_web_link() {
    let d = parse_detailed("https://figma.com/file/KEY1/Name").unwrap();
    assert_eq!(d.host.as_deref(), Some("figma.com"));
    assert_eq!(d.links.web.as_deref(), Some("https://www.figma.com/file/KEY1/Name"));
    assert_eq!(d.links.figma_design, "https://www.figma.com/file/KEY1/Name");
}

#[test]
fn branch_links_name_the_branch_and_its_parent() {
    let d = parse_detailed("https://www.figma.com/design/PARENT/branch/BRANCH123/Name").unwrap();
    assert!(d.is_branch);
    assert_eq!(d.parent_file_key.as_deref(), Some("PARENT"));
    assert_eq!(d.file_key, "BRANCH123");
    assert_eq!(d.file_slug.as_deref(), Some("Name"));
}

#[test]
fn slug_segments_are_unescaped_and_joined() {
    let d = parse_detailed("https://www.figma.com/design/KEY/My%20Design/extra").unwrap();
    assert_eq!(d.file_slug.as_deref(), Some("My Design/extra"));
}

#[test]
fn later_query_value_wins_and_empty_values_are_dropped() {
    let d = parse_detailed("https://www.figma.com/design/KEY/N?node-id=1-2&node-id=3-4&t=").unwrap();
    assert_eq!(d.node.unwrap().api_format, "3:4");
    assert!(d.sharing_view_token.is_none());
}

#[test]
fn plain_key_is_kept() {
    assert_eq!(file_key("  abc123DEF  "), "abc123DEF");
    let d = parse_detailed("abc123DEF").unwrap();
    assert_eq!(d.kind, "file_key");
    assert_eq!(d.file_key, "abc123DEF");
    assert_eq!(d.links.figma_design, "https://www.figma.com/design/abc123DEF");
    assert!(d.links.web.is_none());
    let u = parse("abc123DEF").unwrap();
    assert_eq!(u.url_type, "");
}

#[test]
fn parse_errors_name_the_problem() {
    assert_eq!(parse_message(parse_detailed("   ").unwrap_err()), "empty input");
    assert_eq!(
        parse_message(parse_detailed("figma.com/design/x").unwrap_err()),
        "invalid URL: missing scheme"
    );
    assert_eq!(
        parse_message(parse_detailed("https://www.figma.com").unwrap_err()),
        "invalid URL: missing path"
    );
    assert_eq!(
        parse_message(parse_detailed("https://www.figma.com/design").unwrap_err()),
        "cannot parse Figma URL: expected /design/:fileKey/... or /file/:fileKey/..."
    );
    assert_eq!(
        parse_message(parse_detailed("https://www.figma.com/unknown/KEY").unwrap_err()),
        "cannot parse Figma URL: unsupported path type \"unknown\""
    );
}

#[test]
fn file_key_falls_back_to_the_input() {
    assert_eq!(file_key("https://figma.com"), "https://figma.com");
}

#[test]
fn percent_encoding_and_decoding() {
    assert_eq!(url_encode("a b/\u{fc}~"), "a%20b%2F%C3%BC~");
    assert_eq!(url_decode("a%20b%2Fc"), "a b/c");
    assert_eq!(url_decode("%zz"), "%zz");
    assert_eq!(url_decode("%+5x"), "\u{5}x");
    assert_eq!(url_decode("ab%4"), "ab%4");
}

#[test]
fn query_keeps_one_pair_per_name() {
    let d = parse_detailed("https://www.figma.com/design/KEY/N?a=1&b=2&a=3").unwrap();
    assert_eq!(
        d.query,
        vec![("a".to_string(), "3".to_string()), ("b".to_string(), "2".to_string())]
    );
}

#[test]
fn ascii_text_survives_encoding_and_decoding() {
    let s = "Hello World/?&=~";
    assert_eq!(url_decode(&url_encode(s)), s);
}
