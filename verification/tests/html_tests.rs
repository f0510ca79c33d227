use sha2::Digest;
use prd_reviewer::html::convert::{
    convert_to_lightweight_markdown, convert_to_markdown, is_known_lang, preprocess_html,
    try_convert_to_markdown,
};
use prd_reviewer::html::guard::html2md_safe_exec;
use prd_reviewer::html::images::{
    downloadable_image_urls, image_filename, is_downloadable_image_url, rewrite_images,
};
use prd_reviewer::html::markup::{
    cell_to_text, decode_entities, extract_attr, find_top_level_table, strip_tags, table_to_markdown,
};

fn chars(s: &str) -> Vec<char> {
    s.chars().collect()
}

fn text(v: Vec<char>) -> String {
    v.into_iter().collect()
}

#[test]
fn entities_are_decoded_in_order() {
    assert_eq!(
        text(decode_entities(&chars("&lt;b&gt; &amp;quot; &#39;x&#39;"))),
        "<b> &quot; 'x'"
    );
}

#[test]
fn tags_are_stripped() {
    assert_eq!(text(strip_tags(&chars("<p>Hi <b>there</b></p>"))), "Hi there");
}

#[test]
fn known_languages() {
    assert!(is_known_lang(&chars("json")));
    assert!(is_known_lang(&chars("toml")));
    assert!(!is_known_lang(&chars("rust")));
}

#[test]
fn attributes_are_read() {
    let tag = chars(r#"<img src="a.png" alt="Logo">"#);
    assert_eq!(extract_attr(&tag, &chars("alt")).map(text), Some("Logo".to_string()));
    assert_eq!(extract_attr(&tag, &chars("title")), None);
}

#[test]
fn outer_table_is_found_with_its_nested_table() {
    let html = "x<table><tr><td><table><tr><td>in</td></tr></table></td></tr></table>y";
    let (pre, tab, post) = find_top_level_table(&chars(html)).unwrap();
    assert_eq!(text(pre), "x");
    assert_eq!(text(tab), "<table><tr><td><table><tr><td>in</td></tr></table></td></tr></table>");
    assert_eq!(text(post), "y");
    assert!(find_top_level_table(&chars("<table><tr>")).is_none());
}

#[test]
fn header_tables_become_pipe_tables() {
    let html = "<table><tr><th>A</th><th>B</th></tr><tr><td>1</td><td>2|3</td></tr></table>";
    assert_eq!(text(table_to_markdown(&chars(html))), "| A | B |\n| --- | --- |\n| 1 | 2\\|3 |");
}

#[test]
fn wide_tables_are_padded() {
    let html = "<table><tr><td>a</td><td>b</td><td>c</td></tr><tr><td>d</td></tr></table>";
    assert_eq!(
        text(table_to_markdown(&chars(html))),
        "| a | b | c |\n| --- | --- | --- |\n| d |  |  |"
    );
}

#[test]
fn two_column_tables_become_key_values() {
    let html = "<table><tr><th>Owner</th><td>Bob</td></tr><tr><td>note</td><td></td></tr></table>";
    assert_eq!(text(table_to_markdown(&chars(html))), "**Owner:** Bob\n\nnote");
}

#[test]
fn metadata_tables_keep_chosen_fields() {
    let html = "<table><tr><th>Document Status</th><td>Draft</td></tr><tr><th>Document Owner</th><td>Ann</td></tr><tr><th>Figma</th><td>link</td></tr></table>";
    assert_eq!(text(table_to_markdown(&chars(html))), "**Figma:** link");
}

#[test]
fn tables_without_rows_lose_their_tags() {
    assert_eq!(text(table_to_markdown(&chars("<table>text</table>"))), "text");
}

#[test]
fn nested_tables_are_flattened_in_cells() {
    let html = chars("<table><tr><th>H1</th><th>H2</th></tr><tr><td>x</td><td>y</td></tr></table>");
    assert_eq!(text(cell_to_text(&html, html.len())), "H1: x | H2: y");
}

#[test]
fn cell_markup_becomes_markdown() {
    let html = chars(
        "<p>Hello <strong>World</strong><br/>next</p><ul><li>one</li><li><b>two</b></li></ul><a href=\"http://x\">link</a><img src=\"i.png\" alt=\"pic\">",
    );
    assert_eq!(
        text(cell_to_text(&html, html.len())),
        "Hello **World**\nnext\n\n- one\n- **two**[link](http://x)\n\n![pic](i.png)"
    );
}

#[test]
fn code_blocks_are_fenced_before_conversion() {
    let html = chars("<pre class=\"syntaxhighlighter-pre\" data-x=\"1\">json\n{&quot;a&quot;: 1}\n</pre>");
    assert_eq!(text(preprocess_html(&html, &[])), "\n\n```json\n{\"a\": 1}\n```\n\n");
}

#[test]
fn relative_links_are_made_absolute() {
    let html = chars("<img src=\"/download/a.png\"><a href=\"/pages/x\">x</a>");
    assert_eq!(
        text(preprocess_html(&html, &chars("https://w"))),
        "<img src=\"https://w/download/a.png\" alt=\"\"><a href=\"https://w/pages/x\">x</a>"
    );
}

#[test]
fn lightweight_conversion_keeps_structure() {
    let html = "<h2>Title</h2><p>Some <em>text</em> &amp; more</p><table><tr><th>K</th><th>V</th></tr><tr><td>a</td><td>b</td></tr></table>";
    assert_eq!(
        convert_to_lightweight_markdown(html, "https://wiki/"),
        "## Title\n\nSome *text* & more\n\n| K | V |\n| --- | --- |\n| a | b |"
    );
}

#[test]
fn full_conversion_puts_tables_back() {
    let md = convert_to_markdown("<p>Intro</p><table><tr><th>A</th><th>B</th><th>C</th></tr></table>", "");
    assert!(md.starts_with("Intro"));
    assert!(md.contains("| A | B | C |\n| --- | --- | --- |"));
    assert!(!md.contains("TBLPLACEHOLDER"));
}

#[test]
fn attachment_links_are_downloadable() {
    assert!(is_downloadable_image_url("https://w/download/attachments/1/x.png"));
    assert!(is_downloadable_image_url("https://j/secure/attachment/9/y.png"));
    assert!(!is_downloadable_image_url("https://other/y.png"));
}

#[test]
fn image_links_are_listed_and_rewritten() {
    let md = "![a](https://w/download/attachments/1/x.png) ![b](https://other/y.png)";
    assert_eq!(downloadable_image_urls(md), vec!["https://w/download/attachments/1/x.png".to_string()]);
    let cached = vec![("https://w/download/attachments/1/x.png".to_string(), "/tmp/x.png".to_string())];
    assert_eq!(rewrite_images(md, &cached), "![a](/tmp/x.png) ![b](https://other/y.png)");
    assert_eq!(rewrite_images(md, &Vec::new()), md);
}

#[test]
fn cached_image_names() {
    assert_eq!(image_filename("https://w/download/attachments/123/pic.png?version=1"), "pic.png");
    assert_eq!(image_filename("https://x/files/photo.jpg?x=1"), "photo.jpg");
    let url = "https://x/rest/api/2/attachment/content/999";
    let mut h = sha2::Sha256::new();
    h.update(url.as_bytes());
    let d = h.finalize();
    let hex: String = d[..8].iter().map(|b| format!("{:02x}", b)).collect();
    assert_eq!(image_filename(url), format!("{}.png", hex));
}

#[test]
fn list_item_outside_a_list_is_refused() {
    assert!(!html2md_safe_exec(&chars("<p></p><b>y<li></li></b>")));
    assert!(!html2md_safe_exec(&chars("<ul><li>a</li></ul><li>b</li>")));
    assert!(try_convert_to_markdown("<p></p><b>y<li></li></b>", "").is_none());
}

#[test]
fn list_items_inside_lists_are_accepted() {
    assert!(html2md_safe_exec(&chars("<ul><li>a</li><li>b</li></ul>")));
    assert!(html2md_safe_exec(&chars("<OL><b><li>a</li></b></OL>")));
    assert!(html2md_safe_exec(&chars("<ul><li title=\"x>y\">a</li></ul>")));
    assert!(html2md_safe_exec(&chars("<p title=\"<li>\">a < b</p>")));
    let md = try_convert_to_markdown("<ul><li>a</li><li>b</li></ul>", "").unwrap();
    assert!(md.contains("* a"));
    assert!(md.contains("* b"));
}

#[test]
fn constructs_the_guard_does_not_follow_are_refused() {
    assert!(!html2md_safe_exec(&chars("<plaintext>a")));
    assert!(!html2md_safe_exec(&chars("<table><tr><td>a</td></tr></table>")));
    assert!(!html2md_safe_exec(&chars("<svg><ul><li>a</li></ul></svg>")));
}

#[test]
fn comments_and_declarations_are_skipped() {
    assert!(!html2md_safe_exec(&chars("<p>a</p><!-- <ul> --><li>x</li>")));
    assert!(html2md_safe_exec(&chars("<!-- <li> --><ul><li>x</li></ul>")));
    assert!(html2md_safe_exec(&chars("<!DOCTYPE html><ul><li>a</li></ul>")));
    assert!(!html2md_safe_exec(&chars("<!--><li>a</li>")));
    assert!(html2md_safe_exec(&chars("<!-- a -- b --!><ul><li>a</li></ul>")));
    assert!(!html2md_safe_exec(&chars("a </ b> <li>x</li>")));
    assert!(html2md_safe_exec(&chars("a </ b")));
}

#[test]
fn tables_set_aside_pass_the_guard() {
    let md = try_convert_to_markdown("<p>Intro</p><table><tr><th>A</th><th>B</th></tr></table>", "");
    assert!(md.unwrap().contains("| A | B |"));
}

#[test]
fn raw_text_is_skipped_to_its_end_tag() {
    assert!(html2md_safe_exec(&chars("<style><li></style><ul><li>a</li></ul>")));
    assert!(html2md_safe_exec(&chars("<ul><script>x</ul></script><li>a</li></ul>")));
    assert!(html2md_safe_exec(&chars("<title>a</TITLE ><ul><li>b</li></ul>")));
    assert!(!html2md_safe_exec(&chars("<style>p {}</style><li>x</li>")));
    assert!(html2md_safe_exec(&chars("<script><li>")));
}
