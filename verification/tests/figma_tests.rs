use prd_reviewer::figma::client::image_urls_url;
use prd_reviewer::figma::commands::{
    check_export_error, check_screenshot_target, chosen_node_id, image_url_for, preview_filename,
    require_export_node, require_node_id, safe_node_id, screenshot_filename, screenshot_url,
    team_id_choice, variable_rows, VariableSummary,
};
use prd_reviewer::figma::config::Config;
use prd_reviewer::figma::error::FigmaError;
use prd_reviewer::figma::models::ImageResponse;
use prd_reviewer::figma::output::AsciiTreeOptions;
use prd_reviewer::figma::tree::{render_ascii_tree, TreeNode};

fn s(x: &str) -> String {
    x.to_string()
}

fn node(id: &str, name: &str, t: &str, children: Vec<TreeNode>) -> TreeNode {
    TreeNode { id: s(id), name: s(name), node_type: s(t), children }
}

fn sample_tree() -> TreeNode {
    node(
        "1",
        "A",
        "FRAME",
        vec![node("2", "B", "TEXT", vec![node("4", "D", "RECT", vec![])]), node("3", "C", "TEXT", vec![])],
    )
}

#[test]
fn tree_with_ids_and_no_depth_limit() {
    let lines = render_ascii_tree(&sample_tree(), &AsciiTreeOptions { max_depth: -1, show_id: true });
    assert_eq!(
        lines,
        vec![s("A (FRAME)"), s("├── B (TEXT) [2]"), s("│   └── D (RECT) [4]"), s("└── C (TEXT) [3]")]
    );
}

#[test]
fn tree_depth_limit_hides_deeper_nodes() {
    let lines = render_ascii_tree(&sample_tree(), &AsciiTreeOptions { max_depth: 1, show_id: false });
    assert_eq!(lines, vec![s("A (FRAME)"), s("├── B (TEXT)"), s("└── C (TEXT)")]);
    let root_only = render_ascii_tree(&sample_tree(), &AsciiTreeOptions { max_depth: 0, show_id: false });
    assert_eq!(root_only, vec![s("A (FRAME)")]);
}

#[test]
fn last_child_subtrees_are_indented_with_spaces() {
    let t = node("1", "R", "DOC", vec![node("2", "P", "PAGE", vec![node("3", "Q", "TEXT", vec![])])]);
    let lines = render_ascii_tree(&t, &AsciiTreeOptions { max_depth: -1, show_id: false });
    assert_eq!(lines, vec![s("R (DOC)"), s("└── P (PAGE)"), s("    └── Q (TEXT)")]);
}

#[test]
fn node_choice() {
    assert_eq!(chosen_node_id(Some(s("1:2")), "3:4"), Some(s("1:2")));
    assert_eq!(chosen_node_id(None, "3:4"), Some(s("3:4")));
    assert_eq!(chosen_node_id(None, ""), None);
    assert_eq!(require_node_id(None, "3:4").unwrap(), "3:4");
    match require_node_id(None, "") {
        Err(FigmaError::Parse(m)) => assert_eq!(m, "--node is required (or pass a URL with node-id)"),
        other => panic!("unexpected {:?}", other),
    }
    match require_export_node(None, "") {
        Err(FigmaError::Parse(m)) => assert_eq!(m, "--node or a URL with node-id is required for export"),
        other => panic!("unexpected {:?}", other),
    }
}

#[test]
fn team_choice() {
    assert_eq!(team_id_choice(Some(s("t1")), Some(s("t2"))).unwrap(), "t1");
    assert_eq!(team_id_choice(None, Some(s("t2"))).unwrap(), "t2");
    for default in [None, Some(s(""))] {
        match team_id_choice(None, default) {
            Err(FigmaError::Config(m)) => assert_eq!(m, "--team is required (or set default_team_id in config)"),
            other => panic!("unexpected {:?}", other),
        }
    }
}

#[test]
fn rendered_image_lookup() {
    let resp = ImageResponse {
        images: vec![(s("1:2"), Some(s("u1"))), (s("1:3"), None), (s("1:4"), Some(s(""))), (s("1:2"), Some(s("u2")))],
        err: s(""),
    };
    assert_eq!(image_url_for(&resp, "1:2"), Some(s("u2")));
    assert_eq!(image_url_for(&resp, "1:3"), None);
    assert_eq!(image_url_for(&resp, "1:4"), None);
    assert_eq!(image_url_for(&resp, "9:9"), None);
    assert_eq!(screenshot_url(&resp, "1:2").unwrap(), "u2");
    match screenshot_url(&resp, "1:3") {
        Err(FigmaError::Api { status, body }) => {
            assert_eq!(status, 0);
            assert_eq!(body, "No image URL returned for this node");
        }
        other => panic!("unexpected {:?}", other),
    }
}

#[test]
fn screenshot_and_export_checks() {
    assert!(check_screenshot_target("K", "1:2").is_ok());
    match check_screenshot_target("", "") {
        Err(FigmaError::Parse(m)) => assert_eq!(m, "Could not extract file key from URL"),
        other => panic!("unexpected {:?}", other),
    }
    match check_screenshot_target("K", "") {
        Err(FigmaError::Parse(m)) => assert_eq!(m, "Could not extract node-id from URL. Add ?node-id=X-Y to the URL."),
        other => panic!("unexpected {:?}", other),
    }
    assert!(check_export_error("").is_ok());
    match check_export_error("bad scale") {
        Err(FigmaError::Api { status, body }) => {
            assert_eq!(status, 0);
            assert_eq!(body, "Figma API error: bad scale");
        }
        other => panic!("unexpected {:?}", other),
    }
}

#[test]
fn saved_image_names() {
    assert_eq!(safe_node_id("1:2:3"), "1-2-3");
    assert_eq!(preview_filename("K", "1:2"), "figma_K_1-2.png");
    assert_eq!(screenshot_filename("K", "1:2", 2), "figma_K_1-2_2x.png");
}

#[test]
fn image_request_url() {
    assert_eq!(
        image_urls_url("https://api.figma.com", "K", &vec![s("1:2"), s("3 4")], "png", "2"),
        "https://api.figma.com/v1/images/K?ids=1%3A2,3%204&format=png&scale=2"
    );
}

#[test]
fn variable_rows_name_their_collection() {
    let vars = vec![
        VariableSummary {
            id: s("v1"),
            name: s("primary"),
            resolved_type: s("COLOR"),
            variable_collection_id: s("c1"),
            description: s("d"),
        },
        VariableSummary {
            id: s("v2"),
            name: s("gap"),
            resolved_type: s("FLOAT"),
            variable_collection_id: s("c9"),
            description: s(""),
        },
    ];
    let cols = vec![(s("c1"), s("Colors")), (s("c2"), s("Spacing"))];
    let rows = variable_rows(&vars, &cols);
    assert_eq!(rows.len(), 2);
    assert_eq!(rows[0].collection_name, "Colors");
    assert_eq!(rows[0].name, "primary");
    assert_eq!(rows[1].collection_name, "");
    assert_eq!(rows[1].resolved_type, "FLOAT");
}

#[test]
fn figma_error_messages() {
    assert_eq!(FigmaError::Config(s("x")).message(), "Config error: x");
    assert_eq!(FigmaError::Api { status: 404, body: s("nf") }.message(), "API error 404: nf");
    assert_eq!(FigmaError::Parse(s("p")).message(), "Parse error: p");
    assert_eq!(FigmaError::Http(s("h")).message(), "HTTP error: h");
    assert_eq!(FigmaError::Json(s("j")).message(), "JSON error: j");
    let io = std::io::Error::new(std::io::ErrorKind::Other, "disk full");
    assert_eq!(FigmaError::Io(io).message(), "IO error: disk full");
}

#[test]
fn figma_config_from_settings() {
    match Config::load(Err(s("no file"))) {
        Err(FigmaError::Config(m)) => assert_eq!(m, "no file"),
        _ => panic!("expected a configuration error"),
    }
    let c = Config { personal_token: s(""), default_team_id: s(""), export_dir: s("./") };
    match c.validate() {
        Err(FigmaError::Config(m)) => assert_eq!(m, "figma.personal_token is required. Run install.sh to set up"),
        _ => panic!("expected a configuration error"),
    }
}
