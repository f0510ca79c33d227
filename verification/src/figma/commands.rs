//! The decisions of the Figma commands: which node and team a command is
//! about, which image URL answers a render request, the names rendered
//! images are saved under, and the rows of the variable listing.
use vstd::prelude::*;
use crate::figma::error::{parse_error, FigmaError};
use crate::figma::models::{ImageResponse, VariableTableRow};
use crate::figma::output::copy_string;
use crate::text::{
    decimal, decimal_spec, extend_chars, from_chars, replace_char, replace_char_spec, to_chars,
};

verus! {

/// The node a command is about: the one named by flag, else the one in
/// the URL where it names one.
pub open spec fn chosen_node(flag: Option<Seq<char>>, url_node_id: Seq<char>) -> Option<Seq<char>> {
    match flag {
        Some(f) => Some(f),
        None => if url_node_id.len() == 0 {
            None
        } else {
            Some(url_node_id)
        },
    }
}

/// The view of an optional string.
pub open spec fn opt_chars(o: Option<String>) -> Option<Seq<char>> {
    match o {
        Some(s) => Some(s@),
        None => None,
    }
}

/// The node a command is about: see `chosen_node`.
pub fn chosen_node_id(flag: Option<String>, url_node_id: &str) -> (r: Option<String>)
    ensures
        opt_chars(r) == chosen_node(opt_chars(flag), url_node_id@),
{
    match flag {
        Some(f) => Some(f),
        None => {
            let u = to_chars(url_node_id);
            if u.len() == 0 {
                None
            } else {
                Some(from_chars(u.as_slice()))
            }
        },
    }
}

/// The node a node command is about; a parse error where neither the flag
/// nor the URL names one.
pub fn require_node_id(flag: Option<String>, url_node_id: &str) -> (r: Result<String, FigmaError>)
    ensures
        match chosen_node(opt_chars(flag), url_node_id@) {
            Some(n) => r matches Ok(s) && s@ == n,
            None => r matches Err(e) && parse_error(
                e,
                "--node is required (or pass a URL with node-id)"@,
            ),
        },
{
    match chosen_node_id(flag, url_node_id) {
        Some(n) => Ok(n),
        None => Err(
            FigmaError::Parse(
                from_chars(to_chars("--node is required (or pass a URL with node-id)").as_slice()),
            ),
        ),
    }
}

/// The node an export is about; a parse error where neither the flag nor
/// the URL names one.
pub fn require_export_node(flag: Option<String>, url_node_id: &str) -> (r: Result<String, FigmaError>)
    ensures
        match chosen_node(opt_chars(flag), url_node_id@) {
            Some(n) => r matches Ok(s) && s@ == n,
            None => r matches Err(e) && parse_error(
                e,
                "--node or a URL with node-id is required for export"@,
            ),
        },
{
    match chosen_node_id(flag, url_node_id) {
        Some(n) => Ok(n),
        None => Err(
            FigmaError::Parse(
                from_chars(
                    to_chars("--node or a URL with node-id is required for export").as_slice(),
                ),
            ),
        ),
    }
}

/// The team whose projects are listed: the one named by flag, else the
/// configured default where it is set; a configuration error otherwise.
pub fn team_id_choice(flag: Option<String>, default_team: Option<String>) -> (r: Result<String, FigmaError>)
    ensures
        match flag {
            Some(t) => r matches Ok(s) && s@ == t@,
            None => match default_team {
                Some(d) => if d@.len() > 0 {
                    r matches Ok(s) && s@ == d@
                } else {
                    r matches Err(FigmaError::Config(m)) && m@
                        == "--team is required (or set default_team_id in config)"@
                },
                None => r matches Err(FigmaError::Config(m)) && m@
                    == "--team is required (or set default_team_id in config)"@,
            },
        },
{
    match flag {
        Some(t) => Ok(t),
        None => {
            let missing = FigmaError::Config(
                from_chars(
                    to_chars("--team is required (or set default_team_id in config)").as_slice(),
                ),
            );
            match default_team {
                Some(d) => {
                    if to_chars(d.as_str()).len() > 0 {
                        Ok(d)
                    } else {
                        Err(missing)
                    }
                },
                None => Err(missing),
            }
        },
    }
}

// ───────────────────────── rendered images ─────────────────────────

/// The image URL a render request returned for a node, where there is a
/// non-empty one (the later entry for a node counts).
pub open spec fn image_url_spec(images: Seq<(String, Option<String>)>, node_id: Seq<char>) -> Option<
    Seq<char>,
>
    decreases images.len(),
{
    if images.len() == 0 {
        None
    } else if images.last().0@ == node_id {
        match images.last().1 {
            Some(u) => if u@.len() > 0 {
                Some(u@)
            } else {
                None
            },
            None => None,
        }
    } else {
        image_url_spec(images.drop_last(), node_id)
    }
}

/// The image URL for a node: see `image_url_spec`.
pub fn image_url_for(resp: &ImageResponse, node_id: &str) -> (r: Option<String>)
    ensures
        opt_chars(r) == image_url_spec(resp.images@, node_id@),
{
    let id = to_chars(node_id);
    let mut i: usize = resp.images.len();
    assert(resp.images@.take(i as int) =~= resp.images@);
    while i > 0
        invariant
            i <= resp.images.len(),
            id@ == node_id@,
            image_url_spec(resp.images@, node_id@) == image_url_spec(
                resp.images@.take(i as int),
                node_id@,
            ),
        decreases i,
    {
        let ghost t = resp.images@.take(i as int);
        assert(t.drop_last() =~= resp.images@.take(i - 1));
        let (k, v) = &resp.images[i - 1];
        if crate::text::eq_chars(to_chars(k.as_str()).as_slice(), id.as_slice()) {
            return match v {
                Some(u) => {
                    if to_chars(u.as_str()).len() > 0 {
                        Some(copy_string(u))
                    } else {
                        None
                    }
                },
                None => None,
            };
        }
        i = i - 1;
    }
    None
}

/// The image URL a screenshot downloads; an API error where the render
/// request returned none.
pub fn screenshot_url(resp: &ImageResponse, node_id: &str) -> (r: Result<String, FigmaError>)
    ensures
        match image_url_spec(resp.images@, node_id@) {
            Some(u) => r matches Ok(s) && s@ == u,
            None => r matches Err(FigmaError::Api { status, body }) && status == 0 && body@
                == "No image URL returned for this node"@,
        },
{
    match image_url_for(resp, node_id) {
        Some(u) => Ok(u),
        None => Err(
            FigmaError::Api {
                status: 0,
                body: from_chars(to_chars("No image URL returned for this node").as_slice()),
            },
        ),
    }
}

/// A screenshot needs a file key and a node: a parse error naming what is
/// missing, the file key first.
pub fn check_screenshot_target(file_key: &str, node_id: &str) -> (r: Result<(), FigmaError>)
    ensures
        file_key@.len() == 0 ==> (r matches Err(e) && parse_error(
            e,
            "Could not extract file key from URL"@,
        )),
        file_key@.len() > 0 && node_id@.len() == 0 ==> (r matches Err(e) && parse_error(
            e,
            "Could not extract node-id from URL. Add ?node-id=X-Y to the URL."@,
        )),
        file_key@.len() > 0 && node_id@.len() > 0 ==> r is Ok,
{
    if to_chars(file_key).len() == 0 {
        return Err(
            FigmaError::Parse(from_chars(to_chars("Could not extract file key from URL").as_slice())),
        );
    }
    if to_chars(node_id).len() == 0 {
        return Err(
            FigmaError::Parse(
                from_chars(
                    to_chars("Could not extract node-id from URL. Add ?node-id=X-Y to the URL.").as_slice(),
                ),
            ),
        );
    }
    Ok(())
}

/// An export fails where the render request reports an error.
pub fn check_export_error(err: &str) -> (r: Result<(), FigmaError>)
    ensures
        err@.len() == 0 ==> r is Ok,
        err@.len() > 0 ==> (r matches Err(FigmaError::Api { status, body }) && status == 0 && body@
            == "Figma API error: "@ + err@),
{
    if to_chars(err).len() == 0 {
        return Ok(());
    }
    let mut b = to_chars("Figma API error: ");
    extend_chars(&mut b, to_chars(err).as_slice());
    Err(FigmaError::Api { status: 0, body: from_chars(b.as_slice()) })
}

/// A node id as it goes into a file name: `:` becomes `-`.
pub fn safe_node_id(node_id: &str) -> (r: String)
    ensures
        r@ == replace_char_spec(node_id@, ':', '-'),
{
    from_chars(replace_char(to_chars(node_id).as_slice(), ':', '-').as_slice())
}

/// The file a node's preview image is saved under.
pub fn preview_filename(file_key: &str, node_id: &str) -> (r: String)
    ensures
        r@ == "figma_"@ + file_key@ + "_"@ + replace_char_spec(node_id@, ':', '-') + ".png"@,
{
    let mut v = to_chars("figma_");
    extend_chars(&mut v, to_chars(file_key).as_slice());
    extend_chars(&mut v, to_chars("_").as_slice());
    extend_chars(&mut v, to_chars(safe_node_id(node_id).as_str()).as_slice());
    extend_chars(&mut v, to_chars(".png").as_slice());
    from_chars(v.as_slice())
}

/// The file a screenshot at a whole-number scale is saved under.
pub fn screenshot_filename(file_key: &str, node_id: &str, scale: u32) -> (r: String)
    ensures
        r@ == "figma_"@ + file_key@ + "_"@ + replace_char_spec(node_id@, ':', '-') + "_"@
            + decimal_spec(scale as nat) + "x.png"@,
{
    let mut v = to_chars("figma_");
    extend_chars(&mut v, to_chars(file_key).as_slice());
    extend_chars(&mut v, to_chars("_").as_slice());
    extend_chars(&mut v, to_chars(safe_node_id(node_id).as_str()).as_slice());
    extend_chars(&mut v, to_chars("_").as_slice());
    extend_chars(&mut v, decimal(scale as u64).as_slice());
    extend_chars(&mut v, to_chars("x.png").as_slice());
    from_chars(v.as_slice())
}

// ───────────────────────── variables ─────────────────────────

/// What the variable listing reads of a variable.
#[derive(Debug)]
pub struct VariableSummary {
    pub id: String,
    pub name: String,
    pub resolved_type: String,
    pub variable_collection_id: String,
    pub description: String,
}

/// The name of a collection by id, empty where it is unknown (the later
/// entry for an id counts).
pub open spec fn collection_name(cols: Seq<(String, String)>, id: Seq<char>) -> Seq<char>
    decreases cols.len(),
{
    if cols.len() == 0 {
        Seq::<char>::empty()
    } else if cols.last().0@ == id {
        cols.last().1@
    } else {
        collection_name(cols.drop_last(), id)
    }
}

/// The listing row of a variable.
pub open spec fn variable_row_matches(
    row: VariableTableRow,
    v: VariableSummary,
    cols: Seq<(String, String)>,
) -> bool {
    &&& row.id@ == v.id@
    &&& row.name@ == v.name@
    &&& row.resolved_type@ == v.resolved_type@
    &&& row.collection_name@ == collection_name(cols, v.variable_collection_id@)
    &&& row.description@ == v.description@
}

fn collection_name_exec(cols: &Vec<(String, String)>, id: &str) -> (r: String)
    ensures
        r@ == collection_name(cols@, id@),
{
    let idv = to_chars(id);
    let mut i: usize = cols.len();
    assert(cols@.take(i as int) =~= cols@);
    while i > 0
        invariant
            i <= cols.len(),
            idv@ == id@,
            collection_name(cols@, id@) == collection_name(cols@.take(i as int), id@),
        decreases i,
    {
        let ghost t = cols@.take(i as int);
        assert(t.drop_last() =~= cols@.take(i - 1));
        let (k, name) = &cols[i - 1];
        if crate::text::eq_chars(to_chars(k.as_str()).as_slice(), idv.as_slice()) {
            return copy_string(name);
        }
        i = i - 1;
    }
    String::new()
}

/// The rows of the variable listing, one per variable in the order given,
/// with the name of its collection (`collections` maps ids to names).
pub fn variable_rows(vars: &Vec<VariableSummary>, collections: &Vec<(String, String)>) -> (r: Vec<
    VariableTableRow,
>)
    ensures
        r@.len() == vars@.len(),
        forall|i: int|
            0 <= i < vars@.len() ==> variable_row_matches(
                #[trigger] r@[i],
                vars@[i],
                collections@,
            ),
{
    let mut rows: Vec<VariableTableRow> = Vec::new();
    let mut i: usize = 0;
    while i < vars.len()
        invariant
            i <= vars.len(),
            rows@.len() == i,
            forall|j: int| 0 <= j < i ==> variable_row_matches(#[trigger] rows@[j], vars@[j], collections@),
        decreases vars.len() - i,
    {
        let v = &vars[i];
        rows.push(
            VariableTableRow {
                id: copy_string(&v.id),
                name: copy_string(&v.name),
                resolved_type: copy_string(&v.resolved_type),
                collection_name: collection_name_exec(collections, v.variable_collection_id.as_str()),
                description: copy_string(&v.description),
            },
        );
        i = i + 1;
    }
    rows
}

} // verus!
