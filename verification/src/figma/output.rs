//! Output formats and table rows of the listing commands.
use vstd::prelude::*;

verus! {

/// Items that can be listed as rows of a table: the column headers, and
/// the cells of one item's row.
pub trait Tableable {
    fn headers() -> Vec<&'static str>;

    fn row(&self) -> Vec<String>;
}

/// How a listing is written out.
#[derive(Clone, Copy, PartialEq, Eq, Structural)]
pub enum OutputFormat {
    Json,
    Yaml,
    Table,
}

impl OutputFormat {
    /// The format the flags ask for: JSON before YAML, a table where
    /// neither is set.
    pub fn from_flags(json: bool, yaml: bool) -> (r: OutputFormat)
        ensures
            r == (if json {
                OutputFormat::Json
            } else if yaml {
                OutputFormat::Yaml
            } else {
                OutputFormat::Table
            }),
    {
        if json {
            OutputFormat::Json
        } else if yaml {
            OutputFormat::Yaml
        } else {
            OutputFormat::Table
        }
    }
}

/// The output flags of the Figma commands.
pub struct OutputArgs {
    pub json: bool,
    pub yaml: bool,
}

impl OutputArgs {
    /// The format the flags ask for: see `OutputFormat::from_flags`.
    pub fn format(&self) -> (r: OutputFormat)
        ensures
            r == (if self.json {
                OutputFormat::Json
            } else if self.yaml {
                OutputFormat::Yaml
            } else {
                OutputFormat::Table
            }),
    {
        OutputFormat::from_flags(self.json, self.yaml)
    }
}

/// How a node tree is drawn: how deep (a negative depth draws all of it)
/// and whether node ids are shown.
pub struct AsciiTreeOptions {
    pub max_depth: i32,
    pub show_id: bool,
}

/// The views of a row's cells.
pub open spec fn cells_view(r: Seq<String>) -> Seq<Seq<char>> {
    r.map_values(|s: String| s@)
}

/// The text of an optional name, empty where there is none.
pub open spec fn name_or_empty(o: Option<Seq<char>>) -> Seq<char> {
    match o {
        Some(n) => n,
        None => Seq::<char>::empty(),
    }
}

/// Copies a string.
pub fn copy_string(s: &String) -> (r: String)
    ensures
        r@ == s@,
{
    crate::text::from_chars(crate::text::to_chars(s.as_str()).as_slice())
}

} // verus!
