//! Confluence pages and spaces, and the payloads that create and update
//! pages.
use vstd::prelude::*;
use crate::figma::output::{cells_view, copy_string, name_or_empty, Tableable};
use crate::text::{from_chars, signed_decimal, signed_decimal_spec};

verus! {

/// A page.
#[derive(Debug)]
pub struct WikiPage {
    pub id: String,
    pub page_type: String,
    pub title: String,
    pub status: String,
    pub version: Option<WikiVersion>,
    pub body: Option<WikiBody>,
    pub links: Option<WikiLinks>,
    pub space: Option<WikiSpace>,
}

/// A page's version and who made it.
#[derive(Debug)]
pub struct WikiVersion {
    pub number: i32,
    pub by: Option<WikiUser>,
}

/// A user.
#[derive(Debug)]
pub struct WikiUser {
    pub display_name: String,
}

/// A page's body, in storage and in view form.
#[derive(Debug)]
pub struct WikiBody {
    pub storage: Option<WikiStorage>,
    pub view: Option<WikiStorage>,
}

/// One form of a page's body.
#[derive(Debug)]
pub struct WikiStorage {
    pub value: String,
}

/// A page's links: the site's base URL and the page's web path.
#[derive(Debug)]
pub struct WikiLinks {
    pub base: String,
    pub web_ui: String,
    pub tiny_ui: String,
}

/// The result of a page search.
#[derive(Debug)]
pub struct WikiSearchResult {
    pub results: Vec<WikiPage>,
    pub size: i32,
}

/// A list of spaces.
#[derive(Debug)]
pub struct WikiSpaceList {
    pub results: Vec<WikiSpace>,
}

/// A space.
#[derive(Debug)]
pub struct WikiSpace {
    pub id: i32,
    pub key: String,
    pub name: String,
    pub space_type: String,
}

/// A page to create.
#[derive(Debug)]
pub struct WikiCreatePage {
    pub page_type: String,
    pub title: String,
    pub space: WikiSpaceRef,
    pub body: WikiBodyWrite,
    pub ancestors: Vec<WikiAncestor>,
}

/// A space named by its key.
#[derive(Debug)]
pub struct WikiSpaceRef {
    pub key: String,
}

/// A body to write.
#[derive(Debug)]
pub struct WikiBodyWrite {
    pub storage: WikiStorage,
}

/// A parent page.
#[derive(Debug)]
pub struct WikiAncestor {
    pub id: String,
}

/// A page update.
#[derive(Debug)]
pub struct WikiUpdatePage {
    pub page_type: String,
    pub title: String,
    pub version: WikiVersionWrite,
    pub body: WikiBodyWrite,
}

/// The version number of an update.
#[derive(Debug)]
pub struct WikiVersionWrite {
    pub number: i32,
}

/// A space's key, if there is a space.
pub open spec fn space_key(o: Option<WikiSpace>) -> Option<Seq<char>> {
    match o {
        Some(s) => Some(s.key@),
        None => None,
    }
}

/// A version's number in decimal, if there is a version.
pub open spec fn version_text(o: Option<WikiVersion>) -> Option<Seq<char>> {
    match o {
        Some(v) => Some(signed_decimal_spec(v.number as int)),
        None => None,
    }
}

impl Tableable for WikiPage {
    /// `ID`, `Title`, `Space`, `Status`, `Version`.
    fn headers() -> (r: Vec<&'static str>)
        ensures
            r@.map_values(|h: &str| h@) == seq!["ID"@, "Title"@, "Space"@, "Status"@, "Version"@],
    {
        let r = vec!["ID", "Title", "Space", "Status", "Version"];
        assert(r@.map_values(|h: &str| h@) =~= seq!["ID"@, "Title"@, "Space"@, "Status"@, "Version"@]);
        r
    }

    /// Id, title, space, status and version.
    fn row(&self) -> (r: Vec<String>)
        ensures
            cells_view(r@) == seq![
                self.id@,
                self.title@,
                name_or_empty(space_key(self.space)),
                self.status@,
                name_or_empty(version_text(self.version)),
            ],
    {
        let space = match &self.space {
            Some(s) => copy_string(&s.key),
            None => String::new(),
        };
        let version = match &self.version {
            Some(v) => from_chars(signed_decimal(v.number).as_slice()),
            None => String::new(),
        };
        let r = vec![
            copy_string(&self.id),
            copy_string(&self.title),
            space,
            copy_string(&self.status),
            version,
        ];
        assert(cells_view(r@) =~= seq![
            self.id@,
            self.title@,
            name_or_empty(space_key(self.space)),
            self.status@,
            name_or_empty(version_text(self.version)),
        ]);
        r
    }
}

impl Tableable for WikiSpace {
    /// `Key`, `Name`, `Type`.
    fn headers() -> (r: Vec<&'static str>)
        ensures
            r@.map_values(|h: &str| h@) == seq!["Key"@, "Name"@, "Type"@],
    {
        let r = vec!["Key", "Name", "Type"];
        assert(r@.map_values(|h: &str| h@) =~= seq!["Key"@, "Name"@, "Type"@]);
        r
    }

    /// Key, name and type.
    fn row(&self) -> (r: Vec<String>)
        ensures
            cells_view(r@) == seq![self.key@, self.name@, self.space_type@],
    {
        let r = vec![copy_string(&self.key), copy_string(&self.name), copy_string(&self.space_type)];
        assert(cells_view(r@) =~= seq![self.key@, self.name@, self.space_type@]);
        r
    }
}

} // verus!
