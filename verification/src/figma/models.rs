//! What the Figma API sends and receives: comments, components, styles,
//! images, projects, files, variable collections.
use vstd::prelude::*;
use vstd::utf8::{encode_scalar, encode_utf8};
use crate::figma::output::{cells_view, copy_string, Tableable};
use crate::prd::sections::{byte_len, byte_len_exec};
use crate::text::{decimal, decimal_spec, extend_chars, from_chars, join, join_spec, to_chars, views};

verus! {

// ───────────────────────── shortening by bytes ─────────────────────────

/// The UTF-8 length of a text grows by a character's encoding length
/// when the character is appended.
pub proof fn lemma_encode_push(s: Seq<char>, c: char)
    ensures
        encode_utf8(s.push(c)).len() == encode_utf8(s).len() + encode_scalar(c as u32).len(),
    decreases s.len(),
{
    let sp = s.push(c);
    assert(encode_utf8(sp) == encode_scalar(sp[0] as u32) + encode_utf8(sp.drop_first()));
    if s.len() == 0 {
        assert(sp.drop_first() =~= Seq::<char>::empty());
        assert(encode_utf8(Seq::<char>::empty()) =~= Seq::<u8>::empty());
        assert(encode_utf8(s) =~= Seq::<u8>::empty());
    } else {
        assert(sp.drop_first() =~= s.drop_first().push(c));
        assert(encode_utf8(s) == encode_scalar(s[0] as u32) + encode_utf8(s.drop_first()));
        lemma_encode_push(s.drop_first(), c);
    }
}

/// The number of characters, from `i` on, that fit in `n` UTF-8 bytes.
pub open spec fn fit_len(s: Seq<char>, n: nat, i: nat) -> nat
    decreases s.len() - i,
{
    if i < s.len() && byte_len(s.take(i + 1 as int)) <= n {
        fit_len(s, n, i + 1)
    } else {
        i
    }
}

/// A text longer than `n` UTF-8 bytes cut to the characters that fit in
/// them, with `...`; a shorter text as it is.
pub open spec fn shorten_spec(s: Seq<char>, n: nat) -> Seq<char> {
    if byte_len(s) > n {
        s.take(fit_len(s, n, 0) as int) + "..."@
    } else {
        s
    }
}

fn utf8_width(c: char) -> (w: usize)
    ensures
        w == encode_scalar(c as u32).len(),
{
    let v = c as u32;
    proof {
        vstd::utf8::char_is_scalar(c);
    }
    if v <= 0x7F {
        1
    } else if v <= 0x7FF {
        2
    } else if v <= 0xFFFF {
        3
    } else {
        4
    }
}

/// Shortens a text to `n` UTF-8 bytes: see `shorten_spec`. (std slicing
/// there would stop the program where byte `n` falls inside a character;
/// here that character is left out.)
pub fn shorten(s: &String, n: usize) -> (r: String)
    ensures
        r@ == shorten_spec(s@, n as nat),
{
    let v = to_chars(s.as_str());
    if byte_len_exec(v.as_slice()) <= n {
        return copy_string(s);
    }
    let mut i: usize = 0;
    let mut bytes: usize = 0;
    let mut stop = false;
    assert(v@.take(0) =~= Seq::<char>::empty());
    while i < v.len() && !stop
        invariant
            i <= v.len(),
            bytes == byte_len(v@.take(i as int)),
            bytes <= n,
            fit_len(v@, n as nat, 0) == fit_len(v@, n as nat, i as nat),
            stop ==> i < v.len() && byte_len(v@.take(i + 1)) > n,
        decreases v.len() - i, if stop { 0int } else { 1int },
    {
        let w = utf8_width(v[i]);
        proof {
            assert(v@.take(i + 1) =~= v@.take(i as int).push(v@[i as int]));
            lemma_encode_push(v@.take(i as int), v@[i as int]);
        }
        if w > n - bytes {
            stop = true;
        } else {
            bytes = bytes + w;
            i = i + 1;
        }
    }
    let mut r = crate::text::slice_vec(v.as_slice(), 0, i);
    extend_chars(&mut r, to_chars("...").as_slice());
    from_chars(r.as_slice())
}

// ───────────────────────── comments ─────────────────────────

/// A comment on a file.
#[derive(Debug)]
pub struct Comment {
    pub id: String,
    pub message: String,
    pub file_key: String,
    pub parent_id: String,
    pub user: CommentUser,
    pub created_at: String,
    pub resolved_at: String,
    pub order_id: String,
}

/// Who wrote a comment.
#[derive(Debug)]
pub struct CommentUser {
    pub handle: String,
    pub img_url: String,
}

/// The comments of a file.
#[derive(Debug)]
pub struct CommentsResponse {
    pub comments: Vec<Comment>,
}

/// A comment to post, as a reply where a comment id is given.
#[derive(Debug)]
pub struct CreateCommentRequest {
    pub message: String,
    pub comment_id: Option<String>,
}

impl Tableable for Comment {
    /// `ID`, `User`, `Message`, `Created`, `Resolved`, `Parent`.
    fn headers() -> (r: Vec<&'static str>)
        ensures
            r@.map_values(|h: &str| h@) == seq!["ID"@, "User"@, "Message"@, "Created"@, "Resolved"@, "Parent"@],
    {
        let r = vec!["ID", "User", "Message", "Created", "Resolved", "Parent"];
        assert(r@.map_values(|h: &str| h@) =~= seq!["ID"@, "User"@, "Message"@, "Created"@, "Resolved"@, "Parent"@]);
        r
    }

    /// Id, author, message (shortened to 60 bytes), date, `yes` where
    /// resolved, parent.
    fn row(&self) -> (r: Vec<String>)
        ensures
            cells_view(r@) == seq![
                self.id@,
                self.user.handle@,
                shorten_spec(self.message@, 60),
                self.created_at@,
                if self.resolved_at@.len() == 0 { Seq::<char>::empty() } else { "yes"@ },
                self.parent_id@,
            ],
    {
        let resolved = if to_chars(self.resolved_at.as_str()).len() == 0 {
            String::new()
        } else {
            from_chars(to_chars("yes").as_slice())
        };
        let r = vec![
            copy_string(&self.id),
            copy_string(&self.user.handle),
            shorten(&self.message, 60),
            copy_string(&self.created_at),
            resolved,
            copy_string(&self.parent_id),
        ];
        assert(cells_view(r@) =~= seq![
            self.id@,
            self.user.handle@,
            shorten_spec(self.message@, 60),
            self.created_at@,
            if self.resolved_at@.len() == 0 { Seq::<char>::empty() } else { "yes"@ },
            self.parent_id@,
        ]);
        r
    }
}

// ───────────────────────── components and styles ─────────────────────────

/// A published component.
#[derive(Debug)]
pub struct ComponentMeta {
    pub key: String,
    pub file_key: String,
    pub node_id: String,
    pub thumbnail_url: String,
    pub name: String,
    pub description: String,
    pub containing_frame: Option<FrameInfo>,
}

/// The frame a component sits in.
#[derive(Debug)]
pub struct FrameInfo {
    pub node_id: String,
    pub name: String,
}

/// The components of a file.
#[derive(Debug)]
pub struct FileComponentsResponse {
    pub meta: FileComponentsMeta,
}

/// The component list.
#[derive(Debug)]
pub struct FileComponentsMeta {
    pub components: Vec<ComponentMeta>,
}

/// A published style.
#[derive(Debug)]
pub struct StyleMeta {
    pub key: String,
    pub file_key: String,
    pub node_id: String,
    pub style_type: String,
    pub name: String,
    pub description: String,
}

/// The styles of a file.
#[derive(Debug)]
pub struct FileStylesResponse {
    pub meta: FileStylesMeta,
}

/// The style list.
#[derive(Debug)]
pub struct FileStylesMeta {
    pub styles: Vec<StyleMeta>,
}

impl Tableable for ComponentMeta {
    /// `Key`, `Name`, `Node ID`, `Description`.
    fn headers() -> (r: Vec<&'static str>)
        ensures
            r@.map_values(|h: &str| h@) == seq!["Key"@, "Name"@, "Node ID"@, "Description"@],
    {
        let r = vec!["Key", "Name", "Node ID", "Description"];
        assert(r@.map_values(|h: &str| h@) =~= seq!["Key"@, "Name"@, "Node ID"@, "Description"@]);
        r
    }

    /// Key, name, node id, description (shortened to 40 bytes).
    fn row(&self) -> (r: Vec<String>)
        ensures
            cells_view(r@) == seq![
                self.key@,
                self.name@,
                self.node_id@,
                shorten_spec(self.description@, 40),
            ],
    {
        let r = vec![
            copy_string(&self.key),
            copy_string(&self.name),
            copy_string(&self.node_id),
            shorten(&self.description, 40),
        ];
        assert(cells_view(r@) =~= seq![
            self.key@,
            self.name@,
            self.node_id@,
            shorten_spec(self.description@, 40),
        ]);
        r
    }
}

impl Tableable for StyleMeta {
    /// `Key`, `Name`, `Type`, `Node ID`, `Description`.
    fn headers() -> (r: Vec<&'static str>)
        ensures
            r@.map_values(|h: &str| h@) == seq!["Key"@, "Name"@, "Type"@, "Node ID"@, "Description"@],
    {
        let r = vec!["Key", "Name", "Type", "Node ID", "Description"];
        assert(r@.map_values(|h: &str| h@) =~= seq!["Key"@, "Name"@, "Type"@, "Node ID"@, "Description"@]);
        r
    }

    /// Key, name, type, node id, description (shortened to 40 bytes).
    fn row(&self) -> (r: Vec<String>)
        ensures
            cells_view(r@) == seq![
                self.key@,
                self.name@,
                self.style_type@,
                self.node_id@,
                shorten_spec(self.description@, 40),
            ],
    {
        let r = vec![
            copy_string(&self.key),
            copy_string(&self.name),
            copy_string(&self.style_type),
            copy_string(&self.node_id),
            shorten(&self.description, 40),
        ];
        assert(cells_view(r@) =~= seq![
            self.key@,
            self.name@,
            self.style_type@,
            self.node_id@,
            shorten_spec(self.description@, 40),
        ]);
        r
    }
}

// ───────────────────────── images ─────────────────────────

/// The rendered images of nodes: node id to image URL (none where the node
/// could not be rendered), and the error text.
#[derive(Debug)]
pub struct ImageResponse {
    pub images: Vec<(String, Option<String>)>,
    pub err: String,
}

// ───────────────────────── teams and projects ─────────────────────────

/// A project of a team.
#[derive(Debug)]
pub struct Project {
    pub id: String,
    pub name: String,
}

/// The projects of a team.
#[derive(Debug)]
pub struct ProjectsResponse {
    pub name: String,
    pub projects: Vec<Project>,
}

/// A file of a project.
#[derive(Debug)]
pub struct ProjectFile {
    pub key: String,
    pub name: String,
    pub thumbnail_url: String,
    pub last_modified: String,
}

/// The files of a project.
#[derive(Debug)]
pub struct ProjectFilesResponse {
    pub name: String,
    pub files: Vec<ProjectFile>,
}

impl Tableable for Project {
    /// `ID`, `Name`.
    fn headers() -> (r: Vec<&'static str>)
        ensures
            r@.map_values(|h: &str| h@) == seq!["ID"@, "Name"@],
    {
        let r = vec!["ID", "Name"];
        assert(r@.map_values(|h: &str| h@) =~= seq!["ID"@, "Name"@]);
        r
    }

    /// Id and name.
    fn row(&self) -> (r: Vec<String>)
        ensures
            cells_view(r@) == seq![self.id@, self.name@],
    {
        let r = vec![copy_string(&self.id), copy_string(&self.name)];
        assert(cells_view(r@) =~= seq![self.id@, self.name@]);
        r
    }
}

impl Tableable for ProjectFile {
    /// `Key`, `Name`, `Last Modified`.
    fn headers() -> (r: Vec<&'static str>)
        ensures
            r@.map_values(|h: &str| h@) == seq!["Key"@, "Name"@, "Last Modified"@],
    {
        let r = vec!["Key", "Name", "Last Modified"];
        assert(r@.map_values(|h: &str| h@) =~= seq!["Key"@, "Name"@, "Last Modified"@]);
        r
    }

    /// Key, name and last change.
    fn row(&self) -> (r: Vec<String>)
        ensures
            cells_view(r@) == seq![self.key@, self.name@, self.last_modified@],
    {
        let r = vec![copy_string(&self.key), copy_string(&self.name), copy_string(&self.last_modified)];
        assert(cells_view(r@) =~= seq![self.key@, self.name@, self.last_modified@]);
        r
    }
}

// ───────────────────────── variables ─────────────────────────

/// A variable as listed.
#[derive(Debug)]
pub struct VariableTableRow {
    pub id: String,
    pub name: String,
    pub resolved_type: String,
    pub collection_name: String,
    pub description: String,
}

/// A collection of variables with its modes.
#[derive(Debug)]
pub struct VariableCollection {
    pub id: String,
    pub name: String,
    pub key: String,
    pub modes: Vec<Mode>,
    pub variable_ids: Vec<String>,
}

/// A mode of a collection.
#[derive(Debug)]
pub struct Mode {
    pub mode_id: String,
    pub name: String,
}

impl Tableable for VariableTableRow {
    /// `ID`, `Name`, `Type`, `Collection`, `Description`.
    fn headers() -> (r: Vec<&'static str>)
        ensures
            r@.map_values(|h: &str| h@) == seq!["ID"@, "Name"@, "Type"@, "Collection"@, "Description"@],
    {
        let r = vec!["ID", "Name", "Type", "Collection", "Description"];
        assert(r@.map_values(|h: &str| h@) =~= seq!["ID"@, "Name"@, "Type"@, "Collection"@, "Description"@]);
        r
    }

    /// Id, name, type, collection, description (shortened to 40 bytes).
    fn row(&self) -> (r: Vec<String>)
        ensures
            cells_view(r@) == seq![
                self.id@,
                self.name@,
                self.resolved_type@,
                self.collection_name@,
                shorten_spec(self.description@, 40),
            ],
    {
        let r = vec![
            copy_string(&self.id),
            copy_string(&self.name),
            copy_string(&self.resolved_type),
            copy_string(&self.collection_name),
            shorten(&self.description, 40),
        ];
        assert(cells_view(r@) =~= seq![
            self.id@,
            self.name@,
            self.resolved_type@,
            self.collection_name@,
            shorten_spec(self.description@, 40),
        ]);
        r
    }
}

/// The names of the modes.
pub open spec fn mode_names(ms: Seq<Mode>) -> Seq<Seq<char>> {
    ms.map_values(|m: Mode| m.name@)
}

impl Tableable for VariableCollection {
    /// `ID`, `Name`, `Key`, `Modes`, `Variables`.
    fn headers() -> (r: Vec<&'static str>)
        ensures
            r@.map_values(|h: &str| h@) == seq!["ID"@, "Name"@, "Key"@, "Modes"@, "Variables"@],
    {
        let r = vec!["ID", "Name", "Key", "Modes", "Variables"];
        assert(r@.map_values(|h: &str| h@) =~= seq!["ID"@, "Name"@, "Key"@, "Modes"@, "Variables"@]);
        r
    }

    /// Id, name, key, the mode names joined by `, `, and the number of
    /// variables.
    fn row(&self) -> (r: Vec<String>)
        ensures
            cells_view(r@) == seq![
                self.id@,
                self.name@,
                self.key@,
                join_spec(mode_names(self.modes@), ", "@),
                decimal_spec(self.variable_ids@.len()),
            ],
    {
        let mut names: Vec<Vec<char>> = Vec::new();
        let mut i: usize = 0;
        while i < self.modes.len()
            invariant
                i <= self.modes.len(),
                views(names@) == mode_names(self.modes@).take(i as int),
            decreases self.modes.len() - i,
        {
            let ghost prev = views(names@);
            let n = to_chars(self.modes[i].name.as_str());
            names.push(n);
            proof {
                assert(views(names@) =~= prev.push(n@));
                assert(views(names@) =~= mode_names(self.modes@).take(i + 1));
            }
            i = i + 1;
        }
        assert(mode_names(self.modes@).take(self.modes.len() as int) =~= mode_names(self.modes@));
        let joined = from_chars(join(&names, to_chars(", ").as_slice()).as_slice());
        let count = from_chars(decimal(self.variable_ids.len() as u64).as_slice());
        let r = vec![
            copy_string(&self.id),
            copy_string(&self.name),
            copy_string(&self.key),
            joined,
            count,
        ];
        assert(cells_view(r@) =~= seq![
            self.id@,
            self.name@,
            self.key@,
            join_spec(mode_names(self.modes@), ", "@),
            decimal_spec(self.variable_ids@.len()),
        ]);
        r
    }
}

} // verus!
