//! The Markdown written for an issue, a wiki page and a PRD, and the
//! decisions of the issue and page commands (attachments, transitions,
//! payloads, checks of the arguments).
use vstd::prelude::*;
use crate::jira::error::{config_error, JiraError};
use crate::jira::models::jira::{
    issue_type_name, priority_name, status_name, user_display, JiraComment, JiraIssue,
    JiraTransition, JiraUser,
};
use crate::jira::models::wiki::{
    space_key, WikiAncestor, WikiBodyWrite, WikiCreatePage, WikiPage, WikiSpaceRef, WikiStorage,
    WikiUpdatePage, WikiVersion, WikiVersionWrite,
};
use crate::jira_wiki::{convert_jira_wiki, jira_wiki_spec, AttachmentMap};
use crate::figma::url::pairs_view;
use crate::prd::sections::{parse_into_sections, parse_into_sections_spec, SectionsModel};
use crate::html::markup::{collapse_blank, collapse_blank_spec};
use crate::html::tables::replace_lit_str;
use crate::text::{
    decimal, decimal_spec, extend_chars, from_chars, replace_spec, signed_decimal,
    signed_decimal_spec, to_chars, trim, trim_spec,
};

verus! {

fn push(out: &mut Vec<char>, s: &str)
    ensures
        final(out)@ == old(out)@ + s@,
{
    extend_chars(out, to_chars(s).as_slice());
}

fn push_string(out: &mut Vec<char>, s: &String)
    ensures
        final(out)@ == old(out)@ + s@,
{
    extend_chars(out, to_chars(s.as_str()).as_slice());
}

// ───────────────────────── issues ─────────────────────────

/// A `| label | value |` row where there is a value.
pub open spec fn field_row(label: Seq<char>, v: Option<Seq<char>>) -> Seq<char> {
    match v {
        Some(x) => "| "@ + label + " | "@ + x + " |\n"@,
        None => Seq::<char>::empty(),
    }
}

/// A comment: bold author (`Unknown` where there is none), italic date,
/// then the body.
pub open spec fn comment_md(c: JiraComment) -> Seq<char> {
    let author = match user_display(c.author) {
        Some(a) => a,
        None => "Unknown"@,
    };
    "**"@ + author + "** - _"@ + c.created@ + "_\n\n"@ + c.body@ + "\n\n"@
}

/// The comments, one after the other.
pub open spec fn comments_md(cs: Seq<JiraComment>) -> Seq<char>
    decreases cs.len(),
{
    if cs.len() == 0 {
        Seq::<char>::empty()
    } else {
        comments_md(cs.drop_last()) + comment_md(cs.last())
    }
}

/// The head of an issue's Markdown: key as title, bold summary, and the
/// table of its fields (type, status, priority, assignee and reporter where
/// set; created and updated).
pub open spec fn issue_head_spec(issue: JiraIssue) -> Seq<char> {
    let f = issue.fields;
    "# "@ + issue.key@ + "\n\n"@ + "**"@ + f.summary@ + "**\n\n"@
        + "| Field | Value |\n| --- | --- |\n"@ + field_row("Type"@, issue_type_name(f.issuetype))
        + field_row("Status"@, status_name(f.status)) + field_row(
        "Priority"@,
        priority_name(f.priority),
    ) + field_row("Assignee"@, user_display(f.assignee)) + field_row(
        "Reporter"@,
        user_display(f.reporter),
    ) + "| Created | "@ + f.created@ + " |\n"@ + "| Updated | "@ + f.updated@ + " |\n"@
}

/// The description under a rule, where there is one.
pub open spec fn issue_desc_spec(issue: JiraIssue) -> Seq<char> {
    if issue.fields.description@.len() > 0 {
        "\n---\n\n"@ + issue.fields.description@ + "\n"@
    } else {
        Seq::<char>::empty()
    }
}

/// With `comments`, the comments under a rule and a counted heading.
pub open spec fn issue_comments_spec(issue: JiraIssue, comments: bool) -> Seq<char> {
    match issue.fields.comment {
        Some(cl) => if comments {
            "\n---\n\n## Comments ("@ + decimal_spec(cl.comments@.len()) + ")\n\n"@ + comments_md(
                cl.comments@,
            )
        } else {
            Seq::<char>::empty()
        },
        None => Seq::<char>::empty(),
    }
}

/// An issue in Markdown: its head, its description, and with `comments`
/// its comments.
pub open spec fn issue_md_spec(issue: JiraIssue, comments: bool) -> Seq<char> {
    issue_head_spec(issue) + issue_desc_spec(issue) + issue_comments_spec(issue, comments)
}

fn push_field_row(out: &mut Vec<char>, label: &str, v: Option<&String>)
    ensures
        final(out)@ == old(out)@ + field_row(
            label@,
            match v {
                Some(x) => Some(x@),
                None => None,
            },
        ),
{
    match v {
        Some(x) => {
            push(out, "| ");
            push(out, label);
            push(out, " | ");
            push_string(out, x);
            push(out, " |\n");
        },
        None => {
            assert(old(out)@ + Seq::<char>::empty() =~= old(out)@);
        },
    }
}

fn comment_md_exec(c: &JiraComment) -> (r: Vec<char>)
    ensures
        r@ == comment_md(*c),
{
    let mut out = to_chars("**");
    match &c.author {
        Some(a) => push_string(&mut out, &a.display_name),
        None => push(&mut out, "Unknown"),
    }
    push(&mut out, "** - _");
    push_string(&mut out, &c.created);
    push(&mut out, "_\n\n");
    push_string(&mut out, &c.body);
    push(&mut out, "\n\n");
    out
}

fn issue_head(issue: &JiraIssue) -> (r: Vec<char>)
    ensures
        r@ == issue_head_spec(*issue),
{
    let f = &issue.fields;
    let mut out = to_chars("# ");
    push_string(&mut out, &issue.key);
    push(&mut out, "\n\n");
    push(&mut out, "**");
    push_string(&mut out, &f.summary);
    push(&mut out, "**\n\n");
    push(&mut out, "| Field | Value |\n| --- | --- |\n");
    push_field_row(
        &mut out,
        "Type",
        match &f.issuetype {
            Some(t) => Some(&t.name),
            None => None,
        },
    );
    push_field_row(
        &mut out,
        "Status",
        match &f.status {
            Some(s) => Some(&s.name),
            None => None,
        },
    );
    push_field_row(
        &mut out,
        "Priority",
        match &f.priority {
            Some(p) => Some(&p.name),
            None => None,
        },
    );
    push_field_row(
        &mut out,
        "Assignee",
        match &f.assignee {
            Some(a) => Some(&a.display_name),
            None => None,
        },
    );
    push_field_row(
        &mut out,
        "Reporter",
        match &f.reporter {
            Some(a) => Some(&a.display_name),
            None => None,
        },
    );
    push(&mut out, "| Created | ");
    push_string(&mut out, &f.created);
    push(&mut out, " |\n");
    push(&mut out, "| Updated | ");
    push_string(&mut out, &f.updated);
    push(&mut out, " |\n");
    out
}

fn issue_comments(issue: &JiraIssue, comments: bool) -> (r: Vec<char>)
    ensures
        r@ == issue_comments_spec(*issue, comments),
{
    let mut out: Vec<char> = Vec::new();
    if comments {
        match &issue.fields.comment {
            Some(cl) => {
                push(&mut out, "\n---\n\n## Comments (");
                extend_chars(&mut out, decimal(cl.comments.len() as u64).as_slice());
                push(&mut out, ")\n\n");
                let ghost start = out@;
                let mut i: usize = 0;
                while i < cl.comments.len()
                    invariant
                        i <= cl.comments.len(),
                        out@ == start + comments_md(cl.comments@.take(i as int)),
                    decreases cl.comments.len() - i,
                {
                    let block = comment_md_exec(&cl.comments[i]);
                    extend_chars(&mut out, block.as_slice());
                    proof {
                        assert(cl.comments@.take(i + 1).drop_last() =~= cl.comments@.take(i as int));
                    }
                    i = i + 1;
                }
                assert(cl.comments@.take(cl.comments.len() as int) =~= cl.comments@);
            },
            None => {},
        }
    }
    out
}

/// An issue in Markdown: see `issue_md_spec`.
pub fn issue_markdown(issue: &JiraIssue, comments: bool) -> (r: String)
    ensures
        r@ == issue_md_spec(*issue, comments),
{
    let mut out = issue_head(issue);
    if to_chars(issue.fields.description.as_str()).len() > 0 {
        push(&mut out, "\n---\n\n");
        push_string(&mut out, &issue.fields.description);
        push(&mut out, "\n");
    }
    let tail = issue_comments(issue, comments);
    extend_chars(&mut out, tail.as_slice());
    from_chars(out.as_slice())
}

/// The attachments of an issue: file name to download URL, in order.
pub open spec fn attachments_spec(issue: JiraIssue) -> Seq<(Seq<char>, Seq<char>)> {
    issue.fields.attachment@.map_values(
        |a: crate::jira::models::jira::JiraAttachment| (a.filename@, a.content@),
    )
}

/// The attachments of an issue: see `attachments_spec`.
pub fn attachment_map(issue: &JiraIssue) -> (r: AttachmentMap)
    ensures
        pairs_view(r@) == attachments_spec(*issue),
{
    let atts = &issue.fields.attachment;
    let mut m: AttachmentMap = Vec::new();
    let mut i: usize = 0;
    while i < atts.len()
        invariant
            i <= atts.len(),
            atts == &issue.fields.attachment,
            pairs_view(m@) == attachments_spec(*issue).take(i as int),
        decreases atts.len() - i,
    {
        let ghost prev = pairs_view(m@);
        let a = &atts[i];
        let pair = (
            from_chars(to_chars(a.filename.as_str()).as_slice()),
            from_chars(to_chars(a.content.as_str()).as_slice()),
        );
        m.push(pair);
        proof {
            assert(pairs_view(m@) =~= prev.push((a.filename@, a.content@)));
            assert(pairs_view(m@) =~= attachments_spec(*issue).take(i + 1));
        }
        i = i + 1;
    }
    assert(attachments_spec(*issue).take(atts.len() as int) =~= attachments_spec(*issue));
    m
}

/// The comments' bodies.
pub open spec fn comment_bodies(cs: Seq<JiraComment>) -> Seq<Seq<char>> {
    cs.map_values(|c: JiraComment| c.body@)
}

/// Two optional users with the same display and user names.
pub open spec fn same_user(a: Option<JiraUser>, b: Option<JiraUser>) -> bool {
    match (a, b) {
        (Some(x), Some(y)) => x.display_name@ == y.display_name@ && x.name@ == y.name@,
        (None, None) => true,
        _ => false,
    }
}

/// Converts an issue's Jira wiki markup to Markdown in place: the
/// description where it is not empty, and every comment's body, with the
/// issue's attachments as image sources. Everything else stays.
pub fn convert_issue_markup(issue: &mut JiraIssue)
    ensures
        final(issue).key@ == old(issue).key@,
        final(issue).fields.summary@ == old(issue).fields.summary@,
        old(issue).fields.description@.len() > 0 ==> final(issue).fields.description@
            == jira_wiki_spec(old(issue).fields.description@, attachments_spec(*old(issue))),
        old(issue).fields.description@.len() == 0 ==> final(issue).fields.description@
            == old(issue).fields.description@,
        final(issue).fields.comment is Some <==> old(issue).fields.comment is Some,
        final(issue).fields.comment matches Some(cl) ==> {
            &&& old(issue).fields.comment matches Some(ocl)
            &&& cl.comments@.len() == ocl.comments@.len()
            &&& forall|i: int|
                0 <= i < cl.comments@.len() ==> (#[trigger] cl.comments@[i]).body@ == jira_wiki_spec(
                    ocl.comments@[i].body@,
                    attachments_spec(*old(issue)),
                ) && cl.comments@[i].created@ == ocl.comments@[i].created@
                    && same_user(cl.comments@[i].author, ocl.comments@[i].author)
        },
        final(issue).fields.status == old(issue).fields.status,
        final(issue).fields.issuetype == old(issue).fields.issuetype,
        final(issue).fields.priority == old(issue).fields.priority,
        final(issue).fields.assignee == old(issue).fields.assignee,
        final(issue).fields.reporter == old(issue).fields.reporter,
        final(issue).fields.created == old(issue).fields.created,
        final(issue).fields.updated == old(issue).fields.updated,
        final(issue).fields.attachment == old(issue).fields.attachment,
{
    let att = attachment_map(issue);
    if to_chars(issue.fields.description.as_str()).len() > 0 {
        issue.fields.description = convert_jira_wiki(issue.fields.description.as_str(), &att);
    }
    let old_comment = issue.fields.comment.take();
    match old_comment {
        None => {},
        Some(cl) => {
            let mut converted: Vec<JiraComment> = Vec::new();
            let mut i: usize = 0;
            while i < cl.comments.len()
                invariant
                    i <= cl.comments.len(),
                    converted@.len() == i,
                    pairs_view(att@) == attachments_spec(*old(issue)),
                    forall|j: int|
                        0 <= j < i ==> (#[trigger] converted@[j]).body@ == jira_wiki_spec(
                            cl.comments@[j].body@,
                            pairs_view(att@),
                        ) && converted@[j].created@ == cl.comments@[j].created@ && same_user(
                            converted@[j].author,
                            cl.comments@[j].author,
                        ),
                decreases cl.comments.len() - i,
            {
                let c = &cl.comments[i];
                let body = convert_jira_wiki(c.body.as_str(), &att);
                let author = match &c.author {
                    Some(u) => Some(
                        JiraUser {
                            display_name: from_chars(to_chars(u.display_name.as_str()).as_slice()),
                            name: from_chars(to_chars(u.name.as_str()).as_slice()),
                        },
                    ),
                    None => None,
                };
                converted.push(
                    JiraComment {
                        author,
                        body,
                        created: from_chars(to_chars(c.created.as_str()).as_slice()),
                    },
                );
                i = i + 1;
            }
            issue.fields.comment = Some(
                crate::jira::models::jira::JiraCommentList { comments: converted },
            );
        },
    }
}

// ───────────────────────── transitions and arguments ─────────────────────────

/// The first transition whose name, or whose target status's name, is the
/// status asked for.
pub open spec fn transition_index(ts: Seq<JiraTransition>, status: Seq<char>, i: int) -> Option<int>
    decreases ts.len() - i,
{
    if i < 0 || i >= ts.len() {
        None
    } else if ts[i].name@ == status || status_name(ts[i].to) == Some(status) {
        Some(i)
    } else {
        transition_index(ts, status, i + 1)
    }
}

/// The status a transition goes to; a configuration error where none is
/// given.
pub fn require_status(status: Option<String>) -> (r: Result<String, JiraError>)
    ensures
        match status {
            Some(st) => r matches Ok(x) && x@ == st@,
            None => r matches Err(e) && config_error(
                e,
                "--status is required (or use --list to see available transitions)"@,
            ),
        },
{
    match status {
        Some(st) => Ok(st),
        None => Err(
            JiraError::Config(
                from_chars(
                    to_chars("--status is required (or use --list to see available transitions)").as_slice(),
                ),
            ),
        ),
    }
}

/// The id of the transition to a status: see `transition_index`; a
/// configuration error naming the status where none matches.
pub fn find_transition(transitions: &Vec<JiraTransition>, status: &str) -> (r: Result<String, JiraError>)
    ensures
        match transition_index(transitions@, status@, 0) {
            Some(i) => r matches Ok(id) && id@ == transitions@[i].id@,
            None => r matches Err(e) && config_error(
                e,
                "transition '"@ + status@ + "' not found; use --list to see available transitions"@,
            ),
        },
{
    let s = to_chars(status);
    let mut i: usize = 0;
    while i < transitions.len()
        invariant
            i <= transitions.len(),
            s@ == status@,
            transition_index(transitions@, status@, 0) == transition_index(
                transitions@,
                status@,
                i as int,
            ),
        decreases transitions.len() - i,
    {
        let t = &transitions[i];
        let by_name = crate::text::eq_chars(to_chars(t.name.as_str()).as_slice(), s.as_slice());
        let by_target = match &t.to {
            Some(st) => crate::text::eq_chars(to_chars(st.name.as_str()).as_slice(), s.as_slice()),
            None => false,
        };
        if by_name || by_target {
            return Ok(from_chars(to_chars(t.id.as_str()).as_slice()));
        }
        i = i + 1;
    }
    let mut m = to_chars("transition '");
    extend_chars(&mut m, s.as_slice());
    push(&mut m, "' not found; use --list to see available transitions");
    Err(JiraError::Config(from_chars(m.as_slice())))
}

/// The value of an issue field in a create or update request: a plain text,
/// or an object with one named text member (`{"key": ...}`).
pub enum FieldValue {
    Text(String),
    Keyed(String, String),
}

/// Whether a field is the named text.
pub open spec fn text_field(f: (String, FieldValue), name: Seq<char>, value: Seq<char>) -> bool {
    &&& f.0@ == name
    &&& f.1 matches FieldValue::Text(v) && v@ == value
}

/// Whether a field is an object with the one named member.
pub open spec fn keyed_field(f: (String, FieldValue), name: Seq<char>, key: Seq<char>, value: Seq<char>) -> bool {
    &&& f.0@ == name
    &&& f.1 matches FieldValue::Keyed(k, v) && k@ == key && v@ == value
}

fn text_entry(name: &str, value: String) -> (r: (String, FieldValue))
    ensures
        text_field(r, name@, value@),
{
    (from_chars(to_chars(name).as_slice()), FieldValue::Text(value))
}

fn keyed_entry(name: &str, key: &str, value: String) -> (r: (String, FieldValue))
    ensures
        keyed_field(r, name@, key@, value@),
{
    (from_chars(to_chars(name).as_slice()), FieldValue::Keyed(from_chars(to_chars(key).as_slice()), value))
}

/// The fields of a new issue: the project by key, the issue type by name,
/// the summary, and the description where one is given.
pub fn create_issue_fields(project: String, issue_type: String, summary: String, description: String) -> (r:
    Vec<(String, FieldValue)>)
    ensures
        r@.len() == (if description@.len() > 0 { 4int } else { 3int }),
        keyed_field(r@[0], "project"@, "key"@, project@),
        keyed_field(r@[1], "issuetype"@, "name"@, issue_type@),
        text_field(r@[2], "summary"@, summary@),
        description@.len() > 0 ==> text_field(r@[3], "description"@, description@),
{
    let mut r: Vec<(String, FieldValue)> = Vec::new();
    r.push(keyed_entry("project", "key", project));
    r.push(keyed_entry("issuetype", "name", issue_type));
    r.push(text_entry("summary", summary));
    if to_chars(description.as_str()).len() > 0 {
        r.push(text_entry("description", description));
    }
    r
}

/// The fields an issue update sets: the summary, the description and the
/// assignee (by user name), each where given and in that order; a
/// configuration error where none is given.
pub fn update_issue_fields(summary: Option<String>, description: Option<String>, assignee: Option<String>) -> (r:
    Result<Vec<(String, FieldValue)>, JiraError>)
    ensures
        (summary is None && description is None && assignee is None) ==> (r matches Err(e)
            && config_error(e, "no fields to update; use --summary, --description, or --assignee"@)),
        !(summary is None && description is None && assignee is None) ==> (r matches Ok(fs) && {
            let n0: int = if summary is Some { 1 } else { 0 };
            let n1: int = n0 + if description is Some { 1int } else { 0int };
            &&& fs@.len() == n1 + if assignee is Some { 1int } else { 0int }
            &&& summary matches Some(x) ==> text_field(fs@[0], "summary"@, x@)
            &&& description matches Some(x) ==> text_field(fs@[n0], "description"@, x@)
            &&& assignee matches Some(x) ==> keyed_field(fs@[n1], "assignee"@, "name"@, x@)
        }),
{
    check_update_fields(&summary, &description, &assignee)?;
    let mut r: Vec<(String, FieldValue)> = Vec::new();
    if let Some(x) = summary {
        r.push(text_entry("summary", x));
    }
    if let Some(x) = description {
        r.push(text_entry("description", x));
    }
    if let Some(x) = assignee {
        r.push(keyed_entry("assignee", "name", x));
    }
    Ok(r)
}

/// An issue update needs a field: a configuration error where summary,
/// description and assignee are all missing.
pub fn check_update_fields(
    summary: &Option<String>,
    description: &Option<String>,
    assignee: &Option<String>,
) -> (r: Result<(), JiraError>)
    ensures
        (summary is None && description is None && assignee is None) ==> (r matches Err(e)
            && config_error(e, "no fields to update; use --summary, --description, or --assignee"@)),
        !(summary is None && description is None && assignee is None) ==> r is Ok,
{
    if summary.is_none() && description.is_none() && assignee.is_none() {
        return Err(
            JiraError::Config(
                from_chars(
                    to_chars("no fields to update; use --summary, --description, or --assignee").as_slice(),
                ),
            ),
        );
    }
    Ok(())
}

/// A sprint listing needs a board: a configuration error for board 0.
pub fn check_board(board: i32) -> (r: Result<(), JiraError>)
    ensures
        board == 0 ==> (r matches Err(e) && config_error(e, "--board is required"@)),
        board != 0 ==> r is Ok,
{
    if board == 0 {
        return Err(JiraError::Config(from_chars(to_chars("--board is required").as_slice())));
    }
    Ok(())
}

/// Where the text of a comment comes from.
pub enum CommentSource {
    /// The named file, to be read.
    File(String),
    /// The text given on the command line.
    Body(String),
}

/// The source of a comment's text: the file where one is named, else the
/// text given; a configuration error where there is neither.
pub fn comment_source(file: &str, body: &str) -> (r: Result<CommentSource, JiraError>)
    ensures
        file@.len() > 0 ==> (r matches Ok(CommentSource::File(f)) && f@ == file@),
        file@.len() == 0 && body@.len() > 0 ==> (r matches Ok(CommentSource::Body(b)) && b@ == body@),
        file@.len() == 0 && body@.len() == 0 ==> (r matches Err(e) && config_error(
            e,
            "Provide --body or --file"@,
        )),
{
    if to_chars(file).len() > 0 {
        return Ok(CommentSource::File(from_chars(to_chars(file).as_slice())));
    }
    if to_chars(body).len() > 0 {
        return Ok(CommentSource::Body(from_chars(to_chars(body).as_slice())));
    }
    Err(JiraError::Config(from_chars(to_chars("Provide --body or --file").as_slice())))
}


// ───────────────────────── wiki pages ─────────────────────────

/// The version number of an optional version, in decimal.
pub open spec fn version_number(o: Option<WikiVersion>) -> Option<Seq<char>> {
    match o {
        Some(v) => Some(signed_decimal_spec(v.number as int)),
        None => None,
    }
}

/// The page's address where its links give both the site root and the
/// page's web path.
pub open spec fn page_address(page: WikiPage) -> Option<Seq<char>> {
    match page.links {
        Some(l) => if l.base@.len() > 0 && l.web_ui@.len() > 0 {
            Some(l.base@ + l.web_ui@)
        } else {
            None
        },
        None => None,
    }
}

/// ` |  **label:** value` where there is a value.
pub open spec fn meta_part(label: Seq<char>, v: Option<Seq<char>>) -> Seq<char> {
    match v {
        Some(x) => "  |  **"@ + label + ":** "@ + x,
        None => Seq::<char>::empty(),
    }
}

/// The page's body in view form, where it has one.
pub open spec fn page_view(page: WikiPage) -> Option<Seq<char>> {
    match page.body {
        Some(b) => match b.view {
            Some(v) => Some(v.value@),
            None => None,
        },
        None => None,
    }
}

/// A page in Markdown: title, a line of its id, space, version and
/// address where set, a rule, then its body in view form.
pub open spec fn page_md_spec(page: WikiPage) -> Seq<char> {
    let meta = "**ID:** "@ + page.id@ + meta_part("Space"@, space_key(page.space)) + meta_part(
        "Version"@,
        version_number(page.version),
    ) + meta_part("URL"@, page_address(page));
    "# "@ + page.title@ + "\n\n"@ + meta + "\n\n---\n\n"@ + match page_view(page) {
        Some(v) => v,
        None => Seq::<char>::empty(),
    }
}

fn push_meta_part(out: &mut Vec<char>, label: &str, v: Option<Vec<char>>)
    ensures
        final(out)@ == old(out)@ + meta_part(
            label@,
            match v {
                Some(x) => Some(x@),
                None => None,
            },
        ),
{
    match v {
        Some(x) => {
            push(out, "  |  **");
            push(out, label);
            push(out, ":** ");
            extend_chars(out, x.as_slice());
        },
        None => {
            assert(old(out)@ + Seq::<char>::empty() =~= old(out)@);
        },
    }
}

/// The page's address: see `page_address`.
pub fn page_address_exec(page: &WikiPage) -> (r: Option<Vec<char>>)
    ensures
        match r {
            Some(x) => page_address(*page) == Some(x@),
            None => page_address(*page) is None,
        },
{
    match &page.links {
        Some(l) => {
            let b = to_chars(l.base.as_str());
            let w = to_chars(l.web_ui.as_str());
            if b.len() > 0 && w.len() > 0 {
                let mut v = b;
                extend_chars(&mut v, w.as_slice());
                Some(v)
            } else {
                None
            }
        },
        None => None,
    }
}

/// A page in Markdown: see `page_md_spec`.
pub fn page_markdown(page: &WikiPage) -> (r: String)
    ensures
        r@ == page_md_spec(*page),
{
    let mut out = to_chars("# ");
    push_string(&mut out, &page.title);
    push(&mut out, "\n\n");
    push(&mut out, "**ID:** ");
    push_string(&mut out, &page.id);
    push_meta_part(
        &mut out,
        "Space",
        match &page.space {
            Some(sp) => Some(to_chars(sp.key.as_str())),
            None => None,
        },
    );
    push_meta_part(
        &mut out,
        "Version",
        match &page.version {
            Some(v) => Some(signed_decimal(v.number)),
            None => None,
        },
    );
    push_meta_part(&mut out, "URL", page_address_exec(page));
    push(&mut out, "\n\n---\n\n");
    match &page.body {
        Some(b) => match &b.view {
            Some(v) => push_string(&mut out, &v.value),
            None => {},
        },
        None => {},
    }
    from_chars(out.as_slice())
}

/// The page's body in view form, where it has one: see `page_view`.
pub fn page_view_html(page: &WikiPage) -> (r: Option<String>)
    ensures
        match r {
            Some(x) => page_view(*page) == Some(x@),
            None => page_view(*page) is None,
        },
{
    match &page.body {
        Some(b) => match &b.view {
            Some(v) => Some(from_chars(to_chars(v.value.as_str()).as_slice())),
            None => None,
        },
        None => None,
    }
}

/// The site root in a page's links, empty where there is none.
pub open spec fn page_base(page: WikiPage) -> Seq<char> {
    match page.links {
        Some(l) => l.base@,
        None => Seq::<char>::empty(),
    }
}

/// The site root in a page's links: see `page_base`.
pub fn page_base_url(page: &WikiPage) -> (r: String)
    ensures
        r@ == page_base(*page),
{
    match &page.links {
        Some(l) => from_chars(to_chars(l.base.as_str()).as_slice()),
        None => String::new(),
    }
}

// ───────────────────────── page payloads ─────────────────────────

/// The request that creates a page: of type `page`, in the given space,
/// with the body as storage HTML, under the parent page where one is named.
pub fn page_create_payload(space: String, title: String, body: String, parent: String) -> (r: WikiCreatePage)
    ensures
        r.page_type@ == "page"@,
        r.title@ == title@,
        r.space.key@ == space@,
        r.body.storage.value@ == body@,
        parent@.len() == 0 ==> r.ancestors@.len() == 0,
        parent@.len() > 0 ==> r.ancestors@.len() == 1 && r.ancestors@[0].id@ == parent@,
{
    let mut ancestors: Vec<WikiAncestor> = Vec::new();
    if to_chars(parent.as_str()).len() > 0 {
        ancestors.push(WikiAncestor { id: parent });
    }
    WikiCreatePage {
        page_type: from_chars(to_chars("page").as_slice()),
        title,
        space: WikiSpaceRef { key: space },
        body: WikiBodyWrite { storage: WikiStorage { value: body } },
        ancestors,
    }
}

/// The version number an update writes: one past the page's current
/// version, or 1 where the page reports none.
pub open spec fn next_version(current: WikiPage) -> int {
    match current.version {
        Some(v) => v.number + 1,
        None => 1,
    }
}

/// The request that updates a page: the new title where one is given,
/// else the current title; the next version number; the new body, empty
/// where none is given. The current version must leave room for the next
/// number in an `i32`.
pub fn page_update_payload(current: &WikiPage, title: Option<String>, body: Option<String>) -> (r:
    WikiUpdatePage)
    requires
        current.version matches Some(v) ==> v.number < i32::MAX,
    ensures
        r.page_type@ == "page"@,
        r.title@ == (match title {
            Some(t) => t@,
            None => current.title@,
        }),
        r.version.number == next_version(*current),
        r.body.storage.value@ == (match body {
            Some(b) => b@,
            None => Seq::<char>::empty(),
        }),
{
    let new_title = match title {
        Some(t) => t,
        None => from_chars(to_chars(current.title.as_str()).as_slice()),
    };
    let number: i32 = match &current.version {
        Some(v) => v.number + 1,
        None => 1,
    };
    let value = match body {
        Some(b) => b,
        None => String::new(),
    };
    WikiUpdatePage {
        page_type: from_chars(to_chars("page").as_slice()),
        title: new_title,
        version: WikiVersionWrite { number },
        body: WikiBodyWrite { storage: WikiStorage { value } },
    }
}

// ───────────────────────── saved files ─────────────────────────

/// A title made safe as a file name: `/`, `\`, `:` and `|` become `-`;
/// `*`, `?`, `"`, `<` and `>` are dropped; the result is trimmed.
pub open spec fn safe_title_spec(title: Seq<char>) -> Seq<char> {
    let t1 = replace_spec(title, "/"@, "-"@);
    let t2 = replace_spec(t1, "\\"@, "-"@);
    let t3 = replace_spec(t2, ":"@, "-"@);
    let t4 = replace_spec(t3, "*"@, Seq::<char>::empty());
    let t5 = replace_spec(t4, "?"@, Seq::<char>::empty());
    let t6 = replace_spec(t5, "\""@, Seq::<char>::empty());
    let t7 = replace_spec(t6, "<"@, Seq::<char>::empty());
    let t8 = replace_spec(t7, ">"@, Seq::<char>::empty());
    trim_spec(replace_spec(t8, "|"@, "-"@))
}

fn safe_title(title: &str) -> (r: Vec<char>)
    ensures
        r@ == safe_title_spec(title@),
{
    proof {
        reveal_strlit("/");
        reveal_strlit("\\");
        reveal_strlit(":");
        reveal_strlit("*");
        reveal_strlit("?");
        reveal_strlit("\"");
        reveal_strlit("<");
        reveal_strlit(">");
        reveal_strlit("|");
        reveal_strlit("");
        assert(""@ =~= Seq::<char>::empty());
    }
    let t = to_chars(title);
    let t1 = replace_lit_str(t.as_slice(), "/", "-");
    let t2 = replace_lit_str(t1.as_slice(), "\\", "-");
    let t3 = replace_lit_str(t2.as_slice(), ":", "-");
    let t4 = replace_lit_str(t3.as_slice(), "*", "");
    let t5 = replace_lit_str(t4.as_slice(), "?", "");
    let t6 = replace_lit_str(t5.as_slice(), "\"", "");
    let t7 = replace_lit_str(t6.as_slice(), "<", "");
    let t8 = replace_lit_str(t7.as_slice(), ">", "");
    let t9 = replace_lit_str(t8.as_slice(), "|", "-");
    trim(t9.as_slice())
}

/// The file a page or PRD is saved under: its safe title with `.md`.
pub fn prd_filename(title: &str) -> (r: String)
    ensures
        r@ == safe_title_spec(title@) + ".md"@,
{
    let mut r = safe_title(title);
    push(&mut r, ".md");
    from_chars(r.as_slice())
}

/// The file the raw text of a PRD is saved under: its safe title with
/// `.raw.md`.
pub fn raw_prd_filename(title: &str) -> (r: String)
    ensures
        r@ == safe_title_spec(title@) + ".raw.md"@,
{
    let mut r = safe_title(title);
    push(&mut r, ".raw.md");
    from_chars(r.as_slice())
}

/// The file an issue is saved under: its key with `.md`.
pub fn task_filename(key: &str) -> (r: String)
    ensures
        r@ == key@ + ".md"@,
{
    let mut r = to_chars(key);
    push(&mut r, ".md");
    from_chars(r.as_slice())
}


/// A character that file systems reserve in file names.
pub open spec fn is_reserved(c: char) -> bool {
    c == '/' || c == '\\' || c == ':' || c == '*' || c == '?' || c == '"' || c == '<' || c == '>'
        || c == '|'
}

/// The name a page or PRD is saved under holds none of the reserved
/// characters `/ \ : * ? " < > |`.
pub proof fn law_safe_title_has_no_reserved_chars(title: Seq<char>)
    ensures
        forall|k: int|
            0 <= k < safe_title_spec(title).len() ==> !is_reserved(
                #[trigger] safe_title_spec(title)[k],
            ),
{
    reveal_strlit("/");
    reveal_strlit("\\");
    reveal_strlit(":");
    reveal_strlit("*");
    reveal_strlit("?");
    reveal_strlit("\"");
    reveal_strlit("<");
    reveal_strlit(">");
    reveal_strlit("|");
    reveal_strlit("-");
    let dash = "-"@;
    let e = Seq::<char>::empty();
    assert("/"@ =~= seq!['/']);
    assert("\\"@ =~= seq!['\\']);
    assert(":"@ =~= seq![':']);
    assert("*"@ =~= seq!['*']);
    assert("?"@ =~= seq!['?']);
    assert("\""@ =~= seq!['"']);
    assert("<"@ =~= seq!['<']);
    assert(">"@ =~= seq!['>']);
    assert("|"@ =~= seq!['|']);
    assert(dash =~= seq!['-']);
    let p1 = |c: char| c != '/';
    let p2 = |c: char| c != '/' && c != '\\';
    let p3 = |c: char| c != '/' && c != '\\' && c != ':';
    let p4 = |c: char| c != '/' && c != '\\' && c != ':' && c != '*';
    let p5 = |c: char| c != '/' && c != '\\' && c != ':' && c != '*' && c != '?';
    let p6 = |c: char| c != '/' && c != '\\' && c != ':' && c != '*' && c != '?' && c != '"';
    let p7 = |c: char|
        c != '/' && c != '\\' && c != ':' && c != '*' && c != '?' && c != '"' && c != '<';
    let p8 = |c: char|
        c != '/' && c != '\\' && c != ':' && c != '*' && c != '?' && c != '"' && c != '<' && c
            != '>';
    let p9 = |c: char| !is_reserved(c);
    let t1 = replace_spec(title, "/"@, dash);
    crate::text::lemma_replace_char_keeps(title, '/', dash, 0, p1);
    let t2 = replace_spec(t1, "\\"@, dash);
    crate::text::lemma_replace_char_keeps(t1, '\\', dash, 0, p2);
    let t3 = replace_spec(t2, ":"@, dash);
    crate::text::lemma_replace_char_keeps(t2, ':', dash, 0, p3);
    let t4 = replace_spec(t3, "*"@, e);
    crate::text::lemma_replace_char_keeps(t3, '*', e, 0, p4);
    let t5 = replace_spec(t4, "?"@, e);
    crate::text::lemma_replace_char_keeps(t4, '?', e, 0, p5);
    let t6 = replace_spec(t5, "\""@, e);
    crate::text::lemma_replace_char_keeps(t5, '"', e, 0, p6);
    let t7 = replace_spec(t6, "<"@, e);
    crate::text::lemma_replace_char_keeps(t6, '<', e, 0, p7);
    let t8 = replace_spec(t7, ">"@, e);
    crate::text::lemma_replace_char_keeps(t7, '>', e, 0, p8);
    let t9 = replace_spec(t8, "|"@, dash);
    crate::text::lemma_replace_char_keeps(t8, '|', dash, 0, p9);
    let (a, b) = crate::text::lemma_trim_subrange(t9);
    assert forall|k: int| 0 <= k < safe_title_spec(title).len() implies !is_reserved(
        #[trigger] safe_title_spec(title)[k],
    ) by {
        assert(safe_title_spec(title)[k] == t9[a + k]);
        assert(p9(t9[a + k]));
    }
}


/// `x` stands somewhere in `s`.
pub open spec fn occurs_in(s: Seq<char>, x: Seq<char>) -> bool {
    exists|i: int| 0 <= i && i + x.len() <= s.len() && #[trigger] s.subrange(i, i + x.len()) == x
}

proof fn lemma_occurs_in_middle(a: Seq<char>, x: Seq<char>, b: Seq<char>)
    ensures
        occurs_in(a + x + b, x),
{
    let s = a + x + b;
    assert(s.subrange(a.len() as int, (a.len() + x.len()) as int) =~= x);
}

proof fn lemma_occurs_at_end(a: Seq<char>, x: Seq<char>)
    ensures
        occurs_in(a + x, x),
{
    assert((a + x).subrange(a.len() as int, (a.len() + x.len()) as int) =~= x);
}

proof fn lemma_occurs_extend(s: Seq<char>, x: Seq<char>, y: Seq<char>)
    requires
        occurs_in(s, x),
    ensures
        occurs_in(s + y, x),
{
    let i = choose|i: int| 0 <= i && i + x.len() <= s.len() && #[trigger] s.subrange(i, i + x.len()) == x;
    assert((s + y).subrange(i, i + x.len()) =~= s.subrange(i, i + x.len()));
}

proof fn lemma_head_rows(issue: JiraIssue, comments: bool)
    ensures
        occurs_in(issue_md_spec(issue, comments), field_row("Type"@, issue_type_name(issue.fields.issuetype))),
        occurs_in(issue_md_spec(issue, comments), field_row("Status"@, status_name(issue.fields.status))),
        occurs_in(issue_md_spec(issue, comments), field_row("Priority"@, priority_name(issue.fields.priority))),
        occurs_in(issue_md_spec(issue, comments), field_row("Assignee"@, user_display(issue.fields.assignee))),
        occurs_in(issue_md_spec(issue, comments), field_row("Reporter"@, user_display(issue.fields.reporter))),
        occurs_in(issue_md_spec(issue, comments), "| Created | "@ + issue.fields.created@ + " |\n"@),
        occurs_in(issue_md_spec(issue, comments), "| Updated | "@ + issue.fields.updated@ + " |\n"@),
{
    let f = issue.fields;
    let r0 = "# "@ + issue.key@ + "\n\n"@ + "**"@ + f.summary@ + "**\n\n"@
        + "| Field | Value |\n| --- | --- |\n"@;
    let r = seq![
        field_row("Type"@, issue_type_name(f.issuetype)),
        field_row("Status"@, status_name(f.status)),
        field_row("Priority"@, priority_name(f.priority)),
        field_row("Assignee"@, user_display(f.assignee)),
        field_row("Reporter"@, user_display(f.reporter)),
        "| Created | "@ + f.created@ + " |\n"@,
        "| Updated | "@ + f.updated@ + " |\n"@,
        issue_desc_spec(issue),
        issue_comments_spec(issue, comments),
    ];
    let p0 = r0;
    let p1 = p0 + r[0];
    let p2 = p1 + r[1];
    let p3 = p2 + r[2];
    let p4 = p3 + r[3];
    let p5 = p4 + r[4];
    let p6 = p5 + r[5];
    let p7 = p6 + r[6];
    let p8 = p7 + r[7];
    let p9 = p8 + r[8];
    assert(issue_md_spec(issue, comments) == p9);
    lemma_occurs_at_end(p0, r[0]);
    lemma_occurs_extend(p1, r[0], r[1]);
    lemma_occurs_extend(p2, r[0], r[2]);
    lemma_occurs_extend(p3, r[0], r[3]);
    lemma_occurs_extend(p4, r[0], r[4]);
    lemma_occurs_extend(p5, r[0], r[5]);
    lemma_occurs_extend(p6, r[0], r[6]);
    lemma_occurs_extend(p7, r[0], r[7]);
    lemma_occurs_extend(p8, r[0], r[8]);
    lemma_occurs_at_end(p1, r[1]);
    lemma_occurs_extend(p2, r[1], r[2]);
    lemma_occurs_extend(p3, r[1], r[3]);
    lemma_occurs_extend(p4, r[1], r[4]);
    lemma_occurs_extend(p5, r[1], r[5]);
    lemma_occurs_extend(p6, r[1], r[6]);
    lemma_occurs_extend(p7, r[1], r[7]);
    lemma_occurs_extend(p8, r[1], r[8]);
    lemma_occurs_at_end(p2, r[2]);
    lemma_occurs_extend(p3, r[2], r[3]);
    lemma_occurs_extend(p4, r[2], r[4]);
    lemma_occurs_extend(p5, r[2], r[5]);
    lemma_occurs_extend(p6, r[2], r[6]);
    lemma_occurs_extend(p7, r[2], r[7]);
    lemma_occurs_extend(p8, r[2], r[8]);
    lemma_occurs_at_end(p3, r[3]);
    lemma_occurs_extend(p4, r[3], r[4]);
    lemma_occurs_extend(p5, r[3], r[5]);
    lemma_occurs_extend(p6, r[3], r[6]);
    lemma_occurs_extend(p7, r[3], r[7]);
    lemma_occurs_extend(p8, r[3], r[8]);
    lemma_occurs_at_end(p4, r[4]);
    lemma_occurs_extend(p5, r[4], r[5]);
    lemma_occurs_extend(p6, r[4], r[6]);
    lemma_occurs_extend(p7, r[4], r[7]);
    lemma_occurs_extend(p8, r[4], r[8]);
    lemma_occurs_at_end(p5, r[5]);
    lemma_occurs_extend(p6, r[5], r[6]);
    lemma_occurs_extend(p7, r[5], r[7]);
    lemma_occurs_extend(p8, r[5], r[8]);
    lemma_occurs_at_end(p6, r[6]);
    lemma_occurs_extend(p7, r[6], r[7]);
    lemma_occurs_extend(p8, r[6], r[8]);
}

proof fn lemma_field_row_text(label: Seq<char>, x: Seq<char>)
    ensures
        field_row(label, Some(x)) == "| "@ + label + " | "@ + x + " |\n"@,
{
}

/// Every field an issue has shows in its Markdown as a row of its own:
/// `| Type | .. |`, `| Status | .. |`, `| Priority | .. |`,
/// `| Assignee | .. |` and `| Reporter | .. |` with the type's, status's and
/// priority's name and the users' display names, and the created and
/// updated dates always.
pub proof fn law_issue_fields_are_shown(issue: JiraIssue, comments: bool)
    ensures
        issue.fields.issuetype matches Some(t) ==> occurs_in(
            issue_md_spec(issue, comments),
            "| Type | "@ + t.name@ + " |\n"@,
        ),
        issue.fields.status matches Some(t) ==> occurs_in(
            issue_md_spec(issue, comments),
            "| Status | "@ + t.name@ + " |\n"@,
        ),
        issue.fields.priority matches Some(t) ==> occurs_in(
            issue_md_spec(issue, comments),
            "| Priority | "@ + t.name@ + " |\n"@,
        ),
        issue.fields.assignee matches Some(u) ==> occurs_in(
            issue_md_spec(issue, comments),
            "| Assignee | "@ + u.display_name@ + " |\n"@,
        ),
        issue.fields.reporter matches Some(u) ==> occurs_in(
            issue_md_spec(issue, comments),
            "| Reporter | "@ + u.display_name@ + " |\n"@,
        ),
        occurs_in(issue_md_spec(issue, comments), "| Created | "@ + issue.fields.created@ + " |\n"@),
        occurs_in(issue_md_spec(issue, comments), "| Updated | "@ + issue.fields.updated@ + " |\n"@),
{
    lemma_head_rows(issue, comments);
    let f = issue.fields;
    if let Some(t) = f.issuetype {
        assert(field_row("Type"@, issue_type_name(f.issuetype)) == "| Type | "@ + t.name@ + " |\n"@) by {
            reveal_strlit("| ");
            reveal_strlit(" | ");
            reveal_strlit("Type");
            reveal_strlit("| Type | ");
            assert("| "@ + "Type"@ + " | "@ =~= "| Type | "@);
            assert("| "@ + "Type"@ + " | "@ + t.name@ + " |\n"@ =~= "| Type | "@ + t.name@ + " |\n"@);
        }
    }
    if let Some(t) = f.status {
        assert(field_row("Status"@, status_name(f.status)) == "| Status | "@ + t.name@ + " |\n"@) by {
            reveal_strlit("| ");
            reveal_strlit(" | ");
            reveal_strlit("Status");
            reveal_strlit("| Status | ");
            assert("| "@ + "Status"@ + " | "@ =~= "| Status | "@);
            assert("| "@ + "Status"@ + " | "@ + t.name@ + " |\n"@ =~= "| Status | "@ + t.name@ + " |\n"@);
        }
    }
    if let Some(t) = f.priority {
        assert(field_row("Priority"@, priority_name(f.priority)) == "| Priority | "@ + t.name@ + " |\n"@) by {
            reveal_strlit("| ");
            reveal_strlit(" | ");
            reveal_strlit("Priority");
            reveal_strlit("| Priority | ");
            assert("| "@ + "Priority"@ + " | "@ =~= "| Priority | "@);
            assert("| "@ + "Priority"@ + " | "@ + t.name@ + " |\n"@ =~= "| Priority | "@ + t.name@ + " |\n"@);
        }
    }
    if let Some(u) = f.assignee {
        assert(field_row("Assignee"@, user_display(f.assignee)) == "| Assignee | "@ + u.display_name@ + " |\n"@) by {
            reveal_strlit("| ");
            reveal_strlit(" | ");
            reveal_strlit("Assignee");
            reveal_strlit("| Assignee | ");
            assert("| "@ + "Assignee"@ + " | "@ =~= "| Assignee | "@);
            assert("| "@ + "Assignee"@ + " | "@ + u.display_name@ + " |\n"@ =~= "| Assignee | "@ + u.display_name@ + " |\n"@);
        }
    }
    if let Some(u) = f.reporter {
        assert(field_row("Reporter"@, user_display(f.reporter)) == "| Reporter | "@ + u.display_name@ + " |\n"@) by {
            reveal_strlit("| ");
            reveal_strlit(" | ");
            reveal_strlit("Reporter");
            reveal_strlit("| Reporter | ");
            assert("| "@ + "Reporter"@ + " | "@ =~= "| Reporter | "@);
            assert("| "@ + "Reporter"@ + " | "@ + u.display_name@ + " |\n"@ =~= "| Reporter | "@ + u.display_name@ + " |\n"@);
        }
    }
}

proof fn lemma_occurs_inner(s: Seq<char>, a: Seq<char>, y: Seq<char>, b: Seq<char>)
    requires
        occurs_in(s, a + y + b),
    ensures
        occurs_in(s, y),
{
    let x = a + y + b;
    let i = choose|i: int| 0 <= i && i + x.len() <= s.len() && #[trigger] s.subrange(i, i + x.len()) == x;
    assert(s.subrange(i + a.len(), i + a.len() + y.len()) =~= x.subrange(a.len() as int, (a.len() + y.len()) as int));
    assert(x.subrange(a.len() as int, (a.len() + y.len()) as int) =~= y);
}

proof fn lemma_occurs_prefix(p: Seq<char>, s: Seq<char>, x: Seq<char>)
    requires
        occurs_in(s, x),
    ensures
        occurs_in(p + s, x),
{
    let i = choose|i: int| 0 <= i && i + x.len() <= s.len() && #[trigger] s.subrange(i, i + x.len()) == x;
    assert((p + s).subrange(i + p.len(), i + p.len() + x.len()) =~= s.subrange(i, i + x.len()));
}

proof fn lemma_comments_hold_each(cs: Seq<JiraComment>, k: int)
    requires
        0 <= k < cs.len(),
    ensures
        occurs_in(comments_md(cs), comment_md(cs[k])),
    decreases cs.len(),
{
    if k == cs.len() - 1 {
        lemma_occurs_at_end(comments_md(cs.drop_last()), comment_md(cs.last()));
    } else {
        lemma_comments_hold_each(cs.drop_last(), k);
        assert(cs.drop_last()[k] == cs[k]);
        lemma_occurs_extend(comments_md(cs.drop_last()), comment_md(cs[k]), comment_md(cs.last()));
    }
}

proof fn lemma_comment_parts(s: Seq<char>, c: JiraComment)
    requires
        occurs_in(s, comment_md(c)),
    ensures
        occurs_in(s, "**"@ + match c.author {
            Some(u) => u.display_name@,
            None => "Unknown"@,
        } + "** - _"@ + c.created@ + "_"@),
        occurs_in(s, c.body@),
{
    reveal_strlit("_\n\n");
    reveal_strlit("_");
    reveal_strlit("\n\n");
    let author = match c.author {
        Some(u) => u.display_name@,
        None => "Unknown"@,
    };
    let line = "**"@ + author + "** - _"@ + c.created@ + "_"@;
    assert(comment_md(c) =~= seq![] + line + ("\n\n"@ + c.body@ + "\n\n"@));
    lemma_occurs_inner(s, seq![], line, "\n\n"@ + c.body@ + "\n\n"@);
    assert(comment_md(c) =~= (line + "\n\n"@) + c.body@ + "\n\n"@);
    lemma_occurs_inner(s, line + "\n\n"@, c.body@, "\n\n"@);
}

proof fn lemma_comments_title(s: Seq<char>, n: nat)
    requires
        occurs_in(s, "\n---\n\n## Comments ("@ + decimal_spec(n) + ")\n\n"@),
    ensures
        occurs_in(s, "## Comments ("@ + decimal_spec(n) + ")"@),
{
    reveal_strlit("\n---\n\n## Comments (");
    reveal_strlit("\n---\n\n");
    reveal_strlit("## Comments (");
    reveal_strlit(")\n\n");
    reveal_strlit(")");
    reveal_strlit("\n\n");
    let title = "\n---\n\n## Comments ("@ + decimal_spec(n) + ")\n\n"@;
    assert(title =~= "\n---\n\n"@ + ("## Comments ("@ + decimal_spec(n) + ")"@) + "\n\n"@);
    lemma_occurs_inner(s, "\n---\n\n"@, "## Comments ("@ + decimal_spec(n) + ")"@, "\n\n"@);
}

/// An issue's description shows under a rule, and with `comments` its
/// comments show under a heading that counts them, each with its author
/// in bold (`Unknown` where it has none), its date in italics and its
/// body.
pub proof fn law_issue_description_and_comments_are_shown(issue: JiraIssue, comments: bool)
    ensures
        issue.fields.description@.len() > 0 ==> occurs_in(
            issue_md_spec(issue, comments),
            "\n---\n\n"@ + issue.fields.description@ + "\n"@,
        ),
        comments && issue.fields.comment is Some ==> occurs_in(
            issue_md_spec(issue, comments),
            "## Comments ("@ + decimal_spec(issue.fields.comment->0.comments@.len()) + ")"@,
        ),
        comments && issue.fields.comment is Some ==> forall|k: int|
            0 <= k < issue.fields.comment->0.comments@.len() ==> {
                let c = #[trigger] issue.fields.comment->0.comments@[k];
                &&& occurs_in(issue_md_spec(issue, comments), "**"@ + match c.author {
                    Some(u) => u.display_name@,
                    None => "Unknown"@,
                } + "** - _"@ + c.created@ + "_"@)
                &&& occurs_in(issue_md_spec(issue, comments), c.body@)
            },
{
    let head = issue_head_spec(issue);
    let desc = issue_desc_spec(issue);
    let com = issue_comments_spec(issue, comments);
    let s = issue_md_spec(issue, comments);
    assert(s == head + desc + com);
    if issue.fields.description@.len() > 0 {
        lemma_occurs_at_end(head, desc);
        lemma_occurs_extend(head + desc, desc, com);
    }
    if comments && issue.fields.comment is Some {
        let cl = issue.fields.comment->0;
        let title = "\n---\n\n## Comments ("@ + decimal_spec(cl.comments@.len()) + ")\n\n"@;
        assert(com == title + comments_md(cl.comments@));
        lemma_occurs_at_end(seq![], title);
        assert(seq![] + title =~= title);
        lemma_occurs_extend(title, title, comments_md(cl.comments@));
        lemma_occurs_prefix(head + desc, com, title);
        lemma_comments_title(s, cl.comments@.len());
        assert forall|k: int| 0 <= k < cl.comments@.len() implies {
            let c = #[trigger] cl.comments@[k];
            &&& occurs_in(s, "**"@ + match c.author {
                Some(u) => u.display_name@,
                None => "Unknown"@,
            } + "** - _"@ + c.created@ + "_"@)
            &&& occurs_in(s, c.body@)
        } by {
            let c = cl.comments@[k];
            lemma_comments_hold_each(cl.comments@, k);
            lemma_occurs_prefix(title, comments_md(cl.comments@), comment_md(c));
            lemma_occurs_prefix(head + desc, com, comment_md(c));
            lemma_comment_parts(s, c);
        }
    }
}

} // verus!
