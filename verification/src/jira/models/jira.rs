//! Jira issues, comments, transitions, projects, boards and sprints.
use vstd::prelude::*;
use crate::figma::output::{cells_view, copy_string, name_or_empty, Tableable};
use crate::text::{from_chars, signed_decimal, signed_decimal_spec};

verus! {

/// An issue: its key and fields.
#[derive(Debug)]
pub struct JiraIssue {
    pub key: String,
    pub fields: JiraIssueFields,
}

/// The fields of an issue.
#[derive(Debug)]
pub struct JiraIssueFields {
    pub summary: String,
    pub description: String,
    pub status: Option<JiraStatus>,
    pub issuetype: Option<JiraIssueType>,
    pub priority: Option<JiraPriority>,
    pub assignee: Option<JiraUser>,
    pub reporter: Option<JiraUser>,
    pub created: String,
    pub updated: String,
    pub comment: Option<JiraCommentList>,
    pub attachment: Vec<JiraAttachment>,
}

/// A file attached to an issue: its name and download URL.
#[derive(Debug)]
pub struct JiraAttachment {
    pub filename: String,
    pub content: String,
    pub mime_type: String,
}

/// An issue's status.
#[derive(Debug)]
pub struct JiraStatus {
    pub name: String,
}

/// An issue's type.
#[derive(Debug)]
pub struct JiraIssueType {
    pub name: String,
}

/// An issue's priority.
#[derive(Debug)]
pub struct JiraPriority {
    pub name: String,
}

/// A user.
#[derive(Debug)]
pub struct JiraUser {
    pub display_name: String,
    pub name: String,
}

/// The comments of an issue.
#[derive(Debug)]
pub struct JiraCommentList {
    pub comments: Vec<JiraComment>,
}

/// A comment.
#[derive(Debug)]
pub struct JiraComment {
    pub author: Option<JiraUser>,
    pub body: String,
    pub created: String,
}

/// The result of an issue search.
#[derive(Debug)]
pub struct JiraSearchResult {
    pub total: i32,
    pub issues: Vec<JiraIssue>,
}

/// A comment to add.
#[derive(Debug)]
pub struct JiraAddComment {
    pub body: String,
}

/// The transitions open to an issue.
#[derive(Debug)]
pub struct JiraTransitionsResponse {
    pub transitions: Vec<JiraTransition>,
}

/// A transition: its id, name and target status.
#[derive(Debug)]
pub struct JiraTransition {
    pub id: String,
    pub name: String,
    pub to: Option<JiraStatus>,
}

/// A transition to perform.
#[derive(Debug)]
pub struct JiraDoTransition {
    pub transition: JiraTransitionId,
}

/// The id of a transition to perform.
#[derive(Debug)]
pub struct JiraTransitionId {
    pub id: String,
}

/// A project.
#[derive(Debug)]
pub struct JiraProject {
    pub key: String,
    pub name: String,
    pub lead: Option<JiraUser>,
}

/// A list of boards.
#[derive(Debug)]
pub struct JiraBoardList {
    pub values: Vec<JiraBoard>,
}

/// An agile board.
#[derive(Debug)]
pub struct JiraBoard {
    pub id: i32,
    pub name: String,
    pub board_type: String,
}

/// A list of sprints.
#[derive(Debug)]
pub struct JiraSprintList {
    pub values: Vec<JiraSprint>,
}

/// A sprint.
#[derive(Debug)]
pub struct JiraSprint {
    pub id: i32,
    pub name: String,
    pub state: String,
    pub start: String,
    pub end: String,
}

// ───────────────────────── optional names ─────────────────────────

/// A status's name, if there is a status.
pub open spec fn status_name(o: Option<JiraStatus>) -> Option<Seq<char>> {
    match o {
        Some(s) => Some(s.name@),
        None => None,
    }
}

/// A type's name, if there is a type.
pub open spec fn issue_type_name(o: Option<JiraIssueType>) -> Option<Seq<char>> {
    match o {
        Some(t) => Some(t.name@),
        None => None,
    }
}

/// A priority's name, if there is a priority.
pub open spec fn priority_name(o: Option<JiraPriority>) -> Option<Seq<char>> {
    match o {
        Some(p) => Some(p.name@),
        None => None,
    }
}

/// A user's display name, if there is a user.
pub open spec fn user_display(o: Option<JiraUser>) -> Option<Seq<char>> {
    match o {
        Some(u) => Some(u.display_name@),
        None => None,
    }
}

/// The name of an optional status, empty where there is none.
pub fn status_name_or_empty(o: &Option<JiraStatus>) -> (r: String)
    ensures
        r@ == name_or_empty(status_name(*o)),
{
    match o {
        Some(s) => copy_string(&s.name),
        None => String::new(),
    }
}

/// The display name of an optional user, empty where there is none.
pub fn user_display_or_empty(o: &Option<JiraUser>) -> (r: String)
    ensures
        r@ == name_or_empty(user_display(*o)),
{
    match o {
        Some(u) => copy_string(&u.display_name),
        None => String::new(),
    }
}

fn issue_type_or_empty(o: &Option<JiraIssueType>) -> (r: String)
    ensures
        r@ == name_or_empty(issue_type_name(*o)),
{
    match o {
        Some(t) => copy_string(&t.name),
        None => String::new(),
    }
}

fn priority_name_or_empty(o: &Option<JiraPriority>) -> (r: String)
    ensures
        r@ == name_or_empty(priority_name(*o)),
{
    match o {
        Some(p) => copy_string(&p.name),
        None => String::new(),
    }
}

fn decimal_string(n: i32) -> (r: String)
    ensures
        r@ == signed_decimal_spec(n as int),
{
    from_chars(signed_decimal(n).as_slice())
}

// ───────────────────────── table rows ─────────────────────────

impl Tableable for JiraIssue {
    /// `Key`, `Type`, `Status`, `Priority`, `Assignee`, `Summary`.
    fn headers() -> (r: Vec<&'static str>)
        ensures
            r@.map_values(|h: &str| h@) == seq!["Key"@, "Type"@, "Status"@, "Priority"@, "Assignee"@, "Summary"@],
    {
        let r = vec!["Key", "Type", "Status", "Priority", "Assignee", "Summary"];
        assert(r@.map_values(|h: &str| h@) =~= seq!["Key"@, "Type"@, "Status"@, "Priority"@, "Assignee"@, "Summary"@]);
        r
    }

    /// Key, type, status, priority, assignee and summary.
    fn row(&self) -> (r: Vec<String>)
        ensures
            cells_view(r@) == seq![
                self.key@,
                name_or_empty(issue_type_name(self.fields.issuetype)),
                name_or_empty(status_name(self.fields.status)),
                name_or_empty(priority_name(self.fields.priority)),
                name_or_empty(user_display(self.fields.assignee)),
                self.fields.summary@,
            ],
    {
        let r = vec![
            copy_string(&self.key),
            issue_type_or_empty(&self.fields.issuetype),
            status_name_or_empty(&self.fields.status),
            priority_name_or_empty(&self.fields.priority),
            user_display_or_empty(&self.fields.assignee),
            copy_string(&self.fields.summary),
        ];
        assert(cells_view(r@) =~= seq![
            self.key@,
            name_or_empty(issue_type_name(self.fields.issuetype)),
            name_or_empty(status_name(self.fields.status)),
            name_or_empty(priority_name(self.fields.priority)),
            name_or_empty(user_display(self.fields.assignee)),
            self.fields.summary@,
        ]);
        r
    }
}

impl Tableable for JiraTransition {
    /// `ID`, `Name`, `To Status`.
    fn headers() -> (r: Vec<&'static str>)
        ensures
            r@.map_values(|h: &str| h@) == seq!["ID"@, "Name"@, "To Status"@],
    {
        let r = vec!["ID", "Name", "To Status"];
        assert(r@.map_values(|h: &str| h@) =~= seq!["ID"@, "Name"@, "To Status"@]);
        r
    }

    /// Id, name and target status.
    fn row(&self) -> (r: Vec<String>)
        ensures
            cells_view(r@) == seq![self.id@, self.name@, name_or_empty(status_name(self.to))],
    {
        let r = vec![copy_string(&self.id), copy_string(&self.name), status_name_or_empty(&self.to)];
        assert(cells_view(r@) =~= seq![self.id@, self.name@, name_or_empty(status_name(self.to))]);
        r
    }
}

impl Tableable for JiraProject {
    /// `Key`, `Name`, `Lead`.
    fn headers() -> (r: Vec<&'static str>)
        ensures
            r@.map_values(|h: &str| h@) == seq!["Key"@, "Name"@, "Lead"@],
    {
        let r = vec!["Key", "Name", "Lead"];
        assert(r@.map_values(|h: &str| h@) =~= seq!["Key"@, "Name"@, "Lead"@]);
        r
    }

    /// Key, name and lead.
    fn row(&self) -> (r: Vec<String>)
        ensures
            cells_view(r@) == seq![self.key@, self.name@, name_or_empty(user_display(self.lead))],
    {
        let r = vec![copy_string(&self.key), copy_string(&self.name), user_display_or_empty(&self.lead)];
        assert(cells_view(r@) =~= seq![self.key@, self.name@, name_or_empty(user_display(self.lead))]);
        r
    }
}

impl Tableable for JiraBoard {
    /// `ID`, `Name`, `Type`.
    fn headers() -> (r: Vec<&'static str>)
        ensures
            r@.map_values(|h: &str| h@) == seq!["ID"@, "Name"@, "Type"@],
    {
        let r = vec!["ID", "Name", "Type"];
        assert(r@.map_values(|h: &str| h@) =~= seq!["ID"@, "Name"@, "Type"@]);
        r
    }

    /// Id, name and type.
    fn row(&self) -> (r: Vec<String>)
        ensures
            cells_view(r@) == seq![signed_decimal_spec(self.id as int), self.name@, self.board_type@],
    {
        let r = vec![decimal_string(self.id), copy_string(&self.name), copy_string(&self.board_type)];
        assert(cells_view(r@) =~= seq![
            signed_decimal_spec(self.id as int),
            self.name@,
            self.board_type@,
        ]);
        r
    }
}

impl Tableable for JiraSprint {
    /// `ID`, `Name`, `State`, `Start`, `End`.
    fn headers() -> (r: Vec<&'static str>)
        ensures
            r@.map_values(|h: &str| h@) == seq!["ID"@, "Name"@, "State"@, "Start"@, "End"@],
    {
        let r = vec!["ID", "Name", "State", "Start", "End"];
        assert(r@.map_values(|h: &str| h@) =~= seq!["ID"@, "Name"@, "State"@, "Start"@, "End"@]);
        r
    }

    /// Id, name, state, start and end.
    fn row(&self) -> (r: Vec<String>)
        ensures
            cells_view(r@) == seq![
                signed_decimal_spec(self.id as int),
                self.name@,
                self.state@,
                self.start@,
                self.end@,
            ],
    {
        let r = vec![
            decimal_string(self.id),
            copy_string(&self.name),
            copy_string(&self.state),
            copy_string(&self.start),
            copy_string(&self.end),
        ];
        assert(cells_view(r@) =~= seq![
            signed_decimal_spec(self.id as int),
            self.name@,
            self.state@,
            self.start@,
            self.end@,
        ]);
        r
    }
}

} // verus!
