//! Issues of a project, stored locally and optionally mirrored on GitHub,
//! and their summaries as the API shows them.
use vstd::prelude::*;

use crate::board::priority_label;
use crate::board::priority_name;
use crate::ids::{new_uuid, now_rfc3339, random_uuid_text, rfc3339_utc_text};
use crate::json::{json_encode_strings, json_string_array, read_strings, strings_in};
use crate::text::{clone_opt, opt_view, own, text_eq};

verus! {

broadcast use vstd::string::group_string_axioms;

/// A stored issue.
#[derive(Clone, Debug)]
pub struct IssueRecord {
    /// Unique identifier (UUID).
    pub id: String,
    /// Owning project.
    pub project_id: String,
    /// Number of the issue within its project.
    pub number: i64,
    pub title: String,
    /// Markdown body.
    pub body: Option<String>,
    /// `"open"` or `"closed"`.
    pub state: String,
    /// Labels as a JSON array of strings.
    pub labels: Option<String>,
    /// Assignees as a JSON array of strings.
    pub assignees: Option<String>,
    /// Priority, 1 is the highest.
    pub priority: Option<i64>,
    /// Number of the mirrored GitHub issue.
    pub github_number: Option<i64>,
    /// GraphQL node identifier of the GitHub issue.
    pub github_node_id: Option<String>,
    /// Address of the GitHub issue.
    pub github_url: Option<String>,
    /// GitHub Project item identifier.
    pub github_project_item_id: Option<String>,
    /// `"local"` or `"github"`.
    pub source: String,
    pub created_at: String,
    pub updated_at: String,
    pub closed_at: Option<String>,
    /// Last synchronisation time.
    pub synced_at: Option<String>,
}

/// Mathematical view of an issue.
pub struct IssueView {
    pub id: Seq<char>,
    pub project_id: Seq<char>,
    pub number: i64,
    pub title: Seq<char>,
    pub body: Option<Seq<char>>,
    pub state: Seq<char>,
    pub labels: Option<Seq<char>>,
    pub assignees: Option<Seq<char>>,
    pub priority: Option<i64>,
    pub github_number: Option<i64>,
    pub github_node_id: Option<Seq<char>>,
    pub github_url: Option<Seq<char>>,
    pub github_project_item_id: Option<Seq<char>>,
    pub source: Seq<char>,
    pub created_at: Seq<char>,
    pub updated_at: Seq<char>,
    pub closed_at: Option<Seq<char>>,
    pub synced_at: Option<Seq<char>>,
}

impl View for IssueRecord {
    type V = IssueView;

    open spec fn view(&self) -> IssueView {
        IssueView {
            id: self.id@,
            project_id: self.project_id@,
            number: self.number,
            title: self.title@,
            body: opt_view(self.body),
            state: self.state@,
            labels: opt_view(self.labels),
            assignees: opt_view(self.assignees),
            priority: self.priority,
            github_number: self.github_number,
            github_node_id: opt_view(self.github_node_id),
            github_url: opt_view(self.github_url),
            github_project_item_id: opt_view(self.github_project_item_id),
            source: self.source@,
            created_at: self.created_at@,
            updated_at: self.updated_at@,
            closed_at: opt_view(self.closed_at),
            synced_at: opt_view(self.synced_at),
        }
    }
}

/// A fresh local issue with the given identifier and creation time.
pub open spec fn fresh_issue(id: Seq<char>, now: Seq<char>, project_id: Seq<char>, number: u32, title: Seq<char>) -> IssueView {
    IssueView {
        id,
        project_id,
        number: number as i64,
        title,
        body: None,
        state: "open"@,
        labels: None,
        assignees: None,
        priority: None,
        github_number: None,
        github_node_id: None,
        github_url: None,
        github_project_item_id: None,
        source: "local"@,
        created_at: now,
        updated_at: now,
        closed_at: None,
        synced_at: None,
    }
}

impl IssueRecord {
    /// A new open local issue, with a fresh identifier and the current time
    /// as creation and update time.
    pub fn new(project_id: &str, number: u32, title: &str) -> (r: IssueRecord)
        ensures
            random_uuid_text(r@.id),
            r@ == fresh_issue(r@.id, r@.created_at, project_id@, number, title@),
            rfc3339_utc_text(r@.created_at),
    {
        let now = now_rfc3339();
        IssueRecord {
            id: new_uuid(),
            project_id: own(project_id),
            number: number as i64,
            title: own(title),
            body: None,
            state: own("open"),
            labels: None,
            assignees: None,
            priority: None,
            github_number: None,
            github_node_id: None,
            github_url: None,
            github_project_item_id: None,
            source: own("local"),
            created_at: now.clone(),
            updated_at: now,
            closed_at: None,
            synced_at: None,
        }
    }

    /// The labels: the JSON array in the labels column, or none.
    pub fn labels_vec(&self) -> (r: Vec<String>)
        ensures
            r.deep_view() == strings_in(self@.labels),
    {
        read_strings(&self.labels)
    }

    /// Store the labels as a JSON array; reading them back gives them again.
    pub fn set_labels(&mut self, labels: Vec<String>)
        ensures
            final(self)@ == (IssueView { labels: Some(json_string_array(labels.deep_view())), ..old(self)@ }),
            strings_in(final(self)@.labels) == labels.deep_view(),
    {
        self.labels = Some(json_encode_strings(&labels));
    }

    /// The assignees: the JSON array in the assignees column, or none.
    pub fn assignees_vec(&self) -> (r: Vec<String>)
        ensures
            r.deep_view() == strings_in(self@.assignees),
    {
        read_strings(&self.assignees)
    }

    /// Store the assignees as a JSON array; reading them back gives them
    /// again.
    pub fn set_assignees(&mut self, assignees: Vec<String>)
        ensures
            final(self)@ == (IssueView {
                assignees: Some(json_string_array(assignees.deep_view())),
                ..old(self)@
            }),
            strings_in(final(self)@.assignees) == assignees.deep_view(),
    {
        self.assignees = Some(json_encode_strings(&assignees));
    }

    /// Whether the issue is open.
    pub fn is_open(&self) -> (r: bool)
        ensures
            r == (self@.state == "open"@),
    {
        text_eq(self.state.as_str(), "open")
    }

    /// Whether the issue came from GitHub.
    pub fn is_github(&self) -> (r: bool)
        ensures
            r == (self@.source == "github"@),
    {
        text_eq(self.source.as_str(), "github")
    }

    /// The issue with the given body.
    pub fn with_body(self, body: &str) -> (r: IssueRecord)
        ensures
            r@ == (IssueView { body: Some(body@), ..self@ }),
    {
        IssueRecord { body: Some(own(body)), ..self }
    }

    /// The issue with the given priority.
    pub fn with_priority(self, priority: u8) -> (r: IssueRecord)
        ensures
            r@ == (IssueView { priority: Some(priority as i64), ..self@ }),
    {
        IssueRecord { priority: Some(priority as i64), ..self }
    }

    /// The issue with the given labels.
    pub fn with_labels(self, labels: Vec<String>) -> (r: IssueRecord)
        ensures
            r@ == (IssueView { labels: Some(json_string_array(labels.deep_view())), ..self@ }),
            strings_in(r@.labels) == labels.deep_view(),
    {
        let mut s = self;
        s.set_labels(labels);
        s
    }

    /// The issue with the given assignees.
    pub fn with_assignees(self, assignees: Vec<String>) -> (r: IssueRecord)
        ensures
            r@ == (IssueView { assignees: Some(json_string_array(assignees.deep_view())), ..self@ }),
            strings_in(r@.assignees) == assignees.deep_view(),
    {
        let mut s = self;
        s.set_assignees(assignees);
        s
    }
}

/// An issue as the API shows it.
#[derive(Clone, Debug)]
pub struct IssueSummary {
    pub id: String,
    pub project_id: String,
    pub number: u32,
    pub title: String,
    pub body: Option<String>,
    pub state: String,
    pub labels: Vec<String>,
    pub assignees: Vec<String>,
    pub priority: Option<String>,
    pub github_number: Option<u32>,
    pub github_url: Option<String>,
    pub source: String,
    pub created_at: String,
    pub updated_at: String,
}

/// Mathematical view of an issue summary.
pub struct IssueSummaryView {
    pub id: Seq<char>,
    pub project_id: Seq<char>,
    pub number: u32,
    pub title: Seq<char>,
    pub body: Option<Seq<char>>,
    pub state: Seq<char>,
    pub labels: Seq<Seq<char>>,
    pub assignees: Seq<Seq<char>>,
    pub priority: Option<Seq<char>>,
    pub github_number: Option<u32>,
    pub github_url: Option<Seq<char>>,
    pub source: Seq<char>,
    pub created_at: Seq<char>,
    pub updated_at: Seq<char>,
}

impl View for IssueSummary {
    type V = IssueSummaryView;

    open spec fn view(&self) -> IssueSummaryView {
        IssueSummaryView {
            id: self.id@,
            project_id: self.project_id@,
            number: self.number,
            title: self.title@,
            body: opt_view(self.body),
            state: self.state@,
            labels: self.labels.deep_view(),
            assignees: self.assignees.deep_view(),
            priority: opt_view(self.priority),
            github_number: self.github_number,
            github_url: opt_view(self.github_url),
            source: self.source@,
            created_at: self.created_at@,
            updated_at: self.updated_at@,
        }
    }
}

/// The summary of a stored issue: numbers are taken as `u32`, labels and
/// assignees read from their JSON arrays, and the priority named.
pub open spec fn issue_summary_of(v: IssueView) -> IssueSummaryView {
    IssueSummaryView {
        id: v.id,
        project_id: v.project_id,
        number: v.number as u32,
        title: v.title,
        body: v.body,
        state: v.state,
        labels: strings_in(v.labels),
        assignees: strings_in(v.assignees),
        priority: match v.priority {
            Some(p) => Some(priority_name(p)),
            None => None,
        },
        github_number: match v.github_number {
            Some(n) => Some(n as u32),
            None => None,
        },
        github_url: v.github_url,
        source: v.source,
        created_at: v.created_at,
        updated_at: v.updated_at,
    }
}

/// An issue summary shows the issue as stored: its identity, text, state,
/// GitHub link, source and times unchanged, its priority by name, and its
/// labels and assignees read from their JSON arrays.
pub proof fn law_issue_summary_shows_issue(v: IssueView)
    ensures
        ({
            let s = issue_summary_of(v);
            &&& s.id == v.id && s.project_id == v.project_id && s.title == v.title
            &&& s.body == v.body && s.state == v.state
            &&& (v.priority matches Some(p) ==> s.priority == Some(priority_name(p)))
            &&& (v.priority is None ==> s.priority is None)
            &&& s.labels == strings_in(v.labels) && s.assignees == strings_in(v.assignees)
            &&& (v.github_number is None ==> s.github_number is None)
            &&& s.github_url == v.github_url && s.source == v.source
            &&& s.created_at == v.created_at && s.updated_at == v.updated_at
        }),
{
}

impl IssueSummary {
    /// The summary of a stored issue.
    pub fn from_record(issue: &IssueRecord) -> (r: IssueSummary)
        ensures
            r@ == issue_summary_of(issue@),
    {
        let priority = match issue.priority {
            Some(p) => Some(priority_label(p)),
            None => None,
        };
        let github_number = match issue.github_number {
            Some(n) => Some(n as u32),
            None => None,
        };
        IssueSummary {
            id: issue.id.clone(),
            project_id: issue.project_id.clone(),
            number: issue.number as u32,
            title: issue.title.clone(),
            body: clone_opt(&issue.body),
            state: issue.state.clone(),
            labels: issue.labels_vec(),
            assignees: issue.assignees_vec(),
            priority,
            github_number,
            github_url: clone_opt(&issue.github_url),
            source: issue.source.clone(),
            created_at: issue.created_at.clone(),
            updated_at: issue.updated_at.clone(),
        }
    }
}

/// Summaries of a list of stored issues.
pub open spec fn issue_summaries_of(s: Seq<IssueRecord>) -> Seq<IssueSummaryView> {
    s.map_values(|x: IssueRecord| issue_summary_of(x@))
}

/// Views of a list of issue summaries.
pub open spec fn issue_summary_views(s: Seq<IssueSummary>) -> Seq<IssueSummaryView> {
    s.map_values(|x: IssueSummary| x@)
}

/// The summaries of stored issues, in order.
pub fn summarize_issues(issues: &Vec<IssueRecord>) -> (r: Vec<IssueSummary>)
    ensures
        issue_summary_views(r@) == issue_summaries_of(issues@),
{
    let mut out: Vec<IssueSummary> = Vec::new();
    let mut i: usize = 0;
    while i < issues.len()
        invariant
            i <= issues.len(),
            issue_summary_views(out@) == issue_summaries_of(issues@.take(i as int)),
        decreases issues.len() - i,
    {
        let ghost before = out@;
        let sm = IssueSummary::from_record(&issues[i]);
        out.push(sm);
        proof {
            assert(issues@.take(i + 1) =~= issues@.take(i as int).push(issues@[i as int]));
            assert(issue_summary_views(out@) =~= issue_summary_views(before).push(sm@));
            assert(issue_summaries_of(issues@.take(i + 1)) =~= issue_summaries_of(
                issues@.take(i as int),
            ).push(issue_summary_of(issues@[i as int]@)));
        }
        i = i + 1;
    }
    assert(issues@.take(issues.len() as int) =~= issues@);
    out
}

} // verus!
