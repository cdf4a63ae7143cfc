//! The issue service: listings, how a new issue is built (locally, or after
//! GitHub created it), how updates apply, and when a change goes to GitHub
//! first.
use vstd::prelude::*;

use crate::ids::{now_rfc3339, random_uuid_text, rfc3339_utc_text};
use crate::issue::{
    fresh_issue, issue_summaries_of, issue_summary_views, summarize_issues, IssueRecord,
    IssueSummary, IssueView,
};
use crate::json::{json_string_array, strings_in};
use crate::services::list_has_more;
use crate::errors::ServiceError;
use crate::text::{clone_opt, concat, opt_view, own};
use crate::work_item_service::{json_list_opt, or_keep};

verus! {

broadcast use vstd::string::group_string_axioms;

/// A page of issues.
#[derive(Clone, Debug)]
pub struct IssueList {
    pub issues: Vec<IssueSummary>,
    pub total: usize,
    pub has_more: bool,
}

/// Filter options for listing issues.
#[derive(Clone, Debug)]
pub struct IssueFilters {
    pub state: Option<String>,
    pub labels: Option<Vec<String>>,
    pub assignee: Option<String>,
    pub search: Option<String>,
}

impl Default for IssueFilters {
    /// No filter at all.
    fn default() -> (r: IssueFilters)
        ensures
            r.state is None,
            r.labels is None,
            r.assignee is None,
            r.search is None,
    {
        IssueFilters { state: None, labels: None, assignee: None, search: None }
    }
}

/// Data for creating a new issue.
#[derive(Clone, Debug)]
pub struct CreateIssueData {
    pub title: String,
    pub body: Option<String>,
    pub labels: Option<Vec<String>>,
    pub assignees: Option<Vec<String>>,
}

/// Updates to apply to an issue; absent fields stay as they are.
#[derive(Clone, Debug)]
pub struct IssueUpdates {
    pub title: Option<String>,
    pub body: Option<String>,
    pub state: Option<String>,
    pub labels: Option<Vec<String>>,
    pub assignees: Option<Vec<String>>,
}

impl Default for IssueUpdates {
    /// No change at all.
    fn default() -> (r: IssueUpdates)
        ensures
            r.title is None,
            r.body is None,
            r.state is None,
            r.labels is None,
            r.assignees is None,
    {
        IssueUpdates { title: None, body: None, state: None, labels: None, assignees: None }
    }
}

/// Options of issue changes.
#[derive(Clone, Debug)]
pub struct IssueOptions {
    /// Push the change to GitHub when GitHub is configured.
    pub push_to_github: bool,
}

impl Default for IssueOptions {
    /// Nothing is pushed.
    fn default() -> (r: IssueOptions)
        ensures
            !r.push_to_github,
    {
        IssueOptions { push_to_github: false }
    }
}

/// Options of issue deletion.
#[derive(Clone, Debug)]
pub struct DeleteIssueOptions {
    /// Close the issue on GitHub when GitHub is configured.
    pub close_on_github: bool,
}

impl Default for DeleteIssueOptions {
    /// Nothing is closed on GitHub.
    fn default() -> (r: DeleteIssueOptions)
        ensures
            !r.close_on_github,
    {
        DeleteIssueOptions { close_on_github: false }
    }
}

/// Result of creating an issue.
#[derive(Clone, Debug)]
pub struct CreateIssueResult {
    pub issue_id: String,
    pub number: u32,
    pub title: String,
    pub github_number: Option<u32>,
    pub github_url: Option<String>,
}

/// Result of deleting an issue.
#[derive(Clone, Debug)]
pub struct DeleteIssueResult {
    pub github_closed: bool,
}

/// What GitHub answers about an issue it created or updated.
#[derive(Clone, Debug)]
pub struct GithubIssue {
    pub number: u32,
    pub node_id: String,
    pub html_url: String,
    pub title: String,
    pub body: Option<String>,
    pub state: String,
    pub labels: Vec<String>,
    pub assignees: Vec<String>,
}

/// A listing of the given issues: their summaries in order, their number,
/// and whether the page came back full.
pub fn issue_list(issues: &Vec<IssueRecord>, limit: usize) -> (r: IssueList)
    ensures
        issue_summary_views(r.issues@) == issue_summaries_of(issues@),
        r.total == issues@.len(),
        r.has_more == (issues@.len() >= limit),
{
    let summaries = summarize_issues(issues);
    IssueList { issues: summaries, total: issues.len(), has_more: list_has_more(issues.len(), limit) }
}

/// Whether a project names both a GitHub owner and repository.
pub open spec fn github_configured_spec(owner: Seq<char>, repo: Seq<char>) -> bool {
    owner.len() > 0 && repo.len() > 0
}

/// Whether a project names both a GitHub owner and repository.
pub fn github_configured(owner: &str, repo: &str) -> (r: bool)
    ensures
        r == github_configured_spec(owner@, repo@),
{
    owner.unicode_len() > 0 && repo.unicode_len() > 0
}

/// Whether a new issue is created on GitHub first: GitHub is configured, a
/// token is available, and the caller asked for it.
pub fn create_on_github(owner: &str, repo: &str, has_token: bool, options: &IssueOptions) -> (r: bool)
    ensures
        r == (github_configured_spec(owner@, repo@) && has_token && options.push_to_github),
{
    github_configured(owner, repo) && has_token && options.push_to_github
}

/// Whether an update goes to GitHub first: as for creation, and the issue
/// must already exist on GitHub.
pub fn update_on_github(
    owner: &str,
    repo: &str,
    github_number: Option<i64>,
    has_token: bool,
    options: &IssueOptions,
) -> (r: bool)
    ensures
        r == (github_configured_spec(owner@, repo@) && github_number is Some && has_token
            && options.push_to_github),
{
    github_configured(owner, repo) && github_number.is_some() && has_token && options.push_to_github
}

/// Whether a deletion closes the issue on GitHub first (GitHub does not
/// delete issues).
pub fn close_on_github(
    owner: &str,
    repo: &str,
    github_number: Option<i64>,
    has_token: bool,
    options: &DeleteIssueOptions,
) -> (r: bool)
    ensures
        r == (github_configured_spec(owner@, repo@) && github_number is Some && has_token
            && options.close_on_github),
{
    github_configured(owner, repo) && github_number.is_some() && has_token && options.close_on_github
}

/// The local issue that creation data describe, with the given identifier
/// and creation time.
pub open spec fn issue_from_data(id: Seq<char>, now: Seq<char>, project_id: Seq<char>, number: u32, data: CreateIssueData) -> IssueView {
    IssueView {
        body: opt_view(data.body),
        labels: json_list_opt(data.labels),
        assignees: json_list_opt(data.assignees),
        ..fresh_issue(id, now, project_id, number, data.title@)
    }
}

/// A new local issue holds what the creation data give: its title, body,
/// labels and assignees (as JSON arrays); it is open, local, without
/// priority or GitHub link, not closed or synced, created and updated at
/// `now`.
pub proof fn law_created_issue(id: Seq<char>, now: Seq<char>, project_id: Seq<char>, number: u32, data: CreateIssueData)
    ensures
        ({
            let w = issue_from_data(id, now, project_id, number, data);
            &&& w.id == id && w.project_id == project_id && w.number == number
            &&& w.title == data.title@
            &&& (data.body matches Some(b) ==> w.body == Some(b@))
            &&& (data.body is None ==> w.body is None)
            &&& (data.labels matches Some(l) ==> w.labels == Some(json_string_array(l.deep_view())))
            &&& (data.labels is None ==> w.labels is None)
            &&& (data.assignees matches Some(a) ==> w.assignees == Some(json_string_array(a.deep_view())))
            &&& (data.assignees is None ==> w.assignees is None)
            &&& w.state == "open"@ && w.source == "local"@
            &&& w.priority is None && w.github_number is None && w.github_node_id is None
            &&& w.github_url is None && w.github_project_item_id is None
            &&& w.closed_at is None && w.synced_at is None
            &&& w.created_at == now && w.updated_at == now
        }),
{
}

/// An issue that GitHub created takes GitHub's number, node identifier
/// and address, counts as coming from GitHub, and otherwise holds what the
/// creation data give.
pub proof fn law_created_issue_from_github(
    id: Seq<char>,
    now: Seq<char>,
    project_id: Seq<char>,
    data: CreateIssueData,
    number: u32,
    node_id: Seq<char>,
    html_url: Seq<char>,
)
    ensures
        ({
            let w = issue_from_github_data(id, now, project_id, data, number, node_id, html_url);
            &&& w.github_number == Some(number as i64)
            &&& w.github_node_id == Some(node_id)
            &&& w.github_url == Some(html_url)
            &&& w.source == "github"@
            &&& w.number == number
            &&& w.id == id && w.project_id == project_id && w.title == data.title@
            &&& (data.body matches Some(b) ==> w.body == Some(b@))
            &&& (data.body is None ==> w.body is None)
            &&& w.state == "open"@
            &&& w.created_at == now && w.updated_at == now
        }),
{
}

/// Build a new local issue from creation data, with a fresh identifier and
/// the current time.
pub fn issue_from_create(project_id: &str, number: u32, data: CreateIssueData) -> (r: IssueRecord)
    ensures
        random_uuid_text(r@.id),
        r@ == issue_from_data(r@.id, r@.created_at, project_id@, number, data),
{
    let ghost d = data;
    let mut issue = IssueRecord::new(project_id, number, data.title.as_str());
    if let Some(body) = data.body {
        issue.body = Some(body);
    }
    if let Some(labels) = data.labels {
        issue.set_labels(labels);
    }
    if let Some(assignees) = data.assignees {
        issue.set_assignees(assignees);
    }
    proof {
        assert(issue@ =~= issue_from_data(issue@.id, issue@.created_at, project_id@, number, d));
    }
    issue
}

/// The issue recorded after GitHub created it: the local issue takes
/// GitHub's number, node identifier and address, and its source is GitHub.
pub open spec fn issue_from_github_data(
    id: Seq<char>,
    now: Seq<char>,
    project_id: Seq<char>,
    data: CreateIssueData,
    number: u32,
    node_id: Seq<char>,
    html_url: Seq<char>,
) -> IssueView {
    IssueView {
        github_number: Some(number as i64),
        github_node_id: Some(node_id),
        github_url: Some(html_url),
        source: "github"@,
        ..issue_from_data(id, now, project_id, number, data)
    }
}

/// Build the local issue for one that GitHub created with the given
/// number, node identifier and address.
pub fn issue_from_github_create(
    project_id: &str,
    data: CreateIssueData,
    number: u32,
    node_id: &str,
    html_url: &str,
) -> (r: IssueRecord)
    ensures
        random_uuid_text(r@.id),
        r@ == issue_from_github_data(r@.id, r@.created_at, project_id@, data, number, node_id@, html_url@),
{
    let mut issue = issue_from_create(project_id, number, data);
    issue.github_number = Some(number as i64);
    issue.github_node_id = Some(own(node_id));
    issue.github_url = Some(own(html_url));
    issue.source = own("github");
    issue
}

/// The result of creating an issue: its identifier, number and title, and
/// the GitHub number and address when it was created there.
pub fn create_issue_result(issue: &IssueRecord, number: u32) -> (r: CreateIssueResult)
    ensures
        r.issue_id@ == issue@.id,
        r.number == number,
        r.title@ == issue@.title,
        r.github_number == match issue@.github_number {
            Some(n) => Some(n as u32),
            None => None,
        },
        opt_view(r.github_url) == issue@.github_url,
{
    CreateIssueResult {
        issue_id: issue.id.clone(),
        number,
        title: issue.title.clone(),
        github_number: match issue.github_number {
            Some(n) => Some(n as u32),
            None => None,
        },
        github_url: clone_opt(&issue.github_url),
    }
}

/// The issue after applying local updates at time `now`.
pub open spec fn issue_after(v: IssueView, u: IssueUpdates, now: Seq<char>) -> IssueView {
    IssueView {
        title: match u.title {
            Some(t) => t@,
            None => v.title,
        },
        body: or_keep(u.body, v.body),
        state: match u.state {
            Some(s) => s@,
            None => v.state,
        },
        labels: match u.labels {
            Some(l) => Some(json_string_array(l.deep_view())),
            None => v.labels,
        },
        assignees: match u.assignees {
            Some(a) => Some(json_string_array(a.deep_view())),
            None => v.assignees,
        },
        updated_at: now,
        ..v
    }
}

/// Apply local updates to an issue at time `now`.
pub fn apply_issue_updates(issue: &mut IssueRecord, updates: IssueUpdates, now: String)
    ensures
        final(issue)@ == issue_after(old(issue)@, updates, now@),
        updates.labels matches Some(l) ==> strings_in(final(issue)@.labels) == l.deep_view(),
        updates.assignees matches Some(a) ==> strings_in(final(issue)@.assignees) == a.deep_view(),
{
    let ghost u = updates;
    let ghost before = issue@;
    if let Some(title) = updates.title {
        issue.title = title;
    }
    if let Some(body) = updates.body {
        issue.body = Some(body);
    }
    if let Some(state) = updates.state {
        issue.state = state;
    }
    if let Some(labels) = updates.labels {
        issue.set_labels(labels);
    }
    if let Some(assignees) = updates.assignees {
        issue.set_assignees(assignees);
    }
    issue.updated_at = now;
    proof {
        assert(issue@ =~= issue_after(before, u, now@));
    }
}

/// Every field named in the issue updates reads back afterwards, every
/// field not named keeps its value, the rest of the issue (identity,
/// priority, GitHub link, source, creation, closing and sync times) never
/// changes, and the update time becomes `now`.
pub proof fn law_issue_updates_read_back(v: IssueView, u: IssueUpdates, now: Seq<char>)
    ensures
        ({
            let w = issue_after(v, u, now);
            &&& (u.title matches Some(t) ==> w.title == t@)
            &&& (u.title is None ==> w.title == v.title)
            &&& (u.body matches Some(b) ==> w.body == Some(b@))
            &&& (u.body is None ==> w.body == v.body)
            &&& (u.state matches Some(s) ==> w.state == s@)
            &&& (u.state is None ==> w.state == v.state)
            &&& (u.labels matches Some(l) ==> w.labels == Some(json_string_array(l.deep_view())))
            &&& (u.labels is None ==> w.labels == v.labels)
            &&& (u.assignees matches Some(a) ==> w.assignees == Some(json_string_array(a.deep_view())))
            &&& (u.assignees is None ==> w.assignees == v.assignees)
            &&& w.id == v.id
            &&& w.project_id == v.project_id
            &&& w.number == v.number
            &&& w.priority == v.priority
            &&& w.github_number == v.github_number
            &&& w.github_node_id == v.github_node_id
            &&& w.github_url == v.github_url
            &&& w.github_project_item_id == v.github_project_item_id
            &&& w.source == v.source
            &&& w.created_at == v.created_at
            &&& w.closed_at == v.closed_at
            &&& w.synced_at == v.synced_at
            &&& w.updated_at == now
        }),
{
}

/// Applying the same local updates twice at the same time changes nothing
/// more than applying them once.
pub proof fn law_issue_updates_idempotent(v: IssueView, u: IssueUpdates, now: Seq<char>)
    ensures
        issue_after(issue_after(v, u, now), u, now) == issue_after(v, u, now),
{
}

/// Local updates that name no field change only the update time.
pub proof fn law_issue_empty_updates(v: IssueView, u: IssueUpdates, now: Seq<char>)
    requires
        u.title is None,
        u.body is None,
        u.state is None,
        u.labels is None,
        u.assignees is None,
    ensures
        issue_after(v, u, now) == (IssueView { updated_at: now, ..v }),
{
}

/// The issue after taking over what GitHub answered to an update, at time
/// `now`: title, body, state, labels and assignees become GitHub's.
pub open spec fn issue_from_github_answer(v: IssueView, gh: GithubIssue, now: Seq<char>) -> IssueView {
    IssueView {
        title: gh.title@,
        body: opt_view(gh.body),
        state: gh.state@,
        labels: Some(json_string_array(gh.labels.deep_view())),
        assignees: Some(json_string_array(gh.assignees.deep_view())),
        updated_at: now,
        ..v
    }
}

/// After GitHub answers an update, the issue shows what GitHub holds: its
/// title, body, state, labels and assignees; its identity, priority, link
/// to GitHub and times other than the update time stay as they were.
pub proof fn law_github_answer_read_back(v: IssueView, gh: GithubIssue, now: Seq<char>)
    ensures
        ({
            let w = issue_from_github_answer(v, gh, now);
            &&& w.title == gh.title@
            &&& w.body == opt_view(gh.body)
            &&& w.state == gh.state@
            &&& w.labels == Some(json_string_array(gh.labels.deep_view()))
            &&& w.assignees == Some(json_string_array(gh.assignees.deep_view()))
            &&& w.id == v.id
            &&& w.project_id == v.project_id
            &&& w.number == v.number
            &&& w.priority == v.priority
            &&& w.github_number == v.github_number
            &&& w.github_node_id == v.github_node_id
            &&& w.github_url == v.github_url
            &&& w.source == v.source
            &&& w.created_at == v.created_at
            &&& w.updated_at == now
        }),
{
}

/// Take over what GitHub answered to an update, at time `now`.
pub fn apply_github_answer(issue: &mut IssueRecord, gh: GithubIssue, now: String)
    ensures
        final(issue)@ == issue_from_github_answer(old(issue)@, gh, now@),
{
    let ghost g = gh;
    let ghost before = issue@;
    issue.title = gh.title;
    issue.body = gh.body;
    issue.state = gh.state;
    issue.set_labels(gh.labels);
    issue.set_assignees(gh.assignees);
    issue.updated_at = now;
    proof {
        assert(issue@ =~= issue_from_github_answer(before, g, now@));
    }
}

/// Apply local updates to an issue, stamped with the current time.
pub fn update_issue_record(issue: &mut IssueRecord, updates: IssueUpdates)
    ensures
        final(issue)@ == issue_after(old(issue)@, updates, final(issue)@.updated_at),
        rfc3339_utc_text(final(issue)@.updated_at),
{
    let now = now_rfc3339();
    apply_issue_updates(issue, updates, now);
}

/// The message of a failed GitHub step: `Failed to `, the step, `: ` and
/// what GitHub or the client reported.
pub open spec fn github_error_text(step: Seq<char>, message: Seq<char>) -> Seq<char> {
    "Failed to "@ + step + ": "@ + message
}

/// The error that stops an issue change when a GitHub step fails (getting
/// the token, creating the client, or the request itself).
pub fn github_failure(step: &str, message: &str) -> (r: ServiceError)
    ensures
        r matches ServiceError::External(m) && m@ == github_error_text(step@, message@),
{
    let a = concat("Failed to ", step);
    let b = concat(a.as_str(), ": ");
    ServiceError::External(concat(b.as_str(), message))
}

/// The issue to store once GitHub answered a creation request.  An issue
/// pushed to GitHub is created there first: when GitHub refuses, the
/// creation fails and nothing is stored; otherwise the local issue takes
/// GitHub's number, node identifier and address.
pub fn created_issue_after_github(project_id: &str, data: CreateIssueData, answer: Result<GithubIssue, String>) -> (r: Result<IssueRecord, ServiceError>)
    ensures
        match answer {
            Ok(gh) => r matches Ok(issue) && random_uuid_text(issue@.id) && issue@
                == issue_from_github_data(
                issue@.id,
                issue@.created_at,
                project_id@,
                data,
                gh.number,
                gh.node_id@,
                gh.html_url@,
            ),
            Err(e) => r matches Err(ServiceError::External(m)) && m@ == github_error_text(
                "create on GitHub"@,
                e@,
            ),
        },
{
    match answer {
        Ok(gh) => Ok(issue_from_github_create(project_id, data, gh.number, gh.node_id.as_str(), gh.html_url.as_str())),
        Err(e) => Err(github_failure("create on GitHub", e.as_str())),
    }
}

/// Take over GitHub's answer to an update pushed there first, at time
/// `now`.  When GitHub refuses, the update fails and the issue stays as it
/// was; otherwise the issue takes GitHub's title, body, state, labels and
/// assignees.
pub fn updated_issue_after_github(issue: &mut IssueRecord, answer: Result<GithubIssue, String>, now: String) -> (r: Result<(), ServiceError>)
    ensures
        match answer {
            Ok(gh) => r is Ok && final(issue)@ == issue_from_github_answer(old(issue)@, gh, now@),
            Err(e) => r matches Err(ServiceError::External(m)) && m@ == github_error_text(
                "update on GitHub"@,
                e@,
            ) && final(issue)@ == old(issue)@,
        },
{
    match answer {
        Ok(gh) => {
            apply_github_answer(issue, gh, now);
            Ok(())
        },
        Err(e) => Err(github_failure("update on GitHub", e.as_str())),
    }
}

/// Whether a deletion goes on after the attempt to close the issue on
/// GitHub (`None` when no attempt was made).  When GitHub refuses to close
/// it, the deletion fails and the issue is kept; otherwise it is deleted,
/// and the result tells whether it was closed on GitHub.
pub fn deletion_after_github(close_answer: Option<Result<(), String>>) -> (r: Result<DeleteIssueResult, ServiceError>)
    ensures
        match close_answer {
            None => r matches Ok(d) && !d.github_closed,
            Some(Ok(())) => r matches Ok(d) && d.github_closed,
            Some(Err(e)) => r matches Err(ServiceError::External(m)) && m@ == github_error_text(
                "close on GitHub"@,
                e@,
            ),
        },
{
    match close_answer {
        None => Ok(DeleteIssueResult { github_closed: false }),
        Some(Ok(())) => Ok(DeleteIssueResult { github_closed: true }),
        Some(Err(e)) => Err(github_failure("close on GitHub", e.as_str())),
    }
}

} // verus!
