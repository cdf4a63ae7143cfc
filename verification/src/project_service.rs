//! The project service: summaries and details of projects, listings by
//! page, creation from caller data, updates, and project statistics.
use vstd::prelude::*;

use crate::ids::{now_rfc3339, random_uuid_text, rfc3339_utc_text};
use crate::project::{fresh_project, slug_of, ProjectRecord, ProjectView};
use crate::services::{page_of, paginate};
use crate::text::{opt_view, text_eq};
use crate::work_item::WorkItemRecord;
use crate::work_item_service::or_keep;

verus! {

broadcast use vstd::string::group_string_axioms;

/// A project as listings show it.
#[derive(Clone, Debug)]
pub struct ProjectSummary {
    pub id: String,
    pub name: String,
    pub slug: String,
    pub description: Option<String>,
    pub color: Option<String>,
    pub archived: bool,
    pub created_at: String,
}

/// Whether a summary shows the given project.
pub open spec fn summarizes(s: ProjectSummary, p: ProjectView) -> bool {
    &&& s.id@ == p.id
    &&& s.name@ == p.name
    &&& s.slug@ == p.slug
    &&& opt_view(s.description) == p.description
    &&& opt_view(s.color) == p.color
    &&& s.archived == (p.archived != 0)
    &&& s.created_at@ == p.created_at
}

impl ProjectSummary {
    /// The summary of a stored project.
    pub fn from_record(p: ProjectRecord) -> (r: ProjectSummary)
        ensures
            summarizes(r, p@),
    {
        let archived = p.is_archived();
        ProjectSummary {
            id: p.id,
            name: p.name,
            slug: p.slug,
            description: p.description,
            color: p.color,
            archived,
            created_at: p.created_at,
        }
    }
}

/// A page of projects.
#[derive(Clone, Debug)]
pub struct ProjectList {
    pub projects: Vec<ProjectSummary>,
    pub total: usize,
    pub has_more: bool,
}

/// Statistics of a project.
#[derive(Clone, Debug)]
pub struct ProjectStats {
    pub open_items: usize,
    pub closed_items: usize,
    pub total_items: usize,
    pub linked_entries: usize,
}

/// A project with its update time and, on request, its statistics.
#[derive(Clone, Debug)]
pub struct ProjectDetail {
    pub id: String,
    pub name: String,
    pub slug: String,
    pub description: Option<String>,
    pub color: Option<String>,
    pub archived: bool,
    pub created_at: String,
    pub updated_at: String,
    pub stats: Option<ProjectStats>,
}

/// Filter options for listing projects.
#[derive(Clone, Debug)]
pub struct ProjectFilters {
    pub include_archived: bool,
}

impl Default for ProjectFilters {
    /// Archived projects are left out.
    fn default() -> (r: ProjectFilters)
        ensures
            !r.include_archived,
    {
        ProjectFilters { include_archived: false }
    }
}

/// Updates to apply to a project; absent fields stay as they are.
#[derive(Clone, Debug)]
pub struct ProjectUpdates {
    pub name: Option<String>,
    pub description: Option<String>,
    pub color: Option<String>,
    pub archived: Option<bool>,
}

impl Default for ProjectUpdates {
    /// No change at all.
    fn default() -> (r: ProjectUpdates)
        ensures
            r.name is None,
            r.description is None,
            r.color is None,
            r.archived is None,
    {
        ProjectUpdates { name: None, description: None, color: None, archived: None }
    }
}

/// Options of project deletion.
#[derive(Clone, Debug)]
pub struct DeleteProjectOptions {
    /// Delete the project's work items too.
    pub delete_items: bool,
}

impl Default for DeleteProjectOptions {
    /// Work items are kept.
    fn default() -> (r: DeleteProjectOptions)
        ensures
            !r.delete_items,
    {
        DeleteProjectOptions { delete_items: false }
    }
}

/// Result of deleting a project.
#[derive(Clone, Debug)]
pub struct DeleteProjectResult {
    pub items_deleted: usize,
    pub entries_unlinked: usize,
}

/// Data for creating a project.
#[derive(Clone, Debug)]
pub struct CreateProjectData {
    pub name: String,
    pub description: Option<String>,
    pub color: Option<String>,
}

/// Result of creating a project.
#[derive(Clone, Debug)]
pub struct CreateProjectResult {
    pub project_id: String,
    pub name: String,
    pub slug: String,
}

/// Whether each summary shows the project at the same place.
pub open spec fn summarize_all_projects(s: Seq<ProjectSummary>, p: Seq<ProjectRecord>) -> bool {
    &&& s.len() == p.len()
    &&& forall|i: int| 0 <= i < s.len() ==> summarizes(#[trigger] s[i], p[i]@)
}

/// A page of the given projects: the summaries of the projects from
/// `offset` on, at most `limit` of them, the number of projects, and whether
/// projects remain after the page.
pub fn project_list(projects: Vec<ProjectRecord>, offset: usize, limit: usize) -> (r: ProjectList)
    requires
        offset + limit <= usize::MAX,
    ensures
        summarize_all_projects(r.projects@, page_of(projects@, offset as int, limit as int)),
        r.total == projects@.len(),
        r.has_more == (projects@.len() > offset + limit),
{
    let (page, total, has_more) = paginate(projects, offset, limit);
    let mut out: Vec<ProjectSummary> = Vec::new();
    let mut i: usize = 0;
    while i < page.len()
        invariant
            i <= page@.len(),
            out@.len() == i,
            forall|k: int| 0 <= k < i ==> summarizes(#[trigger] out@[k], page@[k]@),
        decreases page.len() - i,
    {
        out.push(ProjectSummary::from_record(page[i].duplicate()));
        i = i + 1;
    }
    ProjectList { projects: out, total, has_more }
}

/// The project that creation data describe, with the given identifier and
/// creation time.
pub open spec fn project_from_data(id: Seq<char>, now: Seq<char>, data: CreateProjectData) -> ProjectView {
    ProjectView {
        description: opt_view(data.description),
        color: opt_view(data.color),
        ..fresh_project(id, now, data.name@)
    }
}

/// A new project holds the given name, description and colour, the slug
/// of its name, is not archived, and was created and updated at `now`.
pub proof fn law_created_project(id: Seq<char>, now: Seq<char>, data: CreateProjectData)
    ensures
        ({
            let p = project_from_data(id, now, data);
            &&& p.id == id && p.name == data.name@ && p.slug == slug_of(data.name@)
            &&& (data.description matches Some(d) ==> p.description == Some(d@))
            &&& (data.description is None ==> p.description is None)
            &&& (data.color matches Some(c) ==> p.color == Some(c@))
            &&& (data.color is None ==> p.color is None)
            &&& p.archived == 0
            &&& p.created_at == now && p.updated_at == now
        }),
{
}

/// Build a new project from creation data, with its slug, a fresh
/// identifier and the current time.
pub fn project_from_create(data: CreateProjectData) -> (r: ProjectRecord)
    ensures
        random_uuid_text(r@.id),
        r@ == project_from_data(r@.id, r@.created_at, data),
{
    let ghost d = data;
    let mut project = ProjectRecord::new(data.name.as_str());
    if let Some(description) = data.description {
        project.description = Some(description);
    }
    if let Some(color) = data.color {
        project.color = Some(color);
    }
    proof {
        assert(project@ =~= project_from_data(project@.id, project@.created_at, d));
    }
    project
}

/// The result of creating a project: its identifier, name and slug.
pub fn create_project_result(project: &ProjectRecord) -> (r: CreateProjectResult)
    ensures
        r.project_id@ == project@.id,
        r.name@ == project@.name,
        r.slug@ == project@.slug,
{
    CreateProjectResult {
        project_id: project.id.clone(),
        name: project.name.clone(),
        slug: project.slug.clone(),
    }
}

/// The project after applying updates at time `now`: the slug stays as it
/// was, and archiving stores 1 or 0.
pub open spec fn project_after(p: ProjectView, u: ProjectUpdates, now: Seq<char>) -> ProjectView {
    ProjectView {
        name: match u.name {
            Some(n) => n@,
            None => p.name,
        },
        description: or_keep(u.description, p.description),
        color: or_keep(u.color, p.color),
        archived: match u.archived {
            Some(a) => if a {
                1
            } else {
                0
            },
            None => p.archived,
        },
        updated_at: now,
        ..p
    }
}

/// Every field named in the project updates reads back afterwards (an
/// archived flag as 1 or 0), every field not named keeps its value, the
/// identifier, slug and creation time never change, and the update time
/// becomes `now`.
pub proof fn law_project_updates_read_back(p: ProjectView, u: ProjectUpdates, now: Seq<char>)
    ensures
        ({
            let w = project_after(p, u, now);
            &&& (u.name matches Some(n) ==> w.name == n@)
            &&& (u.name is None ==> w.name == p.name)
            &&& (u.description matches Some(d) ==> w.description == Some(d@))
            &&& (u.description is None ==> w.description == p.description)
            &&& (u.color matches Some(c) ==> w.color == Some(c@))
            &&& (u.color is None ==> w.color == p.color)
            &&& (u.archived == Some(true) ==> w.archived == 1)
            &&& (u.archived == Some(false) ==> w.archived == 0)
            &&& (u.archived is None ==> w.archived == p.archived)
            &&& w.id == p.id
            &&& w.slug == p.slug
            &&& w.created_at == p.created_at
            &&& w.updated_at == now
        }),
{
}

/// Apply updates to a project at time `now`.
pub fn apply_project_updates(project: &mut ProjectRecord, updates: ProjectUpdates, now: String)
    ensures
        final(project)@ == project_after(old(project)@, updates, now@),
{
    let ghost u = updates;
    let ghost before = project@;
    if let Some(name) = updates.name {
        project.name = name;
    }
    if let Some(description) = updates.description {
        project.description = Some(description);
    }
    if let Some(color) = updates.color {
        project.color = Some(color);
    }
    if let Some(archived) = updates.archived {
        project.archived = if archived {
            1
        } else {
            0
        };
    }
    project.updated_at = now;
    proof {
        assert(project@ =~= project_after(before, u, now@));
    }
}

/// Apply updates to a project, stamped with the current time.
pub fn update_project_record(project: &mut ProjectRecord, updates: ProjectUpdates)
    ensures
        final(project)@ == project_after(old(project)@, updates, final(project)@.updated_at),
        rfc3339_utc_text(final(project)@.updated_at),
{
    let now = now_rfc3339();
    apply_project_updates(project, updates, now);
}

/// An update keeps the project's identity: its identifier, slug and
/// creation time do not change, whatever is updated.
pub proof fn law_update_keeps_identity(p: ProjectView, u: ProjectUpdates, now: Seq<char>)
    ensures
        project_after(p, u, now).id == p.id,
        project_after(p, u, now).slug == p.slug,
        project_after(p, u, now).created_at == p.created_at,
{
}

/// Archiving or restoring a project is what the archived flag reads back.
pub proof fn law_archive_reads_back(p: ProjectView, u: ProjectUpdates, now: Seq<char>)
    requires
        u.archived is Some,
    ensures
        (project_after(p, u, now).archived != 0) == u.archived->0,
{
}

/// Applying the same updates twice at the same time changes nothing more
/// than applying them once.
pub proof fn law_project_updates_idempotent(p: ProjectView, u: ProjectUpdates, now: Seq<char>)
    ensures
        project_after(project_after(p, u, now), u, now) == project_after(p, u, now),
{
}

/// Number of items among the first `n` whose state is `"open"`.
pub open spec fn open_count(items: Seq<WorkItemRecord>, n: int) -> nat
    decreases n,
{
    if n <= 0 {
        0
    } else {
        open_count(items, n - 1) + if items[n - 1]@.state == "open"@ {
            1nat
        } else {
            0nat
        }
    }
}

/// Statistics of a project from its work items and the number of entries
/// linked to it: items whose state is `"open"` are open, all others closed.
pub fn project_stats(items: &Vec<WorkItemRecord>, linked_entries: usize) -> (r: ProjectStats)
    ensures
        r.open_items == open_count(items@, items@.len() as int),
        r.closed_items == items@.len() - open_count(items@, items@.len() as int),
        r.total_items == items@.len(),
        r.linked_entries == linked_entries,
{
    let mut open: usize = 0;
    let mut i: usize = 0;
    while i < items.len()
        invariant
            i <= items@.len(),
            open == open_count(items@, i as int),
            open <= i,
        decreases items.len() - i,
    {
        if text_eq(items[i].state.as_str(), "open") {
            open = open + 1;
        }
        i = i + 1;
    }
    ProjectStats {
        open_items: open,
        closed_items: items.len() - open,
        total_items: items.len(),
        linked_entries,
    }
}

/// The details of a project, with the given statistics.
pub fn project_detail(project: ProjectRecord, stats: Option<ProjectStats>) -> (r: ProjectDetail)
    ensures
        r.id@ == project@.id,
        r.name@ == project@.name,
        r.slug@ == project@.slug,
        opt_view(r.description) == project@.description,
        opt_view(r.color) == project@.color,
        r.archived == (project@.archived != 0),
        r.created_at@ == project@.created_at,
        r.updated_at@ == project@.updated_at,
        r.stats == stats,
{
    let archived = project.is_archived();
    ProjectDetail {
        id: project.id,
        name: project.name,
        slug: project.slug,
        description: project.description,
        color: project.color,
        archived,
        created_at: project.created_at,
        updated_at: project.updated_at,
        stats,
    }
}

/// What deleting a project reports: every work item counts as deleted when
/// deletion of items was asked for, and every linked entry as unlinked.
pub fn delete_project_result(options: &DeleteProjectOptions, item_count: usize, entry_count: usize) -> (r: DeleteProjectResult)
    ensures
        r.items_deleted == if options.delete_items {
            item_count
        } else {
            0
        },
        r.entries_unlinked == entry_count,
{
    DeleteProjectResult {
        items_deleted: if options.delete_items {
            item_count
        } else {
            0
        },
        entries_unlinked: entry_count,
    }
}

} // verus!
