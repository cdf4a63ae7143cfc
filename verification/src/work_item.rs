//! Work items of the Kanban board: epics, stories, tasks, subtasks and bugs.
use vstd::prelude::*;

use crate::ids::{new_uuid, now_rfc3339, random_uuid_text, rfc3339_utc_text};
use crate::json::{json_encode_strings, json_string_array, read_strings, strings_in};
use crate::text::{clone_opt, opt_view, own, text_eq};

verus! {

broadcast use vstd::string::group_string_axioms;

/// A stored work item.
#[derive(Clone, Debug)]
pub struct WorkItemRecord {
    /// Unique identifier (UUID).
    pub id: String,
    /// Owning project.
    pub project_id: String,
    /// Number of the item within its project.
    pub number: i64,
    pub title: String,
    /// Markdown body.
    pub body: Option<String>,
    /// `"open"` or `"closed"`.
    pub state: String,
    /// Labels as a JSON array of strings.
    pub labels: Option<String>,
    /// Assignees as a JSON array of strings.
    pub assignees: Option<String>,
    /// Priority, 1 is the highest.
    pub priority: Option<i64>,
    /// Creation time (RFC 3339).
    pub created_at: String,
    /// Last update time (RFC 3339).
    pub updated_at: String,
    /// Close time (RFC 3339).
    pub closed_at: Option<String>,
    /// `"epic"`, `"story"`, `"task"`, `"subtask"` or `"bug"`.
    pub item_type: String,
    /// Parent item in the hierarchy.
    pub parent_id: Option<String>,
    /// Position within its board column.
    pub position: i64,
    /// Board column.
    pub board_column: String,
    /// Story points for estimation.
    pub story_points: Option<i64>,
    /// Epic colour (hex without `#`).
    pub epic_color: Option<String>,
}

/// Mathematical view of a work item.
pub struct WorkItemView {
    pub id: Seq<char>,
    pub project_id: Seq<char>,
    pub number: i64,
    pub title: Seq<char>,
    pub body: Option<Seq<char>>,
    pub state: Seq<char>,
    pub labels: Option<Seq<char>>,
    pub assignees: Option<Seq<char>>,
    pub priority: Option<i64>,
    pub created_at: Seq<char>,
    pub updated_at: Seq<char>,
    pub closed_at: Option<Seq<char>>,
    pub item_type: Seq<char>,
    pub parent_id: Option<Seq<char>>,
    pub position: i64,
    pub board_column: Seq<char>,
    pub story_points: Option<i64>,
    pub epic_color: Option<Seq<char>>,
}

impl View for WorkItemRecord {
    type V = WorkItemView;

    open spec fn view(&self) -> WorkItemView {
        WorkItemView {
            id: self.id@,
            project_id: self.project_id@,
            number: self.number,
            title: self.title@,
            body: opt_view(self.body),
            state: self.state@,
            labels: opt_view(self.labels),
            assignees: opt_view(self.assignees),
            priority: self.priority,
            created_at: self.created_at@,
            updated_at: self.updated_at@,
            closed_at: opt_view(self.closed_at),
            item_type: self.item_type@,
            parent_id: opt_view(self.parent_id),
            position: self.position,
            board_column: self.board_column@,
            story_points: self.story_points,
            epic_color: opt_view(self.epic_color),
        }
    }
}

/// The hierarchy rule: which child types an item type can contain.
///   epic → story, bug, task;  story → task, subtask;  task → subtask;
///   bug → subtask;  subtask and unknown types → none.
pub open spec fn type_can_contain(parent: Seq<char>, child: Seq<char>) -> bool {
    if parent == "epic"@ {
        child == "story"@ || child == "bug"@ || child == "task"@
    } else if parent == "story"@ {
        child == "task"@ || child == "subtask"@
    } else if parent == "task"@ {
        child == "subtask"@
    } else if parent == "bug"@ {
        child == "subtask"@
    } else {
        false
    }
}

/// Whether an item of type `parent` can contain a child of type `child`.
pub fn can_contain_type(parent: &str, child: &str) -> (r: bool)
    ensures
        r == type_can_contain(parent@, child@),
{
    if text_eq(parent, "epic") {
        text_eq(child, "story") || text_eq(child, "bug") || text_eq(child, "task")
    } else if text_eq(parent, "story") {
        text_eq(child, "task") || text_eq(child, "subtask")
    } else if text_eq(parent, "task") {
        text_eq(child, "subtask")
    } else if text_eq(parent, "bug") {
        text_eq(child, "subtask")
    } else {
        false
    }
}

/// The fields of a freshly created work item, apart from its identifier and
/// timestamps.
pub open spec fn fresh_work_item(v: WorkItemView, project_id: Seq<char>, number: u32, title: Seq<char>) -> bool {
    &&& v.project_id == project_id
    &&& v.number == number as i64
    &&& v.title == title
    &&& v.body is None
    &&& v.state == "open"@
    &&& v.labels is None
    &&& v.assignees is None
    &&& v.priority is None
    &&& v.created_at == v.updated_at
    &&& v.closed_at is None
    &&& v.item_type == "task"@
    &&& v.parent_id is None
    &&& v.position == 0
    &&& v.board_column == "backlog"@
    &&& v.story_points is None
    &&& v.epic_color is None
    &&& random_uuid_text(v.id)
}

impl WorkItemRecord {
    /// A new open task in the backlog, with a fresh identifier and the
    /// current time as creation and update time.
    pub fn new(project_id: &str, number: u32, title: &str) -> (r: WorkItemRecord)
        ensures
            fresh_work_item(r@, project_id@, number, title@),
            rfc3339_utc_text(r@.created_at),
    {
        let now = now_rfc3339();
        WorkItemRecord {
            id: new_uuid(),
            project_id: own(project_id),
            number: number as i64,
            title: own(title),
            body: None,
            state: own("open"),
            labels: None,
            assignees: None,
            priority: None,
            created_at: now.clone(),
            updated_at: now,
            closed_at: None,
            item_type: own("task"),
            parent_id: None,
            position: 0,
            board_column: own("backlog"),
            story_points: None,
            epic_color: None,
        }
    }

    /// A copy of the record.
    pub fn duplicate(&self) -> (r: WorkItemRecord)
        ensures
            r@ == self@,
    {
        WorkItemRecord {
            id: self.id.clone(),
            project_id: self.project_id.clone(),
            number: self.number,
            title: self.title.clone(),
            body: clone_opt(&self.body),
            state: self.state.clone(),
            labels: clone_opt(&self.labels),
            assignees: clone_opt(&self.assignees),
            priority: self.priority,
            created_at: self.created_at.clone(),
            updated_at: self.updated_at.clone(),
            closed_at: clone_opt(&self.closed_at),
            item_type: self.item_type.clone(),
            parent_id: clone_opt(&self.parent_id),
            position: self.position,
            board_column: self.board_column.clone(),
            story_points: self.story_points,
            epic_color: clone_opt(&self.epic_color),
        }
    }

    /// The labels: the JSON array in the labels column, or none.
    pub fn labels_vec(&self) -> (r: Vec<String>)
        ensures
            r.deep_view() == strings_in(self@.labels),
    {
        read_strings(&self.labels)
    }

    /// Store the labels as a JSON array; reading them back gives them again.
    pub fn set_labels(&mut self, labels: Vec<String>)
        ensures
            final(self)@ == (WorkItemView {
                labels: Some(json_string_array(labels.deep_view())),
                ..old(self)@
            }),
            strings_in(final(self)@.labels) == labels.deep_view(),
    {
        self.labels = Some(json_encode_strings(&labels));
    }

    /// The assignees: the JSON array in the assignees column, or none.
    pub fn assignees_vec(&self) -> (r: Vec<String>)
        ensures
            r.deep_view() == strings_in(self@.assignees),
    {
        read_strings(&self.assignees)
    }

    /// Store the assignees as a JSON array; reading them back gives them
    /// again.
    pub fn set_assignees(&mut self, assignees: Vec<String>)
        ensures
            final(self)@ == (WorkItemView {
                assignees: Some(json_string_array(assignees.deep_view())),
                ..old(self)@
            }),
            strings_in(final(self)@.assignees) == assignees.deep_view(),
    {
        self.assignees = Some(json_encode_strings(&assignees));
    }

    /// Whether the item is open.
    pub fn is_open(&self) -> (r: bool)
        ensures
            r == (self@.state == "open"@),
    {
        text_eq(self.state.as_str(), "open")
    }

    /// Whether the item has a parent item.
    pub fn has_parent(&self) -> (r: bool)
        ensures
            r == self@.parent_id is Some,
    {
        self.parent_id.is_some()
    }

    /// Whether the item is an epic.
    pub fn is_epic(&self) -> (r: bool)
        ensures
            r == (self@.item_type == "epic"@),
    {
        text_eq(self.item_type.as_str(), "epic")
    }

    /// Whether this item can contain a child of the given type.
    pub fn can_contain(&self, child_type: &str) -> (r: bool)
        ensures
            r == type_can_contain(self@.item_type, child_type@),
    {
        can_contain_type(self.item_type.as_str(), child_type)
    }

    /// The item with the given body.
    pub fn with_body(self, body: &str) -> (r: WorkItemRecord)
        ensures
            r@ == (WorkItemView { body: Some(body@), ..self@ }),
    {
        WorkItemRecord { body: Some(own(body)), ..self }
    }

    /// The item with the given priority.
    pub fn with_priority(self, priority: u8) -> (r: WorkItemRecord)
        ensures
            r@ == (WorkItemView { priority: Some(priority as i64), ..self@ }),
    {
        WorkItemRecord { priority: Some(priority as i64), ..self }
    }

    /// The item with the given labels.
    pub fn with_labels(self, labels: Vec<String>) -> (r: WorkItemRecord)
        ensures
            r@ == (WorkItemView { labels: Some(json_string_array(labels.deep_view())), ..self@ }),
            strings_in(r@.labels) == labels.deep_view(),
    {
        let mut s = self;
        s.set_labels(labels);
        s
    }

    /// The item with the given assignees.
    pub fn with_assignees(self, assignees: Vec<String>) -> (r: WorkItemRecord)
        ensures
            r@ == (WorkItemView {
                assignees: Some(json_string_array(assignees.deep_view())),
                ..self@
            }),
            strings_in(r@.assignees) == assignees.deep_view(),
    {
        let mut s = self;
        s.set_assignees(assignees);
        s
    }

    /// The item with the given type.
    pub fn with_item_type(self, item_type: &str) -> (r: WorkItemRecord)
        ensures
            r@ == (WorkItemView { item_type: item_type@, ..self@ }),
    {
        WorkItemRecord { item_type: own(item_type), ..self }
    }

    /// The item with the given parent.
    pub fn with_parent(self, parent_id: &str) -> (r: WorkItemRecord)
        ensures
            r@ == (WorkItemView { parent_id: Some(parent_id@), ..self@ }),
    {
        WorkItemRecord { parent_id: Some(own(parent_id)), ..self }
    }

    /// The item in the given board column.
    pub fn with_board_column(self, column: &str) -> (r: WorkItemRecord)
        ensures
            r@ == (WorkItemView { board_column: column@, ..self@ }),
    {
        WorkItemRecord { board_column: own(column), ..self }
    }

    /// The item at the given position.
    pub fn with_position(self, position: i64) -> (r: WorkItemRecord)
        ensures
            r@ == (WorkItemView { position, ..self@ }),
    {
        WorkItemRecord { position, ..self }
    }

    /// The item with the given story points.
    pub fn with_story_points(self, points: i64) -> (r: WorkItemRecord)
        ensures
            r@ == (WorkItemView { story_points: Some(points), ..self@ }),
    {
        WorkItemRecord { story_points: Some(points), ..self }
    }

    /// The item with the given epic colour.
    pub fn with_epic_color(self, color: &str) -> (r: WorkItemRecord)
        ensures
            r@ == (WorkItemView { epic_color: Some(color@), ..self@ }),
    {
        WorkItemRecord { epic_color: Some(own(color)), ..self }
    }
}

} // verus!
