//! Kanban boards: work item summaries, board columns, swimlanes by item
//! type, ordering by position, and the counts shown in column headers.
use vstd::prelude::*;

use crate::json::strings_in;
use crate::text::{clone_opt, opt_view, own, text_eq};
use crate::work_item::{WorkItemRecord, WorkItemView};

verus! {

broadcast use vstd::string::group_string_axioms;

/// A work item as the API shows it.
#[derive(Clone, Debug)]
pub struct WorkItemSummary {
    pub id: String,
    pub project_id: String,
    pub number: u32,
    pub title: String,
    pub body: Option<String>,
    pub state: String,
    pub labels: Vec<String>,
    pub assignees: Vec<String>,
    pub priority: Option<String>,
    pub created_at: String,
    pub updated_at: String,
    pub item_type: String,
    pub parent_id: Option<String>,
    pub position: i64,
    pub board_column: String,
    pub story_points: Option<i64>,
    pub epic_color: Option<String>,
}

/// Mathematical view of a work item summary.
pub struct SummaryView {
    pub id: Seq<char>,
    pub project_id: Seq<char>,
    pub number: u32,
    pub title: Seq<char>,
    pub body: Option<Seq<char>>,
    pub state: Seq<char>,
    pub labels: Seq<Seq<char>>,
    pub assignees: Seq<Seq<char>>,
    pub priority: Option<Seq<char>>,
    pub created_at: Seq<char>,
    pub updated_at: Seq<char>,
    pub item_type: Seq<char>,
    pub parent_id: Option<Seq<char>>,
    pub position: i64,
    pub board_column: Seq<char>,
    pub story_points: Option<i64>,
    pub epic_color: Option<Seq<char>>,
}

impl View for WorkItemSummary {
    type V = SummaryView;

    open spec fn view(&self) -> SummaryView {
        SummaryView {
            id: self.id@,
            project_id: self.project_id@,
            number: self.number,
            title: self.title@,
            body: opt_view(self.body),
            state: self.state@,
            labels: self.labels.deep_view(),
            assignees: self.assignees.deep_view(),
            priority: opt_view(self.priority),
            created_at: self.created_at@,
            updated_at: self.updated_at@,
            item_type: self.item_type@,
            parent_id: opt_view(self.parent_id),
            position: self.position,
            board_column: self.board_column@,
            story_points: self.story_points,
            epic_color: opt_view(self.epic_color),
        }
    }
}

/// Name of a priority level: 1 critical, 2 high, 3 medium, anything else
/// low.
pub open spec fn priority_name(p: i64) -> Seq<char> {
    if p == 1 {
        "critical"@
    } else if p == 2 {
        "high"@
    } else if p == 3 {
        "medium"@
    } else {
        "low"@
    }
}

/// How severe a priority name is: critical above high above medium above
/// low.
pub open spec fn severity(name: Seq<char>) -> int {
    if name == "critical"@ {
        3
    } else if name == "high"@ {
        2
    } else if name == "medium"@ {
        1
    } else {
        0
    }
}

/// Priority names follow the levels: 1 is critical, 2 high, 3 medium, and
/// every other level low.
pub proof fn law_priority_names(p: i64)
    ensures
        p == 1 ==> priority_name(p) == "critical"@,
        p == 2 ==> priority_name(p) == "high"@,
        p == 3 ==> priority_name(p) == "medium"@,
        (p < 1 || p > 3) ==> priority_name(p) == "low"@,
{
}

/// Among the named levels 1 to 3, a lower number never gets a less severe
/// name, and different levels get different names.
pub proof fn law_priority_severity_order(p: i64, q: i64)
    requires
        1 <= p < q <= 3,
    ensures
        severity(priority_name(p)) > severity(priority_name(q)),
{
    reveal_strlit("critical");
    reveal_strlit("high");
    reveal_strlit("medium");
    reveal_strlit("low");
    assert("critical"@ != "high"@ && "critical"@ != "medium"@ && "high"@ != "medium"@) by {
        assert("critical"@[0] != "high"@[0]);
        assert("critical"@[0] != "medium"@[0]);
        assert("high"@[0] != "medium"@[0]);
    }
}

/// Name of a priority level.
pub fn priority_label(p: i64) -> (r: String)
    ensures
        r@ == priority_name(p),
{
    if p == 1 {
        own("critical")
    } else if p == 2 {
        own("high")
    } else if p == 3 {
        own("medium")
    } else {
        own("low")
    }
}

/// The summary of a stored work item.
pub open spec fn summary_of(v: WorkItemView) -> SummaryView {
    SummaryView {
        id: v.id,
        project_id: v.project_id,
        number: v.number as u32,
        title: v.title,
        body: v.body,
        state: v.state,
        labels: strings_in(v.labels),
        assignees: strings_in(v.assignees),
        priority: match v.priority {
            Some(p) => Some(priority_name(p)),
            None => None,
        },
        created_at: v.created_at,
        updated_at: v.updated_at,
        item_type: v.item_type,
        parent_id: v.parent_id,
        position: v.position,
        board_column: v.board_column,
        story_points: v.story_points,
        epic_color: v.epic_color,
    }
}

/// A summary shows the item as stored: its identity, text, state, type,
/// place on the board and times unchanged, its priority by name, and its
/// labels and assignees read from their JSON arrays.
pub proof fn law_summary_shows_item(v: WorkItemView)
    ensures
        ({
            let s = summary_of(v);
            &&& s.id == v.id && s.project_id == v.project_id && s.title == v.title
            &&& s.body == v.body && s.state == v.state
            &&& (v.priority matches Some(p) ==> s.priority == Some(priority_name(p)))
            &&& (v.priority is None ==> s.priority is None)
            &&& s.labels == strings_in(v.labels) && s.assignees == strings_in(v.assignees)
            &&& s.item_type == v.item_type && s.parent_id == v.parent_id
            &&& s.position == v.position && s.board_column == v.board_column
            &&& s.story_points == v.story_points && s.epic_color == v.epic_color
            &&& s.created_at == v.created_at && s.updated_at == v.updated_at
        }),
{
}

impl WorkItemSummary {
    /// The summary of a stored work item.
    pub fn from_record(item: &WorkItemRecord) -> (r: WorkItemSummary)
        ensures
            r@ == summary_of(item@),
    {
        let priority = match item.priority {
            Some(p) => Some(priority_label(p)),
            None => None,
        };
        WorkItemSummary {
            id: item.id.clone(),
            project_id: item.project_id.clone(),
            number: item.number as u32,
            title: item.title.clone(),
            body: clone_opt(&item.body),
            state: item.state.clone(),
            labels: item.labels_vec(),
            assignees: item.assignees_vec(),
            priority,
            created_at: item.created_at.clone(),
            updated_at: item.updated_at.clone(),
            item_type: item.item_type.clone(),
            parent_id: clone_opt(&item.parent_id),
            position: item.position,
            board_column: item.board_column.clone(),
            story_points: item.story_points,
            epic_color: clone_opt(&item.epic_color),
        }
    }
}

/// The summaries of a list of items, in order.
pub open spec fn summaries_of(items: Seq<WorkItemView>) -> Seq<SummaryView> {
    items.map_values(|v: WorkItemView| summary_of(v))
}

/// The summaries of stored work items, in order.
pub fn summarize_all(items: &Vec<WorkItemRecord>) -> (r: Vec<WorkItemSummary>)
    ensures
        views_of(r@) == summaries_of(records_view(items@)),
{
    let mut out: Vec<WorkItemSummary> = Vec::new();
    let mut i: usize = 0;
    while i < items.len()
        invariant
            i <= items.len(),
            views_of(out@) == summaries_of(records_view(items@.take(i as int))),
        decreases items.len() - i,
    {
        let ghost old_out = out@;
        let sm = WorkItemSummary::from_record(&items[i]);
        out.push(sm);
        proof {
            let rv = records_view(items@.take(i as int));
            assert(items@.take(i + 1) =~= items@.take(i as int).push(items@[i as int]));
            assert(records_view(items@.take(i + 1)) =~= rv.push(items@[i as int]@));
            assert(views_of(out@) =~= views_of(old_out).push(sm@));
            assert(summaries_of(rv.push(items@[i as int]@)) =~= summaries_of(rv).push(
                summary_of(items@[i as int]@),
            ));
        }
        i = i + 1;
    }
    assert(items@.take(items.len() as int) =~= items@);
    out
}

/// Views of a list of summaries.
pub open spec fn views_of(s: Seq<WorkItemSummary>) -> Seq<SummaryView> {
    s.map_values(|x: WorkItemSummary| x@)
}

/// Views of a list of records.
pub open spec fn records_view(s: Seq<WorkItemRecord>) -> Seq<WorkItemView> {
    s.map_values(|x: WorkItemRecord| x@)
}

// ---------------------------------------------------------------------------
// Ordering by position
// ---------------------------------------------------------------------------

/// `x` inserted into a list ordered by position, after every element whose
/// position is not larger.
pub open spec fn insert_by_position(sorted: Seq<SummaryView>, x: SummaryView) -> Seq<SummaryView>
    decreases sorted.len(),
{
    if sorted.len() == 0 {
        seq![x]
    } else if sorted.last().position <= x.position {
        sorted.push(x)
    } else {
        insert_by_position(sorted.drop_last(), x).push(sorted.last())
    }
}

/// The list ordered by position; items with equal positions keep their
/// relative order (a stable sort, as `sort_by_key`).
pub open spec fn sort_by_position(s: Seq<SummaryView>) -> Seq<SummaryView>
    decreases s.len(),
{
    if s.len() == 0 {
        s
    } else {
        insert_by_position(sort_by_position(s.drop_last()), s.last())
    }
}

/// Whether a list is ordered by position.
pub open spec fn ordered_by_position(s: Seq<SummaryView>) -> bool {
    forall|i: int, j: int| 0 <= i <= j < s.len() ==> s[i].position <= s[j].position
}

proof fn lemma_insert_at(sorted: Seq<SummaryView>, x: SummaryView, j: int)
    requires
        0 <= j <= sorted.len(),
        j > 0 ==> sorted[j - 1].position <= x.position,
        forall|k: int| j <= k < sorted.len() ==> sorted[k].position > x.position,
    ensures
        insert_by_position(sorted, x) == sorted.take(j) + seq![x] + sorted.skip(j),
    decreases sorted.len(),
{
    if sorted.len() == 0 {
        assert(sorted.take(j) + seq![x] + sorted.skip(j) =~= seq![x]);
    } else if j == sorted.len() {
        assert(sorted.take(j) + seq![x] + sorted.skip(j) =~= sorted.push(x));
    } else {
        let d = sorted.drop_last();
        lemma_insert_at(d, x, j);
        assert(d.take(j) + seq![x] + d.skip(j) + seq![sorted.last()] =~= sorted.take(j) + seq![x]
            + sorted.skip(j));
    }
}

proof fn lemma_insert_ordered(sorted: Seq<SummaryView>, x: SummaryView, j: int)
    requires
        ordered_by_position(sorted),
        0 <= j <= sorted.len(),
        j > 0 ==> sorted[j - 1].position <= x.position,
        forall|k: int| j <= k < sorted.len() ==> sorted[k].position > x.position,
    ensures
        ordered_by_position(sorted.take(j) + seq![x] + sorted.skip(j)),
{
    let r = sorted.take(j) + seq![x] + sorted.skip(j);
    assert forall|a: int, b: int| 0 <= a <= b < r.len() implies r[a].position <= r[b].position by {
        if a < j && b < j {
        } else if a < j && b == j {
            assert(r[a] == sorted[a]);
        } else if a < j && b > j {
            assert(r[a] == sorted[a]);
            assert(r[b] == sorted[b - 1]);
        } else if a == j && b > j {
            assert(r[b] == sorted[b - 1]);
        } else if a > j {
            assert(r[a] == sorted[a - 1]);
            assert(r[b] == sorted[b - 1]);
        }
    }
}

proof fn lemma_insert_len(sorted: Seq<SummaryView>, x: SummaryView)
    ensures
        insert_by_position(sorted, x).len() == sorted.len() + 1,
    decreases sorted.len(),
{
    if sorted.len() > 0 && sorted.last().position > x.position {
        lemma_insert_len(sorted.drop_last(), x);
    }
}

/// Sorting keeps the number of items.
pub proof fn lemma_sort_len(s: Seq<SummaryView>)
    ensures
        sort_by_position(s).len() == s.len(),
    decreases s.len(),
{
    if s.len() > 0 {
        lemma_sort_len(s.drop_last());
        lemma_insert_len(sort_by_position(s.drop_last()), s.last());
    }
}

proof fn lemma_insert_bounded(d: Seq<SummaryView>, x: SummaryView, b: i64)
    requires
        forall|k: int| 0 <= k < d.len() ==> d[k].position <= b,
        x.position <= b,
    ensures
        forall|k: int|
            0 <= k < insert_by_position(d, x).len() ==> insert_by_position(d, x)[k].position <= b,
    decreases d.len(),
{
    if d.len() > 0 && d.last().position > x.position {
        lemma_insert_bounded(d.drop_last(), x, b);
    }
}

proof fn lemma_insert_keeps_order(d: Seq<SummaryView>, x: SummaryView)
    requires
        ordered_by_position(d),
    ensures
        ordered_by_position(insert_by_position(d, x)),
        insert_by_position(d, x).to_multiset() == d.to_multiset().insert(x),
    decreases d.len(),
{
    broadcast use vstd::seq_lib::to_multiset_build;

    if d.len() == 0 {
        assert(seq![x] =~= d.push(x));
        assert(d.push(x).to_multiset() =~= d.to_multiset().insert(x));
    } else if d.last().position <= x.position {
        let r = d.push(x);
        assert forall|i: int, j: int| 0 <= i <= j < r.len() implies r[i].position <= r[j].position by {
            if j == d.len() && i < d.len() {
                assert(d[i].position <= d[d.len() - 1].position);
            }
        }
    } else {
        let dd = d.drop_last();
        let last = d.last();
        assert(ordered_by_position(dd));
        lemma_insert_keeps_order(dd, x);
        assert forall|k: int| 0 <= k < dd.len() implies dd[k].position <= last.position by {
            assert(d[k].position <= d[d.len() - 1].position);
        }
        lemma_insert_bounded(dd, x, last.position);
        let ri = insert_by_position(dd, x);
        let r = ri.push(last);
        assert forall|i: int, j: int| 0 <= i <= j < r.len() implies r[i].position <= r[j].position by {
            if j < ri.len() {
                assert(r[i] == ri[i] && r[j] == ri[j]);
            } else if i < ri.len() {
                assert(r[i] == ri[i]);
            }
        }
        assert(dd.push(last) =~= d);
    }
}

/// Sorting by position gives a list ordered by position that holds the same
/// items as before, each as often.
pub proof fn law_sort_orders_and_keeps(s: Seq<SummaryView>)
    ensures
        ordered_by_position(sort_by_position(s)),
        sort_by_position(s).to_multiset() == s.to_multiset(),
    decreases s.len(),
{
    broadcast use vstd::seq_lib::to_multiset_build;

    if s.len() == 0 {
    } else {
        law_sort_orders_and_keeps(s.drop_last());
        lemma_insert_keeps_order(sort_by_position(s.drop_last()), s.last());
        assert(s.drop_last().push(s.last()) =~= s);
    }
}

/// Order summaries by position, stably.
pub fn sort_summaries(items: Vec<WorkItemSummary>) -> (r: Vec<WorkItemSummary>)
    ensures
        views_of(r@) == sort_by_position(views_of(items@)),
{
    // Reverse the input so that popping yields the items in their order.
    let mut rest = items;
    let ghost orig = views_of(rest@);
    let mut reversed: Vec<WorkItemSummary> = Vec::new();
    while rest.len() > 0
        invariant
            views_of(rest@) + views_of(reversed@).reverse() == orig,
        decreases rest.len(),
    {
        let ghost before_rest = rest@;
        let ghost before_rev = reversed@;
        let x = rest.pop().unwrap();
        reversed.push(x);
        proof {
            assert(before_rest =~= rest@.push(x));
            assert(views_of(reversed@).reverse() =~= seq![x@] + views_of(before_rev).reverse());
            assert(views_of(before_rest) =~= views_of(rest@).push(x@));
            assert(views_of(rest@) + views_of(reversed@).reverse() =~= views_of(before_rest)
                + views_of(before_rev).reverse());
        }
    }
    assert(views_of(reversed@).reverse() =~= orig);
    let mut out: Vec<WorkItemSummary> = Vec::new();
    let ghost mut done: Seq<SummaryView> = Seq::empty();
    while reversed.len() > 0
        invariant
            done + views_of(reversed@).reverse() == orig,
            views_of(out@) == sort_by_position(done),
            ordered_by_position(views_of(out@)),
        decreases reversed.len(),
    {
        let ghost before_rev = reversed@;
        let x = reversed.pop().unwrap();
        let mut j: usize = out.len();
        while j > 0 && out[j - 1].position > x.position
            invariant
                j <= out.len(),
                forall|k: int| j <= k < out.len() ==> out@[k].position > x.position,
            decreases j,
        {
            j = j - 1;
        }
        let ghost before_out = views_of(out@);
        proof {
            assert forall|k: int| j <= k < before_out.len() implies before_out[k].position
                > x@.position by {
                assert(before_out[k] == out@[k]@);
            }
            if j > 0 {
                assert(before_out[j - 1] == out@[j - 1]@);
            }
            lemma_insert_at(before_out, x@, j as int);
            lemma_insert_ordered(before_out, x@, j as int);
        }
        out.insert(j, x);
        proof {
            assert(views_of(out@) =~= before_out.take(j as int) + seq![x@] + before_out.skip(
                j as int,
            ));
            assert(before_rev =~= reversed@.push(x));
            let nd = done.push(x@);
            assert(nd.drop_last() =~= done);
            assert(views_of(before_rev).reverse() =~= seq![x@] + views_of(reversed@).reverse());
            assert(nd + views_of(reversed@).reverse() =~= done + views_of(before_rev).reverse());
            done = nd;
        }
    }
    assert(done =~= orig);
    out
}

// ---------------------------------------------------------------------------
// Board columns
// ---------------------------------------------------------------------------

/// A column of the board.
#[derive(Clone, Debug)]
pub struct BoardColumn {
    pub id: String,
    pub name: String,
    pub display_name: String,
}

/// Display name of a column: the known workflow columns have fixed names,
/// any other column shows its identifier.
pub open spec fn column_display_name(id: Seq<char>) -> Seq<char> {
    if id == "backlog"@ {
        "Backlog"@
    } else if id == "todo"@ {
        "To Do"@
    } else if id == "in_progress"@ {
        "In Progress"@
    } else if id == "in_review"@ {
        "In Review"@
    } else if id == "testing"@ {
        "Testing"@
    } else if id == "done"@ {
        "Done"@
    } else {
        id
    }
}

/// The display names of the workflow columns, and any other column shown
/// by its identifier.
pub proof fn law_column_display_names(id: Seq<char>)
    ensures
        id == "backlog"@ ==> column_display_name(id) == "Backlog"@,
        id == "todo"@ ==> column_display_name(id) == "To Do"@,
        id == "in_progress"@ ==> column_display_name(id) == "In Progress"@,
        id == "in_review"@ ==> column_display_name(id) == "In Review"@,
        id == "testing"@ ==> column_display_name(id) == "Testing"@,
        id == "done"@ ==> column_display_name(id) == "Done"@,
        !workflow_columns().contains(id) ==> column_display_name(id) == id,
{
    reveal_strlit("backlog");
    reveal_strlit("todo");
    reveal_strlit("in_progress");
    reveal_strlit("in_review");
    reveal_strlit("testing");
    reveal_strlit("done");
    let c = workflow_columns();
    assert(c[0] == "backlog"@ && c[1] == "todo"@ && c[2] == "in_progress"@ && c[3] == "in_review"@
        && c[4] == "testing"@ && c[5] == "done"@);
    assert(c[0][0] != c[1][0] && c[0][0] != c[2][0] && c[0][0] != c[3][0] && c[0][0] != c[4][0]
        && c[0][0] != c[5][0]);
    assert(c[1][0] != c[2][0] && c[1][0] != c[3][0] && c[1].len() != c[4].len() && c[1][0]
        != c[5][0]);
    assert(c[2].len() != c[3].len() && c[2][0] != c[4][0] && c[2][0] != c[5][0]);
    assert(c[3][0] != c[4][0] && c[3][0] != c[5][0] && c[4][0] != c[5][0]);
    if !c.contains(id) {
        assert(id != c[0] && id != c[1] && id != c[2] && id != c[3] && id != c[4] && id != c[5]);
    }
}

impl BoardColumn {
    /// The column with the given identifier.
    pub fn from_id(id: &str) -> (r: BoardColumn)
        ensures
            r.id@ == id@,
            r.name@ == id@,
            r.display_name@ == column_display_name(id@),
    {
        let display: &str = if text_eq(id, "backlog") {
            "Backlog"
        } else if text_eq(id, "todo") {
            "To Do"
        } else if text_eq(id, "in_progress") {
            "In Progress"
        } else if text_eq(id, "in_review") {
            "In Review"
        } else if text_eq(id, "testing") {
            "Testing"
        } else if text_eq(id, "done") {
            "Done"
        } else {
            id
        };
        BoardColumn { id: own(id), name: own(id), display_name: own(display) }
    }
}

/// The workflow columns, in order.
pub open spec fn workflow_columns() -> Seq<Seq<char>> {
    seq!["backlog"@, "todo"@, "in_progress"@, "in_review"@, "testing"@, "done"@]
}

/// The swimlane item types, in order.
pub open spec fn swimlane_types() -> Seq<Seq<char>> {
    seq!["epic"@, "story"@, "task"@, "subtask"@, "bug"@]
}

/// The workflow columns, in order.
pub fn workflow_column_ids() -> (r: Vec<String>)
    ensures
        r@.len() == 6,
        forall|i: int| 0 <= i < 6 ==> (#[trigger] r@[i])@ == workflow_columns()[i],
{
    let mut v: Vec<String> = Vec::new();
    v.push(own("backlog"));
    v.push(own("todo"));
    v.push(own("in_progress"));
    v.push(own("in_review"));
    v.push(own("testing"));
    v.push(own("done"));
    v
}

/// The swimlane item types, in order.
pub fn swimlane_type_ids() -> (r: Vec<String>)
    ensures
        r@.len() == 5,
        forall|i: int| 0 <= i < 5 ==> (#[trigger] r@[i])@ == swimlane_types()[i],
{
    let mut v: Vec<String> = Vec::new();
    v.push(own("epic"));
    v.push(own("story"));
    v.push(own("task"));
    v.push(own("subtask"));
    v.push(own("bug"));
    v
}

/// The board columns, in workflow order.
pub fn board_columns() -> (r: Vec<BoardColumn>)
    ensures
        r@.len() == 6,
        forall|i: int|
            0 <= i < 6 ==> (#[trigger] r@[i]).id@ == workflow_columns()[i] && r@[i].name@
                == workflow_columns()[i] && r@[i].display_name@ == column_display_name(
                workflow_columns()[i],
            ),
{
    let ids = workflow_column_ids();
    let mut v: Vec<BoardColumn> = Vec::new();
    let mut i: usize = 0;
    while i < ids.len()
        invariant
            i <= ids.len(),
            ids@.len() == 6,
            forall|k: int| 0 <= k < 6 ==> (#[trigger] ids@[k])@ == workflow_columns()[k],
            v@.len() == i,
            forall|k: int|
                0 <= k < i ==> (#[trigger] v@[k]).id@ == workflow_columns()[k] && v@[k].name@
                    == workflow_columns()[k] && v@[k].display_name@ == column_display_name(
                    workflow_columns()[k],
                ),
        decreases ids.len() - i,
    {
        v.push(BoardColumn::from_id(ids[i].as_str()));
        i = i + 1;
    }
    v
}

// ---------------------------------------------------------------------------
// Items of one column
// ---------------------------------------------------------------------------

/// Items of a column, ordered by position.
#[derive(Clone, Debug)]
pub struct ColumnItems {
    pub column: String,
    pub items: Vec<WorkItemSummary>,
}

/// Number of items in a column.
#[derive(Clone, Debug)]
pub struct ColumnCount {
    pub column: String,
    pub count: usize,
}

/// The items that pass `keep`, in order.
pub open spec fn select(items: Seq<WorkItemView>, keep: spec_fn(WorkItemView) -> bool) -> Seq<WorkItemView>
    decreases items.len(),
{
    if items.len() == 0 {
        Seq::empty()
    } else if keep(items.last()) {
        select(items.drop_last(), keep).push(items.last())
    } else {
        select(items.drop_last(), keep)
    }
}

pub proof fn lemma_select_len(items: Seq<WorkItemView>, keep: spec_fn(WorkItemView) -> bool)
    ensures
        select(items, keep).len() <= items.len(),
    decreases items.len(),
{
    if items.len() > 0 {
        lemma_select_len(items.drop_last(), keep);
    }
}

/// Whether an item passes the optional item type filter.
pub open spec fn passes_type_filter(v: WorkItemView, filter: Option<Seq<char>>) -> bool {
    match filter {
        Some(f) => v.item_type == f,
        None => true,
    }
}

/// Whether an item lies in the given swimlane and column of the board.
pub open spec fn in_lane_column(v: WorkItemView, filter: Option<Seq<char>>, lane: Seq<char>, column: Seq<char>) -> bool {
    passes_type_filter(v, filter) && v.item_type == lane && v.board_column == column
}

/// The summaries of a swimlane's column, ordered by position.
pub open spec fn lane_column(items: Seq<WorkItemView>, filter: Option<Seq<char>>, lane: Seq<char>, column: Seq<char>) -> Seq<SummaryView> {
    sort_by_position(
        summaries_of(
            select(items, |v: WorkItemView| in_lane_column(v, filter, lane, column)),
        ),
    )
}

/// Items of `items` that lie in the given swimlane and column, with their
/// count.
fn collect_lane_column(
    items: &Vec<WorkItemRecord>,
    filter: Option<&str>,
    lane: &str,
    column: &str,
) -> (r: Vec<WorkItemSummary>)
    ensures
        views_of(r@) == lane_column(records_view(items@), opt_str(filter), lane@, column@),
        r@.len() <= items@.len(),
{
    let ghost keep = |v: WorkItemView| in_lane_column(v, opt_str(filter), lane@, column@);
    let mut picked: Vec<WorkItemSummary> = Vec::new();
    let mut i: usize = 0;
    while i < items.len()
        invariant
            i <= items.len(),
            keep == (|v: WorkItemView| in_lane_column(v, opt_str(filter), lane@, column@)),
            views_of(picked@) == summaries_of(select(records_view(items@.take(i as int)), keep)),
        decreases items.len() - i,
    {
        let item = &items[i];
        let pass = match filter {
            Some(f) => text_eq(item.item_type.as_str(), f),
            None => true,
        };
        let ghost before = picked@;
        proof {
            assert(records_view(items@.take(i + 1)).drop_last() =~= records_view(
                items@.take(i as int),
            ));
            assert(records_view(items@.take(i + 1)).last() == item@);
        }
        if pass && text_eq(item.item_type.as_str(), lane) && text_eq(
            item.board_column.as_str(),
            column,
        ) {
            picked.push(WorkItemSummary::from_record(item));
            proof {
                assert(views_of(picked@) =~= views_of(before).push(summary_of(item@)));
            }
        }
        i = i + 1;
    }
    assert(items@.take(items.len() as int) =~= items@);
    proof {
        lemma_select_len(records_view(items@), keep);
        lemma_sort_len(views_of(picked@));
    }
    let r = sort_summaries(picked);
    assert(views_of(r@).len() == r@.len());
    r
}

/// View of an optional string slice.
pub open spec fn opt_str(o: Option<&str>) -> Option<Seq<char>> {
    match o {
        Some(s) => Some(s@),
        None => None,
    }
}

/// Mathematical view of a column's items.
pub open spec fn column_items_view(c: ColumnItems) -> (Seq<char>, Seq<SummaryView>) {
    (c.column@, views_of(c.items@))
}

// ---------------------------------------------------------------------------
// The board by item type
// ---------------------------------------------------------------------------

/// A swimlane: the items of one type, by column.
#[derive(Clone, Debug)]
pub struct BoardSwimlane {
    pub item_type: String,
    pub items_by_column: Vec<ColumnItems>,
}

/// The full board of a project.
#[derive(Clone, Debug)]
pub struct BoardView {
    pub columns: Vec<BoardColumn>,
    pub swimlanes: Vec<BoardSwimlane>,
    pub column_counts: Vec<ColumnCount>,
    pub total_items: usize,
}

/// Number of items shown in a column, over all swimlanes.
pub open spec fn board_column_count(items: Seq<WorkItemView>, filter: Option<Seq<char>>, column: Seq<char>) -> nat {
    lane_column(items, filter, "epic"@, column).len() + lane_column(
        items,
        filter,
        "story"@,
        column,
    ).len() + lane_column(items, filter, "task"@, column).len() + lane_column(
        items,
        filter,
        "subtask"@,
        column,
    ).len() + lane_column(items, filter, "bug"@, column).len()
}

/// Number of items shown on the board.
pub open spec fn board_total(items: Seq<WorkItemView>, filter: Option<Seq<char>>) -> nat {
    board_column_count(items, filter, "backlog"@) + board_column_count(items, filter, "todo"@)
        + board_column_count(items, filter, "in_progress"@) + board_column_count(
        items,
        filter,
        "in_review"@,
    ) + board_column_count(items, filter, "testing"@) + board_column_count(
        items,
        filter,
        "done"@,
    )
}

/// Whether a board shows exactly the given items: one swimlane per item
/// type in order, each with the workflow columns in order holding that
/// type's items of that column ordered by position, the counts per column
/// and the total.
pub open spec fn is_board_of(b: BoardView, items: Seq<WorkItemView>, filter: Option<Seq<char>>) -> bool {
    &&& b.columns@.len() == 6
    &&& forall|i: int|
        0 <= i < 6 ==> (#[trigger] b.columns@[i]).id@ == workflow_columns()[i]
            && b.columns@[i].display_name@ == column_display_name(workflow_columns()[i])
            && b.columns@[i].name@ == workflow_columns()[i]
    &&& b.swimlanes@.len() == 5
    &&& forall|l: int|
        0 <= l < 5 ==> {
            let lane = #[trigger] b.swimlanes@[l];
            &&& lane.item_type@ == swimlane_types()[l]
            &&& lane.items_by_column@.len() == 6
            &&& forall|c: int|
                0 <= c < 6 ==> column_items_view(#[trigger] lane.items_by_column@[c]) == (
                    workflow_columns()[c],
                    lane_column(items, filter, swimlane_types()[l], workflow_columns()[c]),
                )
        }
    &&& b.column_counts@.len() == 6
    &&& forall|c: int|
        0 <= c < 6 ==> (#[trigger] b.column_counts@[c]).column@ == workflow_columns()[c]
            && b.column_counts@[c].count == board_column_count(items, filter, workflow_columns()[c])
    &&& b.total_items == board_total(items, filter)
}

/// Build the board of a project from its work items: one swimlane per item
/// type (epic, story, task, subtask, bug), each split into the workflow
/// columns and ordered by position; items of other types or columns are not
/// shown.  An item type filter keeps only items of that type.
pub fn build_board(items: &Vec<WorkItemRecord>, item_type_filter: Option<&str>) -> (r: BoardView)
    requires
        items@.len() <= usize::MAX / 64,
    ensures
        is_board_of(r, records_view(items@), opt_str(item_type_filter)),
{
    let ghost iv = records_view(items@);
    let ghost filter = opt_str(item_type_filter);
    let columns = board_columns();
    let column_ids = workflow_column_ids();
    let lane_ids = swimlane_type_ids();
    let mut counts: Vec<usize> = Vec::new();
    let mut c0: usize = 0;
    while c0 < 6
        invariant
            c0 <= 6,
            counts@.len() == c0,
            forall|k: int| 0 <= k < c0 ==> counts@[k] == 0,
        decreases 6 - c0,
    {
        counts.push(0);
        c0 = c0 + 1;
    }
    let mut swimlanes: Vec<BoardSwimlane> = Vec::new();
    let mut l: usize = 0;
    while l < 5
        invariant
            l <= 5,
            iv == records_view(items@),
            filter == opt_str(item_type_filter),
            items@.len() <= usize::MAX / 64,
            column_ids@.len() == 6,
            forall|k: int| 0 <= k < 6 ==> (#[trigger] column_ids@[k])@ == workflow_columns()[k],
            lane_ids@.len() == 5,
            forall|k: int| 0 <= k < 5 ==> (#[trigger] lane_ids@[k])@ == swimlane_types()[k],
            swimlanes@.len() == l,
            counts@.len() == 6,
            forall|k: int|
                0 <= k < l ==> {
                    let lane = #[trigger] swimlanes@[k];
                    &&& lane.item_type@ == swimlane_types()[k]
                    &&& lane.items_by_column@.len() == 6
                    &&& forall|c: int|
                        0 <= c < 6 ==> column_items_view(#[trigger] lane.items_by_column@[c]) == (
                            workflow_columns()[c],
                            lane_column(iv, filter, swimlane_types()[k], workflow_columns()[c]),
                        )
                },
            forall|c: int|
                0 <= c < 6 ==> #[trigger] counts@[c] == partial_column_count(
                    iv,
                    filter,
                    workflow_columns()[c],
                    l as int,
                ),
            forall|c: int| 0 <= c < 6 ==> #[trigger] counts@[c] <= l * items@.len(),
        decreases 5 - l,
    {
        let lane_id = lane_ids[l].as_str();
        let mut by_column: Vec<ColumnItems> = Vec::new();
        let mut c: usize = 0;
        while c < 6
            invariant
                c <= 6,
                l < 5,
                iv == records_view(items@),
                filter == opt_str(item_type_filter),
                items@.len() <= usize::MAX / 64,
                lane_id@ == swimlane_types()[l as int],
                column_ids@.len() == 6,
            forall|k: int| 0 <= k < 6 ==> (#[trigger] column_ids@[k])@ == workflow_columns()[k],
                by_column@.len() == c,
                counts@.len() == 6,
                forall|k: int|
                    0 <= k < c ==> column_items_view(#[trigger] by_column@[k]) == (
                        workflow_columns()[k],
                        lane_column(iv, filter, swimlane_types()[l as int], workflow_columns()[k]),
                    ),
                forall|k: int|
                    0 <= k < c ==> #[trigger] counts@[k] == partial_column_count(
                        iv,
                        filter,
                        workflow_columns()[k],
                        l + 1,
                    ),
                forall|k: int|
                    c <= k < 6 ==> #[trigger] counts@[k] == partial_column_count(
                        iv,
                        filter,
                        workflow_columns()[k],
                        l as int,
                    ),
                forall|k: int| 0 <= k < c ==> #[trigger] counts@[k] <= (l + 1) * items@.len(),
                forall|k: int| c <= k < 6 ==> #[trigger] counts@[k] <= l * items@.len(),
            decreases 6 - c,
        {
            let col = column_ids[c].as_str();
            let picked = collect_lane_column(items, item_type_filter, lane_id, col);
            let n: usize = picked.len();
            proof {
                assert(l * items@.len() + items@.len() == (l + 1) * items@.len()) by (nonlinear_arith);
                assert((l + 1) * items@.len() <= 5 * items@.len()) by (nonlinear_arith)
                    requires
                        l < 5,
                ;
            }
            counts.set(c, counts[c] + n);
            by_column.push(ColumnItems { column: own(col), items: picked });
            c = c + 1;
        }
        swimlanes.push(BoardSwimlane { item_type: own(lane_id), items_by_column: by_column });
        l = l + 1;
    }
    proof {
        assert forall|k: int| 0 <= k < 6 implies partial_column_count(
            iv,
            filter,
            #[trigger] workflow_columns()[k],
            5,
        ) == board_column_count(iv, filter, workflow_columns()[k]) by {
            reveal_with_fuel(partial_column_count, 6);
        }
    }
    let mut column_counts: Vec<ColumnCount> = Vec::new();
    let mut total: usize = 0;
    let mut c: usize = 0;
    while c < 6
        invariant
            c <= 6,
            iv == records_view(items@),
            filter == opt_str(item_type_filter),
            items@.len() <= usize::MAX / 64,
            column_ids@.len() == 6,
            forall|k: int| 0 <= k < 6 ==> (#[trigger] column_ids@[k])@ == workflow_columns()[k],
            counts@.len() == 6,
            forall|k: int|
                0 <= k < 6 ==> #[trigger] counts@[k] == partial_column_count(
                    iv,
                    filter,
                    workflow_columns()[k],
                    5,
                ),
            forall|k: int| 0 <= k < 6 ==> #[trigger] counts@[k] <= 5 * items@.len(),
            forall|k: int|
                0 <= k < 6 ==> partial_column_count(
                    iv,
                    filter,
                    #[trigger] workflow_columns()[k],
                    5,
                ) == board_column_count(iv, filter, workflow_columns()[k]),
            column_counts@.len() == c,
            forall|k: int|
                0 <= k < c ==> (#[trigger] column_counts@[k]).column@ == workflow_columns()[k]
                    && column_counts@[k].count == board_column_count(iv, filter, workflow_columns()[k]),
            total == partial_total(iv, filter, c as int),
            total <= c * 5 * items@.len(),
        decreases 6 - c,
    {
        proof {
            assert(c * 5 * items@.len() + 5 * items@.len() == (c + 1) * 5 * items@.len())
                by (nonlinear_arith);
            assert((c + 1) * 5 * items@.len() <= 30 * items@.len()) by (nonlinear_arith)
                requires
                    c < 6,
            ;
        }
        total = total + counts[c];
        column_counts.push(ColumnCount { column: column_ids[c].clone(), count: counts[c] });
        c = c + 1;
    }
    proof {
        reveal_with_fuel(partial_total, 7);
    }
    BoardView { columns, swimlanes, column_counts, total_items: total }
}

/// Items in a column over the first `lanes` swimlanes.
pub open spec fn partial_column_count(items: Seq<WorkItemView>, filter: Option<Seq<char>>, column: Seq<char>, lanes: int) -> nat
    decreases lanes,
{
    if lanes <= 0 {
        0
    } else {
        partial_column_count(items, filter, column, lanes - 1) + lane_column(
            items,
            filter,
            swimlane_types()[lanes - 1],
            column,
        ).len()
    }
}

/// Items over the first `columns` workflow columns.
pub open spec fn partial_total(items: Seq<WorkItemView>, filter: Option<Seq<char>>, columns: int) -> nat
    decreases columns,
{
    if columns <= 0 {
        0
    } else {
        partial_total(items, filter, columns - 1) + board_column_count(
            items,
            filter,
            workflow_columns()[columns - 1],
        )
    }
}

/// Whether an item type has a swimlane on the board.
pub open spec fn has_swimlane(t: Seq<char>) -> bool {
    t == "epic"@ || t == "story"@ || t == "task"@ || t == "subtask"@ || t == "bug"@
}

/// Whether a column is one of the workflow columns.
pub open spec fn is_workflow_column(c: Seq<char>) -> bool {
    c == "backlog"@ || c == "todo"@ || c == "in_progress"@ || c == "in_review"@ || c == "testing"@
        || c == "done"@
}

/// Whether the board shows an item: it passes the filter, its type has a
/// swimlane and its column is a workflow column.
pub open spec fn shown_on_board(v: WorkItemView, filter: Option<Seq<char>>) -> bool {
    passes_type_filter(v, filter) && has_swimlane(v.item_type) && is_workflow_column(v.board_column)
}

/// Number of items that the board shows.
pub open spec fn shown_count(items: Seq<WorkItemView>, filter: Option<Seq<char>>) -> nat
    decreases items.len(),
{
    if items.len() == 0 {
        0
    } else {
        shown_count(items.drop_last(), filter) + if shown_on_board(items.last(), filter) {
            1nat
        } else {
            0nat
        }
    }
}

proof fn lemma_shown_count_le(items: Seq<WorkItemView>, filter: Option<Seq<char>>)
    ensures
        shown_count(items, filter) <= items.len(),
    decreases items.len(),
{
    if items.len() > 0 {
        lemma_shown_count_le(items.drop_last(), filter);
    }
}

/// One more item adds itself to its cell of the board and to no other.
proof fn lemma_lane_column_step(s: Seq<WorkItemView>, x: WorkItemView, filter: Option<Seq<char>>, lane: Seq<char>, column: Seq<char>)
    ensures
        lane_column(s.push(x), filter, lane, column).len() == lane_column(s, filter, lane, column).len()
            + if in_lane_column(x, filter, lane, column) {
            1nat
        } else {
            0nat
        },
{
    let k = |v: WorkItemView| in_lane_column(v, filter, lane, column);
    assert(s.push(x).drop_last() =~= s);
    let a = summaries_of(select(s.push(x), k));
    let b = summaries_of(select(s, k));
    lemma_sort_len(a);
    lemma_sort_len(b);
    assert(lane_column(s.push(x), filter, lane, column) == sort_by_position(a));
    assert(lane_column(s, filter, lane, column) == sort_by_position(b));
}

/// One more item adds itself to the board's column count of its column when
/// the board shows it.
proof fn lemma_column_count_step(s: Seq<WorkItemView>, x: WorkItemView, filter: Option<Seq<char>>, column: Seq<char>)
    ensures
        board_column_count(s.push(x), filter, column) == board_column_count(s, filter, column) + if passes_type_filter(x, filter)
            && has_swimlane(x.item_type) && x.board_column == column {
            1nat
        } else {
            0nat
        },
{
    reveal_strlit("epic");
    reveal_strlit("story");
    reveal_strlit("task");
    reveal_strlit("subtask");
    reveal_strlit("bug");
    lemma_lane_column_step(s, x, filter, "epic"@, column);
    lemma_lane_column_step(s, x, filter, "story"@, column);
    lemma_lane_column_step(s, x, filter, "task"@, column);
    lemma_lane_column_step(s, x, filter, "subtask"@, column);
    lemma_lane_column_step(s, x, filter, "bug"@, column);
    assert("epic"@ != "story"@ && "epic"@ != "task"@ && "epic"@ != "subtask"@ && "epic"@ != "bug"@) by {
        assert("epic"@[0] != "story"@[0]);
        assert("epic"@[0] != "task"@[0]);
        assert("epic"@[0] != "subtask"@[0]);
        assert("epic"@[0] != "bug"@[0]);
    }
    assert("story"@ != "task"@ && "story"@ != "subtask"@ && "story"@ != "bug"@) by {
        assert("story"@.len() != "task"@.len());
        assert("story"@[1] != "subtask"@[1]);
        assert("story"@[0] != "bug"@[0]);
    }
    assert("task"@ != "subtask"@ && "task"@ != "bug"@ && "subtask"@ != "bug"@) by {
        assert("task"@.len() != "subtask"@.len());
        assert("task"@[0] != "bug"@[0]);
        assert("subtask"@[0] != "bug"@[0]);
    }
}

/// The board shows each item at most once: its total is the number of
/// items that pass the filter, have a swimlane type and lie in a workflow
/// column, and so never exceeds the number of items.
#[verifier::spinoff_prover]
#[verifier::rlimit(40)]
pub proof fn law_board_shows_each_item_once(items: Seq<WorkItemView>, filter: Option<Seq<char>>)
    ensures
        board_total(items, filter) == shown_count(items, filter),
        board_total(items, filter) <= items.len(),
    decreases items.len(),
{
    lemma_shown_count_le(items, filter);
    if items.len() == 0 {
        assert forall|l: Seq<char>, col: Seq<char>| #[trigger] lane_column(items, filter, l, col).len()
            == 0 by {
            let k = |v: WorkItemView| in_lane_column(v, filter, l, col);
            lemma_sort_len(summaries_of(select(items, k)));
            assert(lane_column(items, filter, l, col) == sort_by_position(summaries_of(select(items, k))));
        }
    } else {
        let s = items.drop_last();
        let x = items.last();
        assert(s.push(x) =~= items);
        law_board_shows_each_item_once(s, filter);
        reveal_strlit("backlog");
        reveal_strlit("todo");
        reveal_strlit("in_progress");
        reveal_strlit("in_review");
        reveal_strlit("testing");
        reveal_strlit("done");
        lemma_column_count_step(s, x, filter, "backlog"@);
        lemma_column_count_step(s, x, filter, "todo"@);
        lemma_column_count_step(s, x, filter, "in_progress"@);
        lemma_column_count_step(s, x, filter, "in_review"@);
        lemma_column_count_step(s, x, filter, "testing"@);
        lemma_column_count_step(s, x, filter, "done"@);
        assert("backlog"@ != "todo"@ && "backlog"@ != "in_progress"@ && "backlog"@ != "in_review"@
            && "backlog"@ != "testing"@ && "backlog"@ != "done"@) by {
            assert("backlog"@[0] != "todo"@[0]);
            assert("backlog"@[0] != "in_progress"@[0]);
            assert("backlog"@[0] != "in_review"@[0]);
            assert("backlog"@[0] != "testing"@[0]);
            assert("backlog"@[0] != "done"@[0]);
        }
        assert("todo"@ != "in_progress"@ && "todo"@ != "in_review"@ && "todo"@ != "testing"@
            && "todo"@ != "done"@) by {
            assert("todo"@[0] != "in_progress"@[0]);
            assert("todo"@[0] != "in_review"@[0]);
            assert("todo"@.len() != "testing"@.len());
            assert("todo"@[0] != "done"@[0]);
        }
        assert("in_progress"@ != "in_review"@ && "in_progress"@ != "testing"@ && "in_progress"@
            != "done"@) by {
            assert("in_progress"@.len() != "in_review"@.len());
            assert("in_progress"@[0] != "testing"@[0]);
            assert("in_progress"@[0] != "done"@[0]);
        }
        assert("in_review"@ != "testing"@ && "in_review"@ != "done"@ && "testing"@ != "done"@) by {
            assert("in_review"@[0] != "testing"@[0]);
            assert("in_review"@[0] != "done"@[0]);
            assert("testing"@[0] != "done"@[0]);
        }
    }
}

} // verus!
