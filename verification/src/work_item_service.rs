//! The work item service: what a listing returns, how a new item is built
//! from the data a caller gives, how updates and card moves change a stored
//! item, and the item counts per board column.
use vstd::prelude::*;

use crate::board::{records_view, summaries_of, summarize_all, views_of, ColumnCount, WorkItemSummary};
use crate::ids::{now_rfc3339, random_uuid_text, rfc3339_utc_text};
use crate::json::{json_string_array, strings_in};
use crate::services::list_has_more;
use crate::text::{opt_view, own, text_eq};
use crate::work_item::{WorkItemRecord, WorkItemView};

verus! {

broadcast use vstd::string::group_string_axioms;

/// A page of work items.
#[derive(Clone, Debug)]
pub struct WorkItemList {
    pub items: Vec<WorkItemSummary>,
    pub total: usize,
    pub has_more: bool,
}

/// Filter options for listing work items.
#[derive(Clone, Debug)]
pub struct WorkItemFilters {
    pub state: Option<String>,
    pub labels: Option<Vec<String>>,
    pub assignee: Option<String>,
    pub search: Option<String>,
    pub item_type: Option<String>,
    pub board_column: Option<String>,
}

impl Default for WorkItemFilters {
    /// No filter at all.
    fn default() -> (r: WorkItemFilters)
        ensures
            r.state is None,
            r.labels is None,
            r.assignee is None,
            r.search is None,
            r.item_type is None,
            r.board_column is None,
    {
        WorkItemFilters {
            state: None,
            labels: None,
            assignee: None,
            search: None,
            item_type: None,
            board_column: None,
        }
    }
}

/// Data for creating a new work item.
#[derive(Clone, Debug)]
pub struct CreateWorkItemData {
    pub title: String,
    pub body: Option<String>,
    pub labels: Option<Vec<String>>,
    pub assignees: Option<Vec<String>>,
    pub item_type: Option<String>,
    pub parent_id: Option<String>,
    pub board_column: Option<String>,
    pub story_points: Option<i64>,
    pub epic_color: Option<String>,
}

/// Updates to apply to a work item; absent fields stay as they are.
#[derive(Clone, Debug)]
pub struct WorkItemUpdates {
    pub title: Option<String>,
    pub body: Option<String>,
    pub state: Option<String>,
    pub labels: Option<Vec<String>>,
    pub assignees: Option<Vec<String>>,
    pub item_type: Option<String>,
    pub parent_id: Option<String>,
    pub board_column: Option<String>,
    pub story_points: Option<i64>,
    pub epic_color: Option<String>,
}

impl Default for WorkItemUpdates {
    /// No change at all.
    fn default() -> (r: WorkItemUpdates)
        ensures
            r.title is None,
            r.body is None,
            r.state is None,
            r.labels is None,
            r.assignees is None,
            r.item_type is None,
            r.parent_id is None,
            r.board_column is None,
            r.story_points is None,
            r.epic_color is None,
    {
        WorkItemUpdates {
            title: None,
            body: None,
            state: None,
            labels: None,
            assignees: None,
            item_type: None,
            parent_id: None,
            board_column: None,
            story_points: None,
            epic_color: None,
        }
    }
}

/// Result of creating a work item.
#[derive(Clone, Debug)]
pub struct CreateWorkItemResult {
    pub item_id: String,
    pub number: u32,
    pub title: String,
}

/// Item counts per board column, with their sum.
#[derive(Clone, Debug)]
pub struct ColumnCounts {
    pub counts: Vec<ColumnCount>,
    pub total: usize,
}

/// A listing of the given items: their summaries in order, their number,
/// and whether the page came back full.
pub fn work_item_list(items: &Vec<WorkItemRecord>, limit: usize) -> (r: WorkItemList)
    ensures
        views_of(r.items@) == summaries_of(records_view(items@)),
        r.total == items@.len(),
        r.has_more == (items@.len() >= limit),
{
    let summaries = summarize_all(items);
    WorkItemList { items: summaries, total: items.len(), has_more: list_has_more(items.len(), limit) }
}

/// A string list stored as a JSON array, when given.
pub open spec fn json_list_opt(o: Option<Vec<String>>) -> Option<Seq<char>> {
    match o {
        Some(v) => Some(json_string_array(v.deep_view())),
        None => None,
    }
}

/// An optional text, when given; the old value otherwise.
pub open spec fn or_keep(o: Option<String>, old: Option<Seq<char>>) -> Option<Seq<char>> {
    match o {
        Some(s) => Some(s@),
        None => old,
    }
}

/// The work item that the creation data describe, with the given
/// identifier and creation time: an open task in the backlog at position
/// zero unless the data say otherwise.
pub open spec fn work_item_from_data(
    id: Seq<char>,
    now: Seq<char>,
    project_id: Seq<char>,
    number: u32,
    data: CreateWorkItemData,
) -> WorkItemView {
    WorkItemView {
        id: id,
        project_id: project_id,
        number: number as i64,
        title: data.title@,
        body: opt_view(data.body),
        state: "open"@,
        labels: json_list_opt(data.labels),
        assignees: json_list_opt(data.assignees),
        priority: None,
        created_at: now,
        updated_at: now,
        closed_at: None,
        item_type: match data.item_type {
            Some(t) => t@,
            None => "task"@,
        },
        parent_id: opt_view(data.parent_id),
        position: 0,
        board_column: match data.board_column {
            Some(c) => c@,
            None => "backlog"@,
        },
        story_points: data.story_points,
        epic_color: opt_view(data.epic_color),
    }
}

/// A new work item holds what the creation data give: its title, body,
/// labels and assignees (as JSON arrays), parent, story points and epic
/// colour; its type and column are those given, a task in the backlog
/// otherwise; it is open, at position zero, without priority, not closed,
/// created and updated at `now`.
pub proof fn law_created_work_item(
    id: Seq<char>,
    now: Seq<char>,
    project_id: Seq<char>,
    number: u32,
    data: CreateWorkItemData,
)
    ensures
        ({
            let w = work_item_from_data(id, now, project_id, number, data);
            &&& w.id == id && w.project_id == project_id && w.number == number
            &&& w.title == data.title@
            &&& (data.body matches Some(b) ==> w.body == Some(b@))
            &&& (data.body is None ==> w.body is None)
            &&& (data.labels matches Some(l) ==> w.labels == Some(json_string_array(l.deep_view())))
            &&& (data.labels is None ==> w.labels is None)
            &&& (data.assignees matches Some(a) ==> w.assignees == Some(json_string_array(a.deep_view())))
            &&& (data.assignees is None ==> w.assignees is None)
            &&& (data.item_type matches Some(t) ==> w.item_type == t@)
            &&& (data.item_type is None ==> w.item_type == "task"@)
            &&& (data.parent_id matches Some(p) ==> w.parent_id == Some(p@))
            &&& (data.parent_id is None ==> w.parent_id is None)
            &&& (data.board_column matches Some(c) ==> w.board_column == c@)
            &&& (data.board_column is None ==> w.board_column == "backlog"@)
            &&& w.story_points == data.story_points
            &&& (data.epic_color matches Some(c) ==> w.epic_color == Some(c@))
            &&& (data.epic_color is None ==> w.epic_color is None)
            &&& w.state == "open"@ && w.position == 0 && w.priority is None && w.closed_at is None
            &&& w.created_at == now && w.updated_at == now
        }),
{
}

/// Build a new work item from creation data, with a fresh identifier and
/// the current time.
pub fn work_item_from_create(project_id: &str, number: u32, data: CreateWorkItemData) -> (r: WorkItemRecord)
    ensures
        random_uuid_text(r@.id),
        r@ == work_item_from_data(r@.id, r@.created_at, project_id@, number, data),
{
    let ghost d = data;
    let mut item = WorkItemRecord::new(project_id, number, data.title.as_str());
    if let Some(body) = data.body {
        item.body = Some(body);
    }
    if let Some(labels) = data.labels {
        item.set_labels(labels);
    }
    if let Some(assignees) = data.assignees {
        item.set_assignees(assignees);
    }
    if let Some(item_type) = data.item_type {
        item.item_type = item_type;
    }
    if let Some(parent_id) = data.parent_id {
        item.parent_id = Some(parent_id);
    }
    if let Some(board_column) = data.board_column {
        item.board_column = board_column;
    }
    if let Some(story_points) = data.story_points {
        item.story_points = Some(story_points);
    }
    if let Some(epic_color) = data.epic_color {
        item.epic_color = Some(epic_color);
    }
    proof {
        assert(item@ =~= work_item_from_data(item@.id, item@.created_at, project_id@, number, d));
    }
    item
}

/// The work item after applying updates at time `now`: each given field
/// replaces the stored one, labels and assignees are stored as JSON arrays,
/// and the update time becomes `now`.
pub open spec fn work_item_after(v: WorkItemView, u: WorkItemUpdates, now: Seq<char>) -> WorkItemView {
    WorkItemView {
        title: match u.title {
            Some(t) => t@,
            None => v.title,
        },
        body: or_keep(u.body, v.body),
        state: match u.state {
            Some(s) => s@,
            None => v.state,
        },
        labels: match u.labels {
            Some(l) => Some(json_string_array(l.deep_view())),
            None => v.labels,
        },
        assignees: match u.assignees {
            Some(a) => Some(json_string_array(a.deep_view())),
            None => v.assignees,
        },
        item_type: match u.item_type {
            Some(t) => t@,
            None => v.item_type,
        },
        parent_id: or_keep(u.parent_id, v.parent_id),
        board_column: match u.board_column {
            Some(c) => c@,
            None => v.board_column,
        },
        story_points: match u.story_points {
            Some(p) => Some(p),
            None => v.story_points,
        },
        epic_color: or_keep(u.epic_color, v.epic_color),
        updated_at: now,
        ..v
    }
}

/// Apply updates to a stored work item at time `now`.
pub fn apply_work_item_updates(item: &mut WorkItemRecord, updates: WorkItemUpdates, now: String)
    ensures
        final(item)@ == work_item_after(old(item)@, updates, now@),
        updates.labels matches Some(l) ==> strings_in(final(item)@.labels) == l.deep_view(),
        updates.assignees matches Some(a) ==> strings_in(final(item)@.assignees) == a.deep_view(),
{
    let ghost u = updates;
    let ghost before = item@;
    if let Some(title) = updates.title {
        item.title = title;
    }
    if let Some(body) = updates.body {
        item.body = Some(body);
    }
    if let Some(state) = updates.state {
        item.state = state;
    }
    if let Some(labels) = updates.labels {
        item.set_labels(labels);
    }
    if let Some(assignees) = updates.assignees {
        item.set_assignees(assignees);
    }
    if let Some(item_type) = updates.item_type {
        item.item_type = item_type;
    }
    if let Some(parent_id) = updates.parent_id {
        item.parent_id = Some(parent_id);
    }
    if let Some(board_column) = updates.board_column {
        item.board_column = board_column;
    }
    if let Some(story_points) = updates.story_points {
        item.story_points = Some(story_points);
    }
    if let Some(epic_color) = updates.epic_color {
        item.epic_color = Some(epic_color);
    }
    item.updated_at = now;
    proof {
        assert(item@ =~= work_item_after(before, u, now@));
    }
}

/// Apply updates to a stored work item, stamped with the current time.
pub fn update_work_item_record(item: &mut WorkItemRecord, updates: WorkItemUpdates)
    ensures
        final(item)@ == work_item_after(old(item)@, updates, final(item)@.updated_at),
        rfc3339_utc_text(final(item)@.updated_at),
{
    let now = now_rfc3339();
    apply_work_item_updates(item, updates, now);
}

/// The work item moved to a board column and position at time `now`.
pub open spec fn work_item_moved(v: WorkItemView, column: Seq<char>, position: i64, now: Seq<char>) -> WorkItemView {
    WorkItemView { board_column: column, position: position, updated_at: now, ..v }
}

/// A moved card lies in the target column at the given position and was
/// updated at `now`; everything else about it stays as it was.
pub proof fn law_move_card(v: WorkItemView, column: Seq<char>, position: i64, now: Seq<char>)
    ensures
        ({
            let w = work_item_moved(v, column, position, now);
            &&& w.board_column == column
            &&& w.position == position
            &&& w.updated_at == now
            &&& w.id == v.id && w.project_id == v.project_id && w.number == v.number
            &&& w.title == v.title && w.body == v.body && w.state == v.state
            &&& w.labels == v.labels && w.assignees == v.assignees && w.priority == v.priority
            &&& w.item_type == v.item_type && w.parent_id == v.parent_id
            &&& w.story_points == v.story_points && w.epic_color == v.epic_color
            &&& w.created_at == v.created_at && w.closed_at == v.closed_at
        }),
{
}

/// Move a card to a board column and position, at time `now`.
pub fn move_card_to(item: &mut WorkItemRecord, to_column: &str, position: i64, now: String)
    ensures
        final(item)@ == work_item_moved(old(item)@, to_column@, position, now@),
{
    item.board_column = own(to_column);
    item.position = position;
    item.updated_at = now;
}

/// The position a card takes at the end of a column whose largest position
/// is `max` (none when the column is empty).
pub fn next_position(max: Option<i64>) -> (r: i64)
    requires
        max matches Some(m) ==> m < i64::MAX,
    ensures
        r == match max {
            Some(m) => m + 1,
            None => 0,
        },
{
    match max {
        Some(m) => m + 1,
        None => 0,
    }
}

/// The position a moved card takes: the one asked for, or the end of the
/// target column.
pub fn move_position(requested: Option<i64>, column_max: Option<i64>) -> (r: i64)
    requires
        column_max matches Some(m) ==> m < i64::MAX,
    ensures
        r == match requested {
            Some(p) => p as int,
            None => match column_max {
                Some(m) => m + 1,
                None => 0,
            },
        },
{
    match requested {
        Some(p) => p,
        None => next_position(column_max),
    }
}

/// Whether the column of entry `i` appears again later in the list (a later
/// entry replaces an earlier one with the same column).
pub open spec fn replaced_later(pairs: Seq<(String, i64)>, i: int) -> bool {
    exists|j: int| i < j < pairs.len() && (#[trigger] pairs[j]).0@ == pairs[i].0@
}

/// The entries of the first `n` that no later entry replaces, in order.
pub open spec fn kept_counts(pairs: Seq<(String, i64)>, n: int) -> Seq<(Seq<char>, usize)>
    decreases n,
{
    if n <= 0 {
        Seq::empty()
    } else if replaced_later(pairs, n - 1) {
        kept_counts(pairs, n - 1)
    } else {
        kept_counts(pairs, n - 1).push((pairs[n - 1].0@, pairs[n - 1].1 as usize))
    }
}

/// Whether no entry after `i` names the same column.
pub open spec fn last_for_column(pairs: Seq<(String, i64)>, i: int) -> bool {
    forall|j: int| i < j < pairs.len() ==> (#[trigger] pairs[j]).0@ != pairs[i].0@
}

/// Whether `x` is the column and count of a row among the first `n` that
/// is the last row for its column.
pub open spec fn last_row_among(pairs: Seq<(String, i64)>, n: int, x: (Seq<char>, usize)) -> bool {
    exists|i: int| 0 <= i < n && last_for_column(pairs, i) && x == (pairs[i].0@, pairs[i].1 as usize)
}

/// The counts kept from a grouped count: each column at most once, with
/// the count of its last row; every column's last row among the first `n`
/// is kept, and nothing else.
pub proof fn law_column_counts(pairs: Seq<(String, i64)>, n: int)
    requires
        0 <= n <= pairs.len(),
    ensures
        forall|i: int| 0 <= i < n && last_for_column(pairs, i) ==> #[trigger] kept_counts(pairs, n).contains(
            (pairs[i].0@, pairs[i].1 as usize),
        ),
        forall|e: int| 0 <= e < kept_counts(pairs, n).len() ==> last_row_among(pairs, n, #[trigger] kept_counts(pairs, n)[e]),
        forall|a: int, b: int|
            0 <= a < b < kept_counts(pairs, n).len() ==> (#[trigger] kept_counts(pairs, n)[a]).0 != (
            #[trigger] kept_counts(pairs, n)[b]).0,
    decreases n,
{
    if n > 0 {
        law_column_counts(pairs, n - 1);
        let before = kept_counts(pairs, n - 1);
        let k = kept_counts(pairs, n);
        let i = n - 1;
        assert forall|e: int| 0 <= e < before.len() implies last_row_among(pairs, n, #[trigger] before[e]) by {
            assert(last_row_among(pairs, n - 1, before[e]));
            let m = choose|m: int| 0 <= m < n - 1 && last_for_column(pairs, m) && before[e] == (pairs[m].0@, pairs[m].1 as usize);
            assert(0 <= m < n);
        }
        if replaced_later(pairs, i) {
            assert(!last_for_column(pairs, i));
            assert(k == before);
        } else {
            let x = (pairs[i].0@, pairs[i].1 as usize);
            assert(k == before.push(x));
            assert(last_for_column(pairs, i));
            assert forall|m: int| 0 <= m < n && last_for_column(pairs, m) implies #[trigger] k.contains(
                (pairs[m].0@, pairs[m].1 as usize),
            ) by {
                if m == i {
                    assert(k[k.len() - 1] == x);
                } else {
                    let y = (pairs[m].0@, pairs[m].1 as usize);
                    assert(before.contains(y));
                    let e = choose|e: int| 0 <= e < before.len() && before[e] == y;
                    assert(k[e] == y);
                }
            }
            assert forall|e: int| 0 <= e < k.len() implies last_row_among(pairs, n, #[trigger] k[e]) by {
                if e == k.len() - 1 {
                    assert(k[e] == x);
                } else {
                    assert(k[e] == before[e]);
                }
            }
            assert forall|a: int, b: int| 0 <= a < b < k.len() implies (#[trigger] k[a]).0 != (#[trigger] k[b]).0 by {
                if b == k.len() - 1 {
                    assert(k[a] == before[a]);
                    assert(last_row_among(pairs, n - 1, before[a]));
                    let m = choose|m: int|
                        0 <= m < n - 1 && last_for_column(pairs, m) && before[a] == (pairs[m].0@, pairs[m].1 as usize);
                    assert(pairs[i].0@ != pairs[m].0@);
                } else {
                    assert(k[a] == before[a] && k[b] == before[b]);
                }
            }
        }
    }
}

/// Sum of the counts of a list.
pub open spec fn counts_sum(s: Seq<(Seq<char>, usize)>) -> nat
    decreases s.len(),
{
    if s.len() == 0 {
        0
    } else {
        counts_sum(s.drop_last()) + s.last().1 as nat
    }
}

/// Views of a list of column counts.
pub open spec fn column_counts_view(s: Seq<ColumnCount>) -> Seq<(Seq<char>, usize)> {
    s.map_values(|c: ColumnCount| (c.column@, c.count))
}

/// Whether column `col` occurs from entry `from` on.
fn occurs_from(pairs: &Vec<(String, i64)>, from: usize, col: &str) -> (r: bool)
    requires
        from <= pairs@.len(),
    ensures
        r == exists|j: int| from <= j < pairs@.len() && (#[trigger] pairs@[j]).0@ == col@,
{
    let mut j: usize = from;
    while j < pairs.len()
        invariant
            from <= j <= pairs@.len(),
            forall|k: int| from <= k < j ==> (#[trigger] pairs@[k]).0@ != col@,
        decreases pairs.len() - j,
    {
        if text_eq(pairs[j].0.as_str(), col) {
            return true;
        }
        j = j + 1;
    }
    false
}

/// The counts per column from the rows of a grouped count, and their sum: a
/// later row for the same column replaces an earlier one, and each count is
/// taken as a `usize`.
pub fn column_counts_from(pairs: &Vec<(String, i64)>) -> (r: ColumnCounts)
    requires
        counts_sum(kept_counts(pairs@, pairs@.len() as int)) <= usize::MAX,
    ensures
        column_counts_view(r.counts@) == kept_counts(pairs@, pairs@.len() as int),
        r.total == counts_sum(kept_counts(pairs@, pairs@.len() as int)),
{
    let mut counts: Vec<ColumnCount> = Vec::new();
    let mut total: usize = 0;
    let mut i: usize = 0;
    while i < pairs.len()
        invariant
            i <= pairs@.len(),
            column_counts_view(counts@) == kept_counts(pairs@, i as int),
            total == counts_sum(kept_counts(pairs@, i as int)),
            counts_sum(kept_counts(pairs@, pairs@.len() as int)) <= usize::MAX,
        decreases pairs.len() - i,
    {
        let col = pairs[i].0.as_str();
        let later = occurs_from(pairs, i + 1, col);
        proof {
            lemma_counts_sum_prefix(pairs@, i + 1, pairs@.len() as int);
        }
        if !later {
            let n: usize = #[verifier::truncate] (pairs[i].1 as usize);
            let ghost before = counts@;
            proof {
                let k = kept_counts(pairs@, i as int);
                assert(k.push((col@, n)).drop_last() =~= k);
            }
            total = total + n;
            counts.push(ColumnCount { column: own(col), count: n });
            proof {
                assert(column_counts_view(counts@) =~= column_counts_view(before).push((col@, n)));
            }
        }
        i = i + 1;
    }
    ColumnCounts { counts, total }
}

/// Keeping more rows never lowers the sum.
proof fn lemma_counts_sum_prefix(pairs: Seq<(String, i64)>, a: int, b: int)
    requires
        0 <= a <= b,
    ensures
        counts_sum(kept_counts(pairs, a)) <= counts_sum(kept_counts(pairs, b)),
    decreases b - a,
{
    if a < b {
        lemma_counts_sum_prefix(pairs, a, b - 1);
        let k = kept_counts(pairs, b - 1);
        if !replaced_later(pairs, b - 1) {
            assert(k.push((pairs[b - 1].0@, pairs[b - 1].1 as usize)).drop_last() =~= k);
        }
    }
}

/// Applying the same updates twice at the same time changes nothing more
/// than applying them once.
pub proof fn law_updates_idempotent(v: WorkItemView, u: WorkItemUpdates, now: Seq<char>)
    ensures
        work_item_after(work_item_after(v, u, now), u, now) == work_item_after(v, u, now),
{
}

/// Every field named in the updates reads back afterwards, every field not
/// named keeps its value, the identity of the item (identifier, project,
/// number, creation time, priority, position, closing time) never changes,
/// and the update time becomes `now`.
pub proof fn law_updates_read_back(v: WorkItemView, u: WorkItemUpdates, now: Seq<char>)
    ensures
        ({
            let w = work_item_after(v, u, now);
            &&& (u.title matches Some(t) ==> w.title == t@)
            &&& (u.title is None ==> w.title == v.title)
            &&& (u.body matches Some(b) ==> w.body == Some(b@))
            &&& (u.body is None ==> w.body == v.body)
            &&& (u.state matches Some(s) ==> w.state == s@)
            &&& (u.state is None ==> w.state == v.state)
            &&& (u.labels matches Some(l) ==> w.labels == Some(json_string_array(l.deep_view())))
            &&& (u.labels is None ==> w.labels == v.labels)
            &&& (u.assignees matches Some(a) ==> w.assignees == Some(json_string_array(a.deep_view())))
            &&& (u.assignees is None ==> w.assignees == v.assignees)
            &&& (u.item_type matches Some(t) ==> w.item_type == t@)
            &&& (u.item_type is None ==> w.item_type == v.item_type)
            &&& (u.parent_id matches Some(p) ==> w.parent_id == Some(p@))
            &&& (u.parent_id is None ==> w.parent_id == v.parent_id)
            &&& (u.board_column matches Some(c) ==> w.board_column == c@)
            &&& (u.board_column is None ==> w.board_column == v.board_column)
            &&& (u.story_points matches Some(p) ==> w.story_points == Some(p))
            &&& (u.story_points is None ==> w.story_points == v.story_points)
            &&& (u.epic_color matches Some(c) ==> w.epic_color == Some(c@))
            &&& (u.epic_color is None ==> w.epic_color == v.epic_color)
            &&& w.id == v.id
            &&& w.project_id == v.project_id
            &&& w.number == v.number
            &&& w.created_at == v.created_at
            &&& w.priority == v.priority
            &&& w.position == v.position
            &&& w.closed_at == v.closed_at
            &&& w.updated_at == now
        }),
{
}

/// Updates that name no field change only the update time.
pub proof fn law_empty_updates(v: WorkItemView, u: WorkItemUpdates, now: Seq<char>)
    requires
        u.title is None,
        u.body is None,
        u.state is None,
        u.labels is None,
        u.assignees is None,
        u.item_type is None,
        u.parent_id is None,
        u.board_column is None,
        u.story_points is None,
        u.epic_color is None,
    ensures
        work_item_after(v, u, now) == (WorkItemView { updated_at: now, ..v }),
{
}

// ---------------------------------------------------------------------------
// Reordering epic swimlanes
// ---------------------------------------------------------------------------

/// The position of another epic when the epic at `from` moves to `to`:
/// moving down shifts the epics after it, up to `to`, one place up; moving
/// up shifts the epics from `to` to before it one place down.
pub open spec fn shifted_position(p: int, from: int, to: int) -> int {
    if from < to {
        if from < p && p <= to {
            p - 1
        } else {
            p
        }
    } else {
        if to <= p && p < from {
            p + 1
        } else {
            p
        }
    }
}

/// The position of an epic after the epic at `from` moved to `to`.
pub open spec fn position_after_reorder(p: int, from: int, to: int) -> int {
    if p == from {
        to
    } else {
        shifted_position(p, from, to)
    }
}

/// The position of another epic after the epic at `from` moved to `to`.
pub fn shift_epic_position(p: i64, from: i64, to: i64) -> (r: i64)
    ensures
        r == shifted_position(p as int, from as int, to as int),
{
    if from < to {
        if from < p && p <= to {
            p - 1
        } else {
            p
        }
    } else {
        if to <= p && p < from {
            p + 1
        } else {
            p
        }
    }
}

/// Reordering keeps epics in distinct places within the range: when the
/// epics hold distinct positions among `0..n` and one moves to a place in
/// that range, no two epics share a position afterwards and all stay in
/// range.
pub proof fn law_reorder_keeps_positions_distinct(p: int, q: int, from: int, to: int, n: int)
    requires
        0 <= p < n,
        0 <= q < n,
        0 <= from < n,
        0 <= to < n,
        p != q,
    ensures
        0 <= position_after_reorder(p, from, to) < n,
        position_after_reorder(p, from, to) != position_after_reorder(q, from, to),
{
}

/// Where the other epics go: when an epic moves up (to an earlier
/// place), the epics from `to` up to before `from` move one place later;
/// when it moves down, the epics after `from` up to `to` move one place
/// earlier; every other epic stays where it is.
pub proof fn law_reorder_shifts_between(p: int, from: int, to: int)
    requires
        p != from,
    ensures
        to < from && to <= p && p < from ==> position_after_reorder(p, from, to) == p + 1,
        from < to && from < p && p <= to ==> position_after_reorder(p, from, to) == p - 1,
        !(to <= p && p < from) && !(from < p && p <= to) ==> position_after_reorder(p, from, to) == p,
        position_after_reorder(from, from, to) == to,
{
}

/// Reordering keeps the order of the other epics: of two epics that do not
/// move, the one before stays before.
pub proof fn law_reorder_keeps_order(p: int, q: int, from: int, to: int)
    requires
        p != from,
        q != from,
        p < q,
    ensures
        position_after_reorder(p, from, to) < position_after_reorder(q, from, to),
{
}

/// Check that a work item can be reordered as an epic of the project: it
/// must be an epic and belong to the project; its current position is
/// returned.
pub fn check_epic_reorder(item: &WorkItemRecord, project_id: &str) -> (r: Result<i64, crate::errors::ServiceError>)
    ensures
        item@.item_type != "epic"@ ==> (r matches Err(crate::errors::ServiceError::Validation(m))
            && m@ == "Work item is not an Epic"@),
        item@.item_type == "epic"@ && item@.project_id != project_id@ ==> (r matches Err(
            crate::errors::ServiceError::Validation(m),
        ) && m@ == "Epic does not belong to this project"@),
        item@.item_type == "epic"@ && item@.project_id == project_id@ ==> r == Ok::<
            i64,
            crate::errors::ServiceError,
        >(item@.position),
{
    if !text_eq(item.item_type.as_str(), "epic") {
        return Err(crate::errors::ServiceError::bad_request("Work item is not an Epic"));
    }
    if !text_eq(item.project_id.as_str(), project_id) {
        return Err(crate::errors::ServiceError::bad_request("Epic does not belong to this project"));
    }
    Ok(item.position)
}

} // verus!
