//! Epic swimlanes: every work item belongs to the epic at the root of its
//! parent chain, and the epic board shows each epic with its descendants by
//! column, plus the items that belong to no epic.
use vstd::prelude::*;
use vstd::hash_map::StringHashMap;

use crate::board::{
    board_columns, column_display_name, column_items_view, is_workflow_column, law_sort_orders_and_keeps,
    lemma_select_len, lemma_sort_len, ordered_by_position, records_view,
    select, sort_by_position, sort_summaries, summaries_of, summary_of, views_of,
    workflow_column_ids, workflow_columns, BoardColumn, ColumnCount, ColumnItems,
    SummaryView, WorkItemSummary,
};
use crate::text::{own, text_eq};
use crate::work_item::{WorkItemRecord, WorkItemView};

verus! {

broadcast use vstd::string::group_string_axioms;

// ---------------------------------------------------------------------------
// Root epics
// ---------------------------------------------------------------------------

/// The last position at which an item with the given identifier occurs (a
/// lookup table built from the items keeps the last one).
pub open spec fn last_index(items: Seq<WorkItemView>, id: Seq<char>) -> Option<int>
    decreases items.len(),
{
    if items.len() == 0 {
        None
    } else if items.last().id == id {
        Some(items.len() - 1)
    } else {
        last_index(items.drop_last(), id)
    }
}

/// A found position is within bounds and holds the identifier.
pub proof fn lemma_last_index(items: Seq<WorkItemView>, id: Seq<char>)
    ensures
        last_index(items, id) matches Some(i) ==> 0 <= i < items.len() && items[i].id == id,
    decreases items.len(),
{
    if items.len() > 0 && items.last().id != id {
        lemma_last_index(items.drop_last(), id);
    }
}

/// The first epic met when following parent links from `cur`, taking at
/// most `fuel` steps.  A chain ends without an epic at an unknown
/// identifier or at an item without parent.
pub open spec fn chain_epic(items: Seq<WorkItemView>, cur: Seq<char>, fuel: nat) -> Option<Seq<char>>
    decreases fuel,
{
    if fuel == 0 {
        None
    } else {
        match last_index(items, cur) {
            None => None,
            Some(i) => if items[i].item_type == "epic"@ {
                Some(cur)
            } else {
                match items[i].parent_id {
                    Some(p) => chain_epic(items, p, (fuel - 1) as nat),
                    None => None,
                }
            },
        }
    }
}

/// The root epic of the item at position `k`: epics themselves have none;
/// for other items the parent chain is followed.  A chain that meets an epic
/// does so within as many steps as there are items, since the items it
/// passes before are all different; a chain that loops never meets one.
pub open spec fn root_epic(items: Seq<WorkItemView>, k: int) -> Option<Seq<char>> {
    if items[k].item_type == "epic"@ {
        None
    } else {
        chain_epic(items, items[k].id, items.len())
    }
}

/// The assignment of the first `n` items to their root epics, keyed by item
/// identifier (a later item with the same identifier overrides an earlier
/// one).
pub open spec fn assignments_upto(items: Seq<WorkItemView>, n: int) -> Map<Seq<char>, Seq<char>>
    decreases n,
{
    if n <= 0 {
        Map::empty()
    } else {
        let m = assignments_upto(items, n - 1);
        match root_epic(items, n - 1) {
            Some(e) => m.insert(items[n - 1].id, e),
            None => m,
        }
    }
}

/// Item identifier → root epic identifier, for every item that has one.
pub open spec fn epic_assignments(items: Seq<WorkItemView>) -> Map<Seq<char>, Seq<char>> {
    assignments_upto(items, items.len() as int)
}

/// A map from item identifiers to epic identifiers that remembers the order
/// in which identifiers were first added.
pub struct EpicAssignments {
    keys: Vec<String>,
    epics: Vec<String>,
    index: StringHashMap<usize>,
}

impl EpicAssignments {
    /// Keys and values line up, keys are distinct, and the index finds each
    /// key's position.
    pub closed spec fn wf(&self) -> bool {
        &&& self.keys@.len() == self.epics@.len()
        &&& forall|k: Seq<char>|
            #[trigger] self.index@.contains_key(k) ==> self.index@[k] < self.keys@.len()
                && self.keys@[self.index@[k] as int]@ == k
        &&& forall|i: int|
            0 <= i < self.keys@.len() ==> #[trigger] self.index@.contains_key(self.keys@[i]@)
                && self.index@[self.keys@[i]@] == i
    }

    /// The assignments as a map.
    pub closed spec fn view(&self) -> Map<Seq<char>, Seq<char>> {
        Map::new(
            |k: Seq<char>| self.index@.contains_key(k),
            |k: Seq<char>| self.epics@[self.index@[k] as int]@,
        )
    }

    /// No assignments.
    pub fn new() -> (r: EpicAssignments)
        ensures
            r.wf(),
            r.view() == Map::<Seq<char>, Seq<char>>::empty(),
    {
        let r = EpicAssignments { keys: Vec::new(), epics: Vec::new(), index: StringHashMap::new() };
        assert(r.view() =~= Map::<Seq<char>, Seq<char>>::empty());
        r
    }

    /// Assign an item to an epic, replacing an earlier assignment.
    pub fn insert(&mut self, item_id: String, epic_id: String)
        requires
            old(self).wf(),
        ensures
            final(self).wf(),
            final(self).view() == old(self).view().insert(item_id@, epic_id@),
    {
        let ghost old_view = self.view();
        match self.index.get(item_id.as_str()) {
            Some(p) => {
                let p = *p;
                self.epics.set(p, epic_id);
                proof {
                    assert forall|k: Seq<char>| #[trigger] self.index@.contains_key(k) implies self.epics@[self.index@[k] as int]@ == old_view.insert(item_id@, epic_id@)[k] by {
                        if k != item_id@ {
                            assert(self.index@[k] != p);
                        }
                    }
                    assert(self.view() =~= old_view.insert(item_id@, epic_id@));
                }
            },
            None => {
                let n: usize = self.keys.len();
                self.keys.push(item_id.clone());
                self.epics.push(epic_id);
                self.index.insert(item_id, n);
                proof {
                    assert(self.view() =~= old_view.insert(item_id@, epic_id@));
                }
            },
        }
    }

    /// The epic an item is assigned to, if any.
    pub fn get(&self, item_id: &str) -> (r: Option<&String>)
        requires
            self.wf(),
        ensures
            match r {
                Some(e) => self.view().contains_key(item_id@) && self.view()[item_id@] == e@,
                None => !self.view().contains_key(item_id@),
            },
    {
        match self.index.get(item_id) {
            Some(p) => Some(&self.epics[*p]),
            None => None,
        }
    }

    /// The assignments as (item, epic) pairs, in the order in which items
    /// were first assigned; every assignment appears once.
    pub fn entries(&self) -> (r: Vec<(String, String)>)
        requires
            self.wf(),
        ensures
            forall|i: int|
                0 <= i < r@.len() ==> self.view().contains_key((#[trigger] r@[i]).0@)
                    && self.view()[r@[i].0@] == r@[i].1@,
            forall|k: Seq<char>|
                #[trigger] self.view().contains_key(k) ==> exists|i: int|
                    0 <= i < r@.len() && (#[trigger] r@[i]).0@ == k,
            forall|i: int, j: int| 0 <= i < j < r@.len() ==> r@[i].0@ != r@[j].0@,
    {
        let mut out: Vec<(String, String)> = Vec::new();
        let mut i: usize = 0;
        while i < self.keys.len()
            invariant
                self.wf(),
                i <= self.keys@.len(),
                self.keys@.len() == self.epics@.len(),
                out@.len() == i,
                forall|k: int|
                    0 <= k < i ==> (#[trigger] out@[k]).0@ == self.keys@[k]@ && out@[k].1@
                        == self.epics@[k]@,
            decreases self.keys@.len() - i,
        {
            out.push((self.keys[i].clone(), self.epics[i].clone()));
            i = i + 1;
        }
        proof {
            assert forall|a: int, b: int| 0 <= a < b < out@.len() implies out@[a].0@
                != out@[b].0@ by {
                assert(self.index@.contains_key(self.keys@[a]@));
                assert(self.index@.contains_key(self.keys@[b]@));
                assert(self.index@[self.keys@[a]@] == a);
                assert(self.index@[self.keys@[b]@] == b);
            }
            assert forall|k: int| 0 <= k < out@.len() implies self.view().contains_key(
                (#[trigger] out@[k]).0@,
            ) && self.view()[out@[k].0@] == out@[k].1@ by {
                assert(self.index@.contains_key(self.keys@[k]@));
            }
            assert forall|k: Seq<char>| #[trigger] self.view().contains_key(k) implies exists|j: int|
                0 <= j < out@.len() && (#[trigger] out@[j]).0@ == k by {
                let j = self.index@[k] as int;
                assert(out@[j].0@ == k);
            }
        }
        out
    }
}


/// Table from identifier to the last position at which it occurs.
fn position_index(items: &Vec<WorkItemRecord>) -> (r: StringHashMap<usize>)
    ensures
        forall|id: Seq<char>|
            #![trigger r@.contains_key(id)]
            (r@.contains_key(id) <==> last_index(records_view(items@), id) is Some) && (
            r@.contains_key(id) ==> last_index(records_view(items@), id) == Some(r@[id] as int)),
{
    let mut index: StringHashMap<usize> = StringHashMap::new();
    let mut i: usize = 0;
    while i < items.len()
        invariant
            i <= items.len(),
            forall|id: Seq<char>|
                #![trigger index@.contains_key(id)]
                (index@.contains_key(id) <==> last_index(records_view(items@.take(i as int)), id)
                    is Some) && (index@.contains_key(id) ==> last_index(
                    records_view(items@.take(i as int)),
                    id,
                ) == Some(index@[id] as int)),
        decreases items.len() - i,
    {
        let ghost before = index@;
        index.insert(items[i].id.clone(), i);
        proof {
            let t = records_view(items@.take(i + 1));
            assert(t.drop_last() =~= records_view(items@.take(i as int)));
            assert(t.last() == items@[i as int]@);
            assert forall|id: Seq<char>| #![trigger index@.contains_key(id)] (index@.contains_key(id)
                <==> last_index(t, id) is Some) && (index@.contains_key(id) ==> last_index(t, id)
                == Some(index@[id] as int)) by {
                if id == items@[i as int]@.id {
                } else {
                    assert(index@.contains_key(id) == before.contains_key(id));
                }
            }
        }
        i = i + 1;
    }
    assert(items@.take(items.len() as int) =~= items@);
    index
}

/// The first epic on the parent chain starting at `start`, within as many
/// steps as there are items.
fn find_root_epic(items: &Vec<WorkItemRecord>, index: &StringHashMap<usize>, start: &String) -> (r:
    Option<String>)
    requires
        forall|id: Seq<char>|
            #![trigger index@.contains_key(id)]
            (index@.contains_key(id) <==> last_index(records_view(items@), id) is Some) && (
            index@.contains_key(id) ==> last_index(records_view(items@), id) == Some(
                index@[id] as int,
            )),
    ensures
        match r {
            Some(e) => chain_epic(records_view(items@), start@, items@.len()) == Some(e@),
            None => chain_epic(records_view(items@), start@, items@.len()) is None,
        },
{
    let ghost rv = records_view(items@);
    let mut cur = start.clone();
    let mut fuel: usize = items.len();
    while fuel > 0
        invariant
            rv == records_view(items@),
            fuel <= items@.len(),
            forall|id: Seq<char>|
                #![trigger index@.contains_key(id)]
                (index@.contains_key(id) <==> last_index(rv, id) is Some) && (index@.contains_key(
                    id,
                ) ==> last_index(rv, id) == Some(index@[id] as int)),
            chain_epic(rv, start@, items@.len()) == chain_epic(rv, cur@, fuel as nat),
        decreases fuel,
    {
        match index.get(cur.as_str()) {
            None => {
                return None;
            },
            Some(p) => {
                let p = *p;
                proof {
                    lemma_last_index(rv, cur@);
                }
                let item = &items[p];
                assert(rv[p as int] == item@);
                if item.is_epic() {
                    return Some(cur);
                }
                match &item.parent_id {
                    Some(par) => {
                        cur = par.clone();
                        fuel = fuel - 1;
                    },
                    None => {
                        return None;
                    },
                }
            },
        }
    }
    None
}

/// Map every work item to the epic at the root of its parent chain.  Epics
/// themselves and items whose chain ends without an epic are not in the map.
pub fn compute_epic_assignments(items: &Vec<WorkItemRecord>) -> (r: EpicAssignments)
    ensures
        r.wf(),
        r.view() == epic_assignments(records_view(items@)),
{
    let ghost rv = records_view(items@);
    let index = position_index(items);
    let mut out = EpicAssignments::new();
    let mut k: usize = 0;
    while k < items.len()
        invariant
            k <= items.len(),
            rv == records_view(items@),
            out.wf(),
            out.view() == assignments_upto(rv, k as int),
            forall|id: Seq<char>|
                #![trigger index@.contains_key(id)]
                (index@.contains_key(id) <==> last_index(rv, id) is Some) && (index@.contains_key(
                    id,
                ) ==> last_index(rv, id) == Some(index@[id] as int)),
        decreases items.len() - k,
    {
        let item = &items[k];
        assert(rv[k as int] == item@);
        if !item.is_epic() {
            match find_root_epic(items, &index, &item.id) {
                Some(e) => {
                    out.insert(item.id.clone(), e);
                },
                None => {},
            }
        }
        k = k + 1;
    }
    out
}


// ---------------------------------------------------------------------------
// The epic board
// ---------------------------------------------------------------------------

/// Whether a non-epic item belongs to the given epic and lies in the given
/// column.
pub open spec fn in_epic_column(v: WorkItemView, assign: Map<Seq<char>, Seq<char>>, epic_id: Seq<char>, column: Seq<char>) -> bool {
    &&& v.item_type != "epic"@
    &&& assign.contains_key(v.id)
    &&& assign[v.id] == epic_id
    &&& v.board_column == column
}

/// Whether a non-epic item belongs to no epic and lies in the given column.
pub open spec fn unassigned_in_column(v: WorkItemView, assign: Map<Seq<char>, Seq<char>>, column: Seq<char>) -> bool {
    &&& v.item_type != "epic"@
    &&& !assign.contains_key(v.id)
    &&& v.board_column == column
}

/// An epic's items in a column, ordered by position.
pub open spec fn epic_column(items: Seq<WorkItemView>, assign: Map<Seq<char>, Seq<char>>, epic_id: Seq<char>, column: Seq<char>) -> Seq<SummaryView> {
    sort_by_position(
        summaries_of(select(items, |v: WorkItemView| in_epic_column(v, assign, epic_id, column))),
    )
}

/// Items of no epic in a column, ordered by position.
pub open spec fn unassigned_column(items: Seq<WorkItemView>, assign: Map<Seq<char>, Seq<char>>, column: Seq<char>) -> Seq<SummaryView> {
    sort_by_position(
        summaries_of(select(items, |v: WorkItemView| unassigned_in_column(v, assign, column))),
    )
}

/// Sum of the story points of a list of items (items without points count
/// zero).
pub open spec fn points_sum(items: Seq<WorkItemView>) -> int
    decreases items.len(),
{
    if items.len() == 0 {
        0
    } else {
        points_sum(items.drop_last()) + match items.last().story_points {
            Some(p) => p as int,
            None => 0,
        }
    }
}

/// Story points of an epic's items in the first `n` workflow columns.
pub open spec fn epic_points_upto(items: Seq<WorkItemView>, assign: Map<Seq<char>, Seq<char>>, epic_id: Seq<char>, n: int) -> int
    decreases n,
{
    if n <= 0 {
        0
    } else {
        epic_points_upto(items, assign, epic_id, n - 1) + points_sum(
            select(
                items,
                |v: WorkItemView| in_epic_column(v, assign, epic_id, workflow_columns()[n - 1]),
            ),
        )
    }
}

/// Number of an epic's items in the first `n` workflow columns.
pub open spec fn epic_items_upto(items: Seq<WorkItemView>, assign: Map<Seq<char>, Seq<char>>, epic_id: Seq<char>, n: int) -> nat
    decreases n,
{
    if n <= 0 {
        0
    } else {
        epic_items_upto(items, assign, epic_id, n - 1) + epic_column(
            items,
            assign,
            epic_id,
            workflow_columns()[n - 1],
        ).len()
    }
}

/// Number of items in a column over the first `n` epics of the list.
pub open spec fn epics_column_count(items: Seq<WorkItemView>, assign: Map<Seq<char>, Seq<char>>, epics: Seq<WorkItemView>, n: int, column: Seq<char>) -> nat
    decreases n,
{
    if n <= 0 {
        0
    } else {
        epics_column_count(items, assign, epics, n - 1, column) + epic_column(
            items,
            assign,
            epics[n - 1].id,
            column,
        ).len()
    }
}

/// Number of items shown in a column of the epic board: the items of every
/// epic swimlane and the unassigned items.
pub open spec fn epic_board_column_count(items: Seq<WorkItemView>, assign: Map<Seq<char>, Seq<char>>, epics: Seq<WorkItemView>, column: Seq<char>) -> nat {
    epics_column_count(items, assign, epics, epics.len() as int, column) + unassigned_column(
        items,
        assign,
        column,
    ).len()
}

/// Number of items shown in the first `n` workflow columns.
pub open spec fn epic_board_total_upto(items: Seq<WorkItemView>, assign: Map<Seq<char>, Seq<char>>, epics: Seq<WorkItemView>, n: int) -> nat
    decreases n,
{
    if n <= 0 {
        0
    } else {
        epic_board_total_upto(items, assign, epics, n - 1) + epic_board_column_count(
            items,
            assign,
            epics,
            workflow_columns()[n - 1],
        )
    }
}

/// Number of items shown on the epic board.
pub open spec fn epic_board_total(items: Seq<WorkItemView>, assign: Map<Seq<char>, Seq<char>>, epics: Seq<WorkItemView>) -> nat {
    epic_board_total_upto(items, assign, epics, 6)
}

proof fn lemma_epics_count_bound(
    items: Seq<WorkItemView>,
    assign: Map<Seq<char>, Seq<char>>,
    epics: Seq<WorkItemView>,
    n: int,
    column: Seq<char>,
)
    requires
        0 <= n <= epics.len(),
    ensures
        epics_column_count(items, assign, epics, n, column) <= n * items.len(),
    decreases n,
{
    if n > 0 {
        lemma_epics_count_bound(items, assign, epics, n - 1, column);
        let sel = select(items, |v: WorkItemView| in_epic_column(v, assign, epics[n - 1].id, column));
        lemma_select_len(items, |v: WorkItemView| in_epic_column(v, assign, epics[n - 1].id, column));
        lemma_sort_len(summaries_of(sel));
        assert((n - 1) * items.len() + items.len() == n * items.len()) by (nonlinear_arith);
    }
}

proof fn lemma_epic_total_bound(items: Seq<WorkItemView>, assign: Map<Seq<char>, Seq<char>>, epics: Seq<WorkItemView>, n: int)
    requires
        0 <= n,
    ensures
        epic_board_total_upto(items, assign, epics, n) <= n * ((epics.len() + 1) * items.len()),
    decreases n,
{
    if n > 0 {
        lemma_epic_total_bound(items, assign, epics, n - 1);
        let column = workflow_columns()[n - 1];
        lemma_epics_count_bound(items, assign, epics, epics.len() as int, column);
        let sel = select(items, |v: WorkItemView| unassigned_in_column(v, assign, column));
        lemma_select_len(items, |v: WorkItemView| unassigned_in_column(v, assign, column));
        lemma_sort_len(summaries_of(sel));
        assert(epics.len() * items.len() + items.len() == (epics.len() + 1) * items.len()) by (nonlinear_arith);
        assert((n - 1) * ((epics.len() + 1) * items.len()) + (epics.len() + 1) * items.len() == n * ((
            epics.len() + 1) * items.len())) by (nonlinear_arith);
    }
}

/// The epic board shows at most six columns of every epic's items and the
/// unassigned items: no more than `6 * (epics + 1) * items` entries.
pub proof fn lemma_epic_board_total_bound(items: Seq<WorkItemView>, assign: Map<Seq<char>, Seq<char>>, epics: Seq<WorkItemView>)
    ensures
        epic_board_total(items, assign, epics) <= 6 * ((epics.len() + 1) * items.len()),
{
    lemma_epic_total_bound(items, assign, epics, 6);
}

/// Statistics of an epic swimlane.
#[derive(Clone, Debug)]
pub struct EpicStats {
    pub total_items: usize,
    pub total_story_points: i64,
    pub items_by_column: Vec<ColumnCount>,
}

/// An epic with its descendants by column.
#[derive(Clone, Debug)]
pub struct EpicSwimlaneData {
    pub epic: WorkItemSummary,
    pub items_by_column: Vec<ColumnItems>,
    pub stats: EpicStats,
}

/// The epic board of a project.
#[derive(Clone, Debug)]
pub struct EpicBoardView {
    pub columns: Vec<BoardColumn>,
    pub epics: Vec<EpicSwimlaneData>,
    pub unassigned: Vec<ColumnItems>,
    pub column_counts: Vec<ColumnCount>,
    pub total_items: usize,
}

/// Whether a swimlane shows an epic with its items and statistics.
pub open spec fn is_epic_lane_of(lane: EpicSwimlaneData, epic: WorkItemView, items: Seq<WorkItemView>, assign: Map<Seq<char>, Seq<char>>) -> bool {
    &&& lane.epic@ == summary_of(epic)
    &&& lane.items_by_column@.len() == 6
    &&& forall|c: int|
        0 <= c < 6 ==> column_items_view(#[trigger] lane.items_by_column@[c]) == (
            workflow_columns()[c],
            epic_column(items, assign, epic.id, workflow_columns()[c]),
        )
    &&& lane.stats.items_by_column@.len() == 6
    &&& forall|c: int|
        0 <= c < 6 ==> (#[trigger] lane.stats.items_by_column@[c]).column@ == workflow_columns()[c]
            && lane.stats.items_by_column@[c].count == epic_column(
            items,
            assign,
            epic.id,
            workflow_columns()[c],
        ).len()
    &&& lane.stats.total_items == epic_items_upto(items, assign, epic.id, 6)
    &&& lane.stats.total_story_points == epic_points_upto(items, assign, epic.id, 6) as i64
}

/// Whether a board is the epic board of the given epics, assignments and
/// items.
pub open spec fn is_epic_board_of(b: EpicBoardView, epics: Seq<WorkItemView>, assign: Map<Seq<char>, Seq<char>>, items: Seq<WorkItemView>) -> bool {
    &&& b.columns@.len() == 6
    &&& forall|i: int|
        0 <= i < 6 ==> (#[trigger] b.columns@[i]).id@ == workflow_columns()[i]
            && b.columns@[i].display_name@ == column_display_name(workflow_columns()[i])
            && b.columns@[i].name@ == workflow_columns()[i]
    &&& b.epics@.len() == epics.len()
    &&& forall|e: int| 0 <= e < epics.len() ==> is_epic_lane_of(#[trigger] b.epics@[e], epics[e], items, assign)
    &&& b.unassigned@.len() == 6
    &&& forall|c: int|
        0 <= c < 6 ==> column_items_view(#[trigger] b.unassigned@[c]) == (
            workflow_columns()[c],
            unassigned_column(items, assign, workflow_columns()[c]),
        )
    &&& b.column_counts@.len() == 6
    &&& forall|c: int|
        0 <= c < 6 ==> (#[trigger] b.column_counts@[c]).column@ == workflow_columns()[c]
            && b.column_counts@[c].count == epic_board_column_count(items, assign, epics, workflow_columns()[c])
    &&& b.total_items == epic_board_total(items, assign, epics)
}

/// An epic's items in a column, ordered by position, with the sum of their
/// story points.
fn collect_epic_column(
    items: &Vec<WorkItemRecord>,
    assign: &EpicAssignments,
    epic_id: &str,
    column: &str,
) -> (r: (Vec<WorkItemSummary>, i128))
    requires
        assign.wf(),
        items@.len() <= usize::MAX / 64,
    ensures
        views_of(r.0@) == epic_column(records_view(items@), assign.view(), epic_id@, column@),
        r.1 == points_sum(
            select(
                records_view(items@),
                |v: WorkItemView| in_epic_column(v, assign.view(), epic_id@, column@),
            ),
        ),
        r.0@.len() <= items@.len(),
        -(items@.len() * 9223372036854775808) <= r.1 <= items@.len() * 9223372036854775808,
{
    let ghost keep = |v: WorkItemView| in_epic_column(v, assign.view(), epic_id@, column@);
    let mut picked: Vec<WorkItemSummary> = Vec::new();
    let mut points: i128 = 0;
    let mut i: usize = 0;
    while i < items.len()
        invariant
            i <= items.len(),
            assign.wf(),
            items@.len() <= usize::MAX / 64,
            keep == (|v: WorkItemView| in_epic_column(v, assign.view(), epic_id@, column@)),
            views_of(picked@) == summaries_of(select(records_view(items@.take(i as int)), keep)),
            points == points_sum(select(records_view(items@.take(i as int)), keep)),
            -(i * 9223372036854775808) <= points <= i * 9223372036854775808,
        decreases items.len() - i,
    {
        let item = &items[i];
        let ghost before = picked@;
        proof {
            assert(records_view(items@.take(i + 1)).drop_last() =~= records_view(
                items@.take(i as int),
            ));
            assert(records_view(items@.take(i + 1)).last() == item@);
            assert((i + 1) * 9223372036854775808 == i * 9223372036854775808 + 9223372036854775808)
                by (nonlinear_arith);
            assert(i * 9223372036854775808 <= (usize::MAX / 64) * 9223372036854775808)
                by (nonlinear_arith)
                requires
                    i <= usize::MAX / 64,
            ;
        }
        let belongs = match assign.get(item.id.as_str()) {
            Some(e) => text_eq(e.as_str(), epic_id),
            None => false,
        };
        if !item.is_epic() && belongs && text_eq(item.board_column.as_str(), column) {
            picked.push(WorkItemSummary::from_record(item));
            proof {
                assert(views_of(picked@) =~= views_of(before).push(summary_of(item@)));
                let prev = select(records_view(items@.take(i as int)), keep);
                assert(prev.push(item@).drop_last() =~= prev);
                assert(points_sum(prev.push(item@)) == points_sum(prev) + match item@.story_points {
                    Some(p) => p as int,
                    None => 0,
                });
            }
            match item.story_points {
                Some(p) => {
                    points = points + p as i128;
                },
                None => {},
            }
        }
        i = i + 1;
    }
    assert(items@.take(items.len() as int) =~= items@);
    proof {
        crate::board::lemma_select_len(records_view(items@), keep);
        lemma_sort_len(views_of(picked@));
    }
    let r = sort_summaries(picked);
    assert(views_of(r@).len() == r@.len());
    (r, points)
}

/// Items of no epic in a column, ordered by position.
fn collect_unassigned_column(
    items: &Vec<WorkItemRecord>,
    assign: &EpicAssignments,
    column: &str,
) -> (r: Vec<WorkItemSummary>)
    requires
        assign.wf(),
    ensures
        views_of(r@) == unassigned_column(records_view(items@), assign.view(), column@),
{
    let ghost keep = |v: WorkItemView| unassigned_in_column(v, assign.view(), column@);
    let mut picked: Vec<WorkItemSummary> = Vec::new();
    let mut i: usize = 0;
    while i < items.len()
        invariant
            i <= items.len(),
            assign.wf(),
            keep == (|v: WorkItemView| unassigned_in_column(v, assign.view(), column@)),
            views_of(picked@) == summaries_of(select(records_view(items@.take(i as int)), keep)),
        decreases items.len() - i,
    {
        let item = &items[i];
        let ghost before = picked@;
        proof {
            assert(records_view(items@.take(i + 1)).drop_last() =~= records_view(
                items@.take(i as int),
            ));
            assert(records_view(items@.take(i + 1)).last() == item@);
        }
        let assigned = match assign.get(item.id.as_str()) {
            Some(_) => true,
            None => false,
        };
        if !item.is_epic() && !assigned && text_eq(item.board_column.as_str(), column) {
            picked.push(WorkItemSummary::from_record(item));
            proof {
                assert(views_of(picked@) =~= views_of(before).push(summary_of(item@)));
            }
        }
        i = i + 1;
    }
    assert(items@.take(items.len() as int) =~= items@);
    sort_summaries(picked)
}


/// Counting over more epics never gives fewer items.
pub proof fn lemma_epics_count_mono(
    items: Seq<WorkItemView>,
    assign: Map<Seq<char>, Seq<char>>,
    epics: Seq<WorkItemView>,
    a: int,
    b: int,
    column: Seq<char>,
)
    requires
        0 <= a <= b,
    ensures
        epics_column_count(items, assign, epics, a, column) <= epics_column_count(
            items,
            assign,
            epics,
            b,
            column,
        ),
    decreases b - a,
{
    if a < b {
        lemma_epics_count_mono(items, assign, epics, a, b - 1, column);
    }
}

/// Counting over more columns never gives fewer items.
pub proof fn lemma_epic_total_mono(
    items: Seq<WorkItemView>,
    assign: Map<Seq<char>, Seq<char>>,
    epics: Seq<WorkItemView>,
    a: int,
    b: int,
)
    requires
        0 <= a <= b,
    ensures
        epic_board_total_upto(items, assign, epics, a) <= epic_board_total_upto(items, assign, epics, b),
    decreases b - a,
{
    if a < b {
        lemma_epic_total_mono(items, assign, epics, a, b - 1);
    }
}

/// Each workflow column holds at most the items of the whole epic board.
pub proof fn lemma_epic_column_le_total(
    items: Seq<WorkItemView>,
    assign: Map<Seq<char>, Seq<char>>,
    epics: Seq<WorkItemView>,
    k: int,
)
    requires
        0 <= k < 6,
    ensures
        epic_board_column_count(items, assign, epics, workflow_columns()[k]) <= epic_board_total(
            items,
            assign,
            epics,
        ),
{
    lemma_epic_total_mono(items, assign, epics, k + 1, 6);
}

/// One epic's items in the first `n` columns are at most the board's items
/// in those columns.
pub proof fn lemma_epic_items_le_total(
    items: Seq<WorkItemView>,
    assign: Map<Seq<char>, Seq<char>>,
    epics: Seq<WorkItemView>,
    e: int,
    n: int,
)
    requires
        0 <= e < epics.len(),
        0 <= n <= 6,
    ensures
        epic_items_upto(items, assign, epics[e].id, n) <= epic_board_total_upto(items, assign, epics, n),
    decreases n,
{
    if n > 0 {
        lemma_epic_items_le_total(items, assign, epics, e, n - 1);
        let col = workflow_columns()[n - 1];
        lemma_epics_count_mono(items, assign, epics, e + 1, epics.len() as int, col);
    }
}

/// Build the epic board of a project: one swimlane per epic, in the order
/// given, with the epic's items (those whose root epic it is) in each
/// workflow column ordered by position and the swimlane's statistics; then
/// the items of no epic by column; the number of items per column and the
/// total.  Epics themselves and items of other columns are not shown.  The
/// story points of a swimlane add up with wrapping at the bounds of `i64`.
pub fn build_epic_board(
    epics: &Vec<WorkItemRecord>,
    assign: &EpicAssignments,
    items: &Vec<WorkItemRecord>,
) -> (r: EpicBoardView)
    requires
        assign.wf(),
        items@.len() <= usize::MAX / 64,
        (epics@.len() + 1) * items@.len() <= usize::MAX / 6,
    ensures
        is_epic_board_of(r, records_view(epics@), assign.view(), records_view(items@)),
{
    let ghost iv = records_view(items@);
    let ghost ev = records_view(epics@);
    let ghost av = assign.view();
    proof {
        lemma_epic_board_total_bound(iv, av, ev);
        assert(6 * ((ev.len() + 1) * iv.len()) <= usize::MAX);
        assert forall|k: int| 0 <= k < 6 implies #[trigger] epic_board_column_count(
            iv,
            av,
            ev,
            workflow_columns()[k],
        ) <= epic_board_total(iv, av, ev) by {
            lemma_epic_column_le_total(iv, av, ev, k);
        }
    }
    let columns = board_columns();
    let column_ids = workflow_column_ids();
    let mut counts: Vec<usize> = Vec::new();
    let mut c0: usize = 0;
    while c0 < 6
        invariant
            c0 <= 6,
            counts@.len() == c0,
            forall|k: int| 0 <= k < c0 ==> counts@[k] == 0,
        decreases 6 - c0,
    {
        counts.push(0);
        c0 = c0 + 1;
    }
    let mut lanes: Vec<EpicSwimlaneData> = Vec::new();
    let mut e: usize = 0;
    while e < epics.len()
        invariant
            e <= epics.len(),
            iv == records_view(items@),
            ev == records_view(epics@),
            av == assign.view(),
            assign.wf(),
            items@.len() <= usize::MAX / 64,
            epic_board_total(iv, av, ev) <= usize::MAX,
            forall|k: int|
                0 <= k < 6 ==> #[trigger] epic_board_column_count(iv, av, ev, workflow_columns()[k])
                    <= epic_board_total(iv, av, ev),
            column_ids@.len() == 6,
            forall|k: int| 0 <= k < 6 ==> (#[trigger] column_ids@[k])@ == workflow_columns()[k],
            lanes@.len() == e,
            forall|k: int| 0 <= k < e ==> is_epic_lane_of(#[trigger] lanes@[k], ev[k], iv, av),
            counts@.len() == 6,
            forall|c: int|
                0 <= c < 6 ==> #[trigger] counts@[c] == epics_column_count(
                    iv,
                    av,
                    ev,
                    e as int,
                    workflow_columns()[c],
                ),
        decreases epics.len() - e,
    {
        let epic = &epics[e];
        let epic_id = epic.id.as_str();
        let ghost eid = ev[e as int].id;
        let mut by_column: Vec<ColumnItems> = Vec::new();
        let mut stat_counts: Vec<ColumnCount> = Vec::new();
        let mut epic_total: usize = 0;
        let mut points: i128 = 0;
        let mut c: usize = 0;
        while c < 6
            invariant
                c <= 6,
                e < epics.len(),
                iv == records_view(items@),
                ev == records_view(epics@),
                av == assign.view(),
                assign.wf(),
                epic_id@ == eid,
                eid == ev[e as int].id,
                items@.len() <= usize::MAX / 64,
                epic_board_total(iv, av, ev) <= usize::MAX,
                forall|k: int|
                    0 <= k < 6 ==> #[trigger] epic_board_column_count(iv, av, ev, workflow_columns()[k])
                        <= epic_board_total(iv, av, ev),
                column_ids@.len() == 6,
                forall|k: int| 0 <= k < 6 ==> (#[trigger] column_ids@[k])@ == workflow_columns()[k],
                by_column@.len() == c,
                stat_counts@.len() == c,
                forall|k: int|
                    0 <= k < c ==> column_items_view(#[trigger] by_column@[k]) == (
                        workflow_columns()[k],
                        epic_column(iv, av, eid, workflow_columns()[k]),
                    ),
                forall|k: int|
                    0 <= k < c ==> (#[trigger] stat_counts@[k]).column@ == workflow_columns()[k]
                        && stat_counts@[k].count == epic_column(iv, av, eid, workflow_columns()[k]).len(),
                epic_total == epic_items_upto(iv, av, eid, c as int),
                points == epic_points_upto(iv, av, eid, c as int),
                -(c * items@.len() * 9223372036854775808) <= points <= c * items@.len()
                    * 9223372036854775808,
                counts@.len() == 6,
                forall|k: int|
                    0 <= k < c ==> #[trigger] counts@[k] == epics_column_count(
                        iv,
                        av,
                        ev,
                        e + 1,
                        workflow_columns()[k],
                    ),
                forall|k: int|
                    c <= k < 6 ==> #[trigger] counts@[k] == epics_column_count(
                        iv,
                        av,
                        ev,
                        e as int,
                        workflow_columns()[k],
                    ),
            decreases 6 - c,
        {
            let col = column_ids[c].as_str();
            let (picked, p) = collect_epic_column(items, assign, epic_id, col);
            let n: usize = picked.len();
            proof {
                let colv = workflow_columns()[c as int];
                assert(n == epic_column(iv, av, eid, colv).len());
                lemma_epics_count_mono(iv, av, ev, e + 1, ev.len() as int, colv);
                assert(epics_column_count(iv, av, ev, e + 1, colv) <= epic_board_column_count(
                    iv,
                    av,
                    ev,
                    colv,
                ));
                assert(epic_board_column_count(iv, av, ev, workflow_columns()[c as int])
                    <= epic_board_total(iv, av, ev));
                lemma_epic_items_le_total(iv, av, ev, e as int, c + 1);
                lemma_epic_total_mono(iv, av, ev, c + 1, 6);
                assert((c + 1) * items@.len() * 9223372036854775808 == c * items@.len()
                    * 9223372036854775808 + items@.len() * 9223372036854775808)
                    by (nonlinear_arith);
                assert((c + 1) * items@.len() * 9223372036854775808 <= 6 * (usize::MAX / 64)
                    * 9223372036854775808) by (nonlinear_arith)
                    requires
                        c < 6,
                        items@.len() <= usize::MAX / 64,
                ;
            }
            counts.set(c, counts[c] + n);
            epic_total = epic_total + n;
            points = points + p;
            stat_counts.push(ColumnCount { column: own(col), count: n });
            by_column.push(ColumnItems { column: own(col), items: picked });
            c = c + 1;
        }
        let total_points: i64 = #[verifier::truncate] (points as i64);
        lanes.push(
            EpicSwimlaneData {
                epic: WorkItemSummary::from_record(epic),
                items_by_column: by_column,
                stats: EpicStats {
                    total_items: epic_total,
                    total_story_points: total_points,
                    items_by_column: stat_counts,
                },
            },
        );
        e = e + 1;
    }
    let mut unassigned: Vec<ColumnItems> = Vec::new();
    let mut c: usize = 0;
    while c < 6
        invariant
            c <= 6,
            iv == records_view(items@),
            ev == records_view(epics@),
            av == assign.view(),
            assign.wf(),
            epic_board_total(iv, av, ev) <= usize::MAX,
            forall|k: int|
                0 <= k < 6 ==> #[trigger] epic_board_column_count(iv, av, ev, workflow_columns()[k])
                    <= epic_board_total(iv, av, ev),
            column_ids@.len() == 6,
            forall|k: int| 0 <= k < 6 ==> (#[trigger] column_ids@[k])@ == workflow_columns()[k],
            unassigned@.len() == c,
            forall|k: int|
                0 <= k < c ==> column_items_view(#[trigger] unassigned@[k]) == (
                    workflow_columns()[k],
                    unassigned_column(iv, av, workflow_columns()[k]),
                ),
            counts@.len() == 6,
            forall|k: int|
                0 <= k < c ==> #[trigger] counts@[k] == epic_board_column_count(
                    iv,
                    av,
                    ev,
                    workflow_columns()[k],
                ),
            forall|k: int|
                c <= k < 6 ==> #[trigger] counts@[k] == epics_column_count(
                    iv,
                    av,
                    ev,
                    ev.len() as int,
                    workflow_columns()[k],
                ),
        decreases 6 - c,
    {
        let col = column_ids[c].as_str();
        let picked = collect_unassigned_column(items, assign, col);
        let n: usize = picked.len();
        proof {
            assert(epic_board_column_count(iv, av, ev, workflow_columns()[c as int])
                <= epic_board_total(iv, av, ev));
        }
        counts.set(c, counts[c] + n);
        unassigned.push(ColumnItems { column: own(col), items: picked });
        c = c + 1;
    }
    let mut column_counts: Vec<ColumnCount> = Vec::new();
    let mut total: usize = 0;
    let mut c: usize = 0;
    while c < 6
        invariant
            c <= 6,
            iv == records_view(items@),
            ev == records_view(epics@),
            av == assign.view(),
            epic_board_total(iv, av, ev) <= usize::MAX,
            column_ids@.len() == 6,
            forall|k: int| 0 <= k < 6 ==> (#[trigger] column_ids@[k])@ == workflow_columns()[k],
            counts@.len() == 6,
            forall|k: int|
                0 <= k < 6 ==> #[trigger] counts@[k] == epic_board_column_count(
                    iv,
                    av,
                    ev,
                    workflow_columns()[k],
                ),
            column_counts@.len() == c,
            forall|k: int|
                0 <= k < c ==> (#[trigger] column_counts@[k]).column@ == workflow_columns()[k]
                    && column_counts@[k].count == epic_board_column_count(
                    iv,
                    av,
                    ev,
                    workflow_columns()[k],
                ),
            total == epic_board_total_upto(iv, av, ev, c as int),
        decreases 6 - c,
    {
        proof {
            lemma_epic_total_mono(iv, av, ev, c + 1, 6);
        }
        total = total + counts[c];
        column_counts.push(ColumnCount { column: column_ids[c].clone(), count: counts[c] });
        c = c + 1;
    }
    EpicBoardView { columns, epics: lanes, unassigned, column_counts, total_items: total }
}

/// Whether one of the first `n` epics has the given identifier.
pub open spec fn epic_listed(epics: Seq<WorkItemView>, n: int, id: Seq<char>) -> bool
    decreases n,
{
    if n <= 0 {
        false
    } else {
        epic_listed(epics, n - 1, id) || epics[n - 1].id == id
    }
}

/// Whether the epics have distinct identifiers.
pub open spec fn distinct_epic_ids(epics: Seq<WorkItemView>) -> bool {
    forall|i: int, j: int| 0 <= i < j < epics.len() ==> epics[i].id != epics[j].id
}

/// Whether the epic board shows an item: it is not an epic, lies in a
/// workflow column, and belongs either to no epic or to a listed one.
pub open spec fn shown_on_epic_board(v: WorkItemView, assign: Map<Seq<char>, Seq<char>>, epics: Seq<WorkItemView>) -> bool {
    &&& v.item_type != "epic"@
    &&& is_workflow_column(v.board_column)
    &&& assign.contains_key(v.id) ==> epic_listed(epics, epics.len() as int, assign[v.id])
}

/// Number of items that the epic board shows.
pub open spec fn epic_shown_count(items: Seq<WorkItemView>, assign: Map<Seq<char>, Seq<char>>, epics: Seq<WorkItemView>) -> nat
    decreases items.len(),
{
    if items.len() == 0 {
        0
    } else {
        epic_shown_count(items.drop_last(), assign, epics) + if shown_on_epic_board(
            items.last(),
            assign,
            epics,
        ) {
            1nat
        } else {
            0nat
        }
    }
}

proof fn lemma_epic_shown_count_le(items: Seq<WorkItemView>, assign: Map<Seq<char>, Seq<char>>, epics: Seq<WorkItemView>)
    ensures
        epic_shown_count(items, assign, epics) <= items.len(),
    decreases items.len(),
{
    if items.len() > 0 {
        lemma_epic_shown_count_le(items.drop_last(), assign, epics);
    }
}

proof fn lemma_epic_listed_witness(epics: Seq<WorkItemView>, n: int, id: Seq<char>)
    requires
        epic_listed(epics, n, id),
    ensures
        exists|i: int| 0 <= i < n && epics[i].id == id,
    decreases n,
{
    if n > 0 && !(epics[n - 1].id == id) {
        lemma_epic_listed_witness(epics, n - 1, id);
    }
}

proof fn lemma_epic_column_step(s: Seq<WorkItemView>, x: WorkItemView, assign: Map<Seq<char>, Seq<char>>, epic_id: Seq<char>, column: Seq<char>)
    ensures
        epic_column(s.push(x), assign, epic_id, column).len() == epic_column(s, assign, epic_id, column).len()
            + if in_epic_column(x, assign, epic_id, column) {
            1nat
        } else {
            0nat
        },
{
    let k = |v: WorkItemView| in_epic_column(v, assign, epic_id, column);
    assert(s.push(x).drop_last() =~= s);
    let a = summaries_of(select(s.push(x), k));
    let b = summaries_of(select(s, k));
    lemma_sort_len(a);
    lemma_sort_len(b);
    assert(epic_column(s.push(x), assign, epic_id, column) == sort_by_position(a));
    assert(epic_column(s, assign, epic_id, column) == sort_by_position(b));
}

proof fn lemma_unassigned_column_step(s: Seq<WorkItemView>, x: WorkItemView, assign: Map<Seq<char>, Seq<char>>, column: Seq<char>)
    ensures
        unassigned_column(s.push(x), assign, column).len() == unassigned_column(s, assign, column).len()
            + if unassigned_in_column(x, assign, column) {
            1nat
        } else {
            0nat
        },
{
    let k = |v: WorkItemView| unassigned_in_column(v, assign, column);
    assert(s.push(x).drop_last() =~= s);
    let a = summaries_of(select(s.push(x), k));
    let b = summaries_of(select(s, k));
    lemma_sort_len(a);
    lemma_sort_len(b);
    assert(unassigned_column(s.push(x), assign, column) == sort_by_position(a));
    assert(unassigned_column(s, assign, column) == sort_by_position(b));
}

/// Over epics with distinct identifiers, one more item adds itself to at
/// most one swimlane: that of its epic, when listed.
proof fn lemma_epics_count_step(
    s: Seq<WorkItemView>,
    x: WorkItemView,
    assign: Map<Seq<char>, Seq<char>>,
    epics: Seq<WorkItemView>,
    n: int,
    column: Seq<char>,
)
    requires
        distinct_epic_ids(epics),
        0 <= n <= epics.len(),
    ensures
        epics_column_count(s.push(x), assign, epics, n, column) == epics_column_count(s, assign, epics, n, column)
            + if x.item_type != "epic"@ && assign.contains_key(x.id) && x.board_column == column
            && epic_listed(epics, n, assign[x.id]) {
            1nat
        } else {
            0nat
        },
    decreases n,
{
    if n > 0 {
        lemma_epics_count_step(s, x, assign, epics, n - 1, column);
        lemma_epic_column_step(s, x, assign, epics[n - 1].id, column);
        if assign.contains_key(x.id) && epic_listed(epics, n - 1, assign[x.id]) && epics[n - 1].id
            == assign[x.id] {
            lemma_epic_listed_witness(epics, n - 1, assign[x.id]);
        }
    }
}

proof fn lemma_epic_board_column_step(
    s: Seq<WorkItemView>,
    x: WorkItemView,
    assign: Map<Seq<char>, Seq<char>>,
    epics: Seq<WorkItemView>,
    column: Seq<char>,
)
    requires
        distinct_epic_ids(epics),
    ensures
        epic_board_column_count(s.push(x), assign, epics, column) == epic_board_column_count(s, assign, epics, column)
            + if x.item_type != "epic"@ && x.board_column == column && (assign.contains_key(x.id)
            ==> epic_listed(epics, epics.len() as int, assign[x.id])) {
            1nat
        } else {
            0nat
        },
{
    lemma_epics_count_step(s, x, assign, epics, epics.len() as int, column);
    lemma_unassigned_column_step(s, x, assign, column);
}

/// Whether a column is among the first `n` workflow columns.
pub open spec fn column_in_first(c: Seq<char>, n: int) -> bool
    decreases n,
{
    if n <= 0 {
        false
    } else {
        column_in_first(c, n - 1) || workflow_columns()[n - 1] == c
    }
}

proof fn lemma_workflow_columns_distinct()
    ensures
        forall|i: int, j: int| 0 <= i < j < 6 ==> workflow_columns()[i] != workflow_columns()[j],
{
    reveal_strlit("backlog");
    reveal_strlit("todo");
    reveal_strlit("in_progress");
    reveal_strlit("in_review");
    reveal_strlit("testing");
    reveal_strlit("done");
    let c = workflow_columns();
    assert(c[0][0] != c[1][0] && c[0][0] != c[2][0] && c[0][0] != c[3][0] && c[0][0] != c[4][0]
        && c[0][0] != c[5][0]);
    assert(c[1][0] != c[2][0] && c[1][0] != c[3][0] && c[1].len() != c[4].len() && c[1][0]
        != c[5][0]);
    assert(c[2].len() != c[3].len() && c[2][0] != c[4][0] && c[2][0] != c[5][0]);
    assert(c[3][0] != c[4][0] && c[3][0] != c[5][0] && c[4][0] != c[5][0]);
}

proof fn lemma_column_in_first_witness(c: Seq<char>, n: int)
    requires
        column_in_first(c, n),
    ensures
        exists|i: int| 0 <= i < n && workflow_columns()[i] == c,
    decreases n,
{
    if n > 0 && !(workflow_columns()[n - 1] == c) {
        lemma_column_in_first_witness(c, n - 1);
    }
}

proof fn lemma_epic_total_step(
    s: Seq<WorkItemView>,
    x: WorkItemView,
    assign: Map<Seq<char>, Seq<char>>,
    epics: Seq<WorkItemView>,
    n: int,
)
    requires
        distinct_epic_ids(epics),
        0 <= n <= 6,
    ensures
        epic_board_total_upto(s.push(x), assign, epics, n) == epic_board_total_upto(s, assign, epics, n)
            + if x.item_type != "epic"@ && column_in_first(x.board_column, n) && (assign.contains_key(
            x.id,
        ) ==> epic_listed(epics, epics.len() as int, assign[x.id])) {
            1nat
        } else {
            0nat
        },
    decreases n,
{
    if n > 0 {
        lemma_epic_total_step(s, x, assign, epics, n - 1);
        lemma_epic_board_column_step(s, x, assign, epics, workflow_columns()[n - 1]);
        if column_in_first(x.board_column, n - 1) && workflow_columns()[n - 1] == x.board_column {
            lemma_column_in_first_witness(x.board_column, n - 1);
            lemma_workflow_columns_distinct();
        }
    }
}

/// Over epics with distinct identifiers, the epic board shows each item at
/// most once: its total is the number of items that are not epics, lie in a
/// workflow column, and belong to a listed epic or to none, and so never
/// exceeds the number of items.
pub proof fn law_epic_board_shows_each_item_once(
    items: Seq<WorkItemView>,
    assign: Map<Seq<char>, Seq<char>>,
    epics: Seq<WorkItemView>,
)
    requires
        distinct_epic_ids(epics),
    ensures
        epic_board_total(items, assign, epics) == epic_shown_count(items, assign, epics),
        epic_board_total(items, assign, epics) <= items.len(),
    decreases items.len(),
{
    lemma_epic_shown_count_le(items, assign, epics);
    if items.len() == 0 {
        lemma_epic_total_zero(items, assign, epics, 6);
    } else {
        let s = items.drop_last();
        let x = items.last();
        assert(s.push(x) =~= items);
        law_epic_board_shows_each_item_once(s, assign, epics);
        lemma_epic_total_step(s, x, assign, epics, 6);
        reveal_with_fuel(column_in_first, 7);
    }
}

proof fn lemma_epics_count_zero(
    items: Seq<WorkItemView>,
    assign: Map<Seq<char>, Seq<char>>,
    epics: Seq<WorkItemView>,
    n: int,
    column: Seq<char>,
)
    requires
        items.len() == 0,
    ensures
        epics_column_count(items, assign, epics, n, column) == 0,
    decreases n,
{
    if n > 0 {
        lemma_epics_count_zero(items, assign, epics, n - 1, column);
        let k = |v: WorkItemView| in_epic_column(v, assign, epics[n - 1].id, column);
        lemma_sort_len(summaries_of(select(items, k)));
        assert(epic_column(items, assign, epics[n - 1].id, column) == sort_by_position(
            summaries_of(select(items, k)),
        ));
    }
}

proof fn lemma_epic_total_zero(items: Seq<WorkItemView>, assign: Map<Seq<char>, Seq<char>>, epics: Seq<WorkItemView>, n: int)
    requires
        items.len() == 0,
    ensures
        epic_board_total_upto(items, assign, epics, n) == 0,
    decreases n,
{
    if n > 0 {
        lemma_epic_total_zero(items, assign, epics, n - 1);
        let col = workflow_columns()[n - 1];
        lemma_epics_count_zero(items, assign, epics, epics.len() as int, col);
        let k = |v: WorkItemView| unassigned_in_column(v, assign, col);
        lemma_sort_len(summaries_of(select(items, k)));
        assert(unassigned_column(items, assign, col) == sort_by_position(summaries_of(select(items, k))));
    }
}

proof fn lemma_select_has(items: Seq<WorkItemView>, keep: spec_fn(WorkItemView) -> bool, i: int)
    requires
        0 <= i < items.len(),
        keep(items[i]),
    ensures
        select(items, keep).contains(items[i]),
    decreases items.len(),
{
    if i == items.len() - 1 {
        let r = select(items, keep);
        assert(r[r.len() - 1] == items[i]);
    } else {
        assert(items.drop_last()[i] == items[i]);
        lemma_select_has(items.drop_last(), keep, i);
        let q = select(items.drop_last(), keep);
        let j = choose|j: int| 0 <= j < q.len() && q[j] == items[i];
        if keep(items.last()) {
            assert(select(items, keep)[j] == q[j]);
        }
    }
}

proof fn lemma_select_only(items: Seq<WorkItemView>, keep: spec_fn(WorkItemView) -> bool, v: WorkItemView)
    requires
        select(items, keep).contains(v),
    ensures
        keep(v),
        items.contains(v),
    decreases items.len(),
{
    if items.len() > 0 {
        let q = select(items.drop_last(), keep);
        let r = select(items, keep);
        let j = choose|j: int| 0 <= j < r.len() && r[j] == v;
        if keep(items.last()) && j == r.len() - 1 {
            assert(items[items.len() - 1] == v);
        } else {
            assert(q[j] == v);
            lemma_select_only(items.drop_last(), keep, v);
            let k = choose|k: int| 0 <= k < items.drop_last().len() && items.drop_last()[k] == v;
            assert(items[k] == v);
        }
    }
}

/// What a sorted column of the board holds: the summary of every item that
/// `keep` picks, and nothing else, ordered by position.
proof fn lemma_sorted_column(items: Seq<WorkItemView>, keep: spec_fn(WorkItemView) -> bool)
    ensures
        ordered_by_position(sort_by_position(summaries_of(select(items, keep)))),
        forall|i: int|
            0 <= i < items.len() && keep(#[trigger] items[i]) ==> sort_by_position(
                summaries_of(select(items, keep)),
            ).contains(summary_of(items[i])),
        forall|v: SummaryView|
            #[trigger] sort_by_position(summaries_of(select(items, keep))).contains(v) ==> exists|i: int|
                0 <= i < items.len() && keep(items[i]) && v == summary_of(items[i]),
{
    broadcast use vstd::seq_lib::to_multiset_contains;

    let q = select(items, keep);
    let m = summaries_of(q);
    law_sort_orders_and_keeps(m);
    let srt = sort_by_position(m);
    assert forall|i: int| 0 <= i < items.len() && keep(#[trigger] items[i]) implies srt.contains(
        summary_of(items[i]),
    ) by {
        lemma_select_has(items, keep, i);
        let j = choose|j: int| 0 <= j < q.len() && q[j] == items[i];
        assert(m[j] == summary_of(items[i]));
        assert(m.contains(summary_of(items[i])));
        assert(m.to_multiset().count(summary_of(items[i])) > 0);
        assert(srt.to_multiset().count(summary_of(items[i])) > 0);
    }
    assert forall|v: SummaryView| #[trigger] srt.contains(v) implies exists|i: int|
        0 <= i < items.len() && keep(items[i]) && v == summary_of(items[i]) by {
        assert(srt.to_multiset().count(v) > 0);
        assert(m.to_multiset().count(v) > 0);
        let j = choose|j: int| 0 <= j < m.len() && m[j] == v;
        assert(q.contains(q[j]));
        lemma_select_only(items, keep, q[j]);
        let i = choose|i: int| 0 <= i < items.len() && items[i] == q[j];
        assert(keep(items[i]) && v == summary_of(items[i]));
    }
}

/// Where the epic board puts an item: an item of a listed epic's swimlane
/// lies in that swimlane's column of its own board column, an item of no
/// epic lies in the unassigned column of its board column, each column
/// holds nothing but such items, and each column is ordered by position.
pub proof fn law_epic_board_placement(items: Seq<WorkItemView>, assign: Map<Seq<char>, Seq<char>>, epic_id: Seq<char>, column: Seq<char>)
    ensures
        ordered_by_position(epic_column(items, assign, epic_id, column)),
        ordered_by_position(unassigned_column(items, assign, column)),
        forall|i: int|
            0 <= i < items.len() && in_epic_column(#[trigger] items[i], assign, epic_id, column)
                ==> epic_column(items, assign, epic_id, column).contains(summary_of(items[i])),
        forall|i: int|
            0 <= i < items.len() && unassigned_in_column(#[trigger] items[i], assign, column)
                ==> unassigned_column(items, assign, column).contains(summary_of(items[i])),
        forall|v: SummaryView|
            #[trigger] epic_column(items, assign, epic_id, column).contains(v) ==> exists|i: int|
                0 <= i < items.len() && in_epic_column(items[i], assign, epic_id, column) && v
                    == summary_of(items[i]),
        forall|v: SummaryView|
            #[trigger] unassigned_column(items, assign, column).contains(v) ==> exists|i: int|
                0 <= i < items.len() && unassigned_in_column(items[i], assign, column) && v
                    == summary_of(items[i]),
{
    let ke = |v: WorkItemView| in_epic_column(v, assign, epic_id, column);
    let ku = |v: WorkItemView| unassigned_in_column(v, assign, column);
    lemma_sorted_column(items, ke);
    lemma_sorted_column(items, ku);
    assert(epic_column(items, assign, epic_id, column) == sort_by_position(summaries_of(select(items, ke))));
    assert(unassigned_column(items, assign, column) == sort_by_position(summaries_of(select(items, ku))));
}

} // verus!
