//! Decisions shared by the work item and issue services: how a caller names
//! an item, which event a change raises, and whether a listing has more
//! pages.
use vstd::prelude::*;

use crate::text::{digits_value, own, parse_u32, parses_as_u32, text_eq, unsigned_digits};

verus! {

broadcast use vstd::string::group_string_axioms;

/// How a caller names an item: by its number within the project or by its
/// identifier.
#[derive(Clone, Debug)]
pub enum ItemRef {
    Number(u32),
    Id(String),
}

/// The item named by a text: a number when the text reads as a `u32`, the
/// identifier otherwise.
pub open spec fn item_ref_names(r: ItemRef, s: Seq<char>) -> bool {
    if parses_as_u32(s) {
        r is Number && r->Number_0 as nat == digits_value(unsigned_digits(s))
    } else {
        r is Id && r->Id_0@ == s
    }
}

/// Read an item reference: the text names an item by number when it parses
/// as a `u32`, and by identifier otherwise.
pub fn parse_item_ref(s: &str) -> (r: ItemRef)
    ensures
        item_ref_names(r, s@),
{
    match parse_u32(s) {
        Some(n) => ItemRef::Number(n),
        None => ItemRef::Id(own(s)),
    }
}

/// The event that a change of an item raises.
#[derive(Clone, Copy, Debug, PartialEq, Eq, Structural)]
pub enum ChangeEvent {
    Closed,
    Reopened,
    Updated,
}

/// The event raised when an item goes from `old_state` to `new_state`: an
/// item counts as open unless its state is `"closed"`; going from open to
/// closed closes it, staying other than closed after having been closed
/// reopens it, and anything else is an update.
pub open spec fn change_event_spec(old_state: Seq<char>, new_state: Seq<char>) -> ChangeEvent {
    let was_open = old_state != "closed"@;
    let is_now_closed = new_state == "closed"@;
    if was_open && is_now_closed {
        ChangeEvent::Closed
    } else if !was_open && !is_now_closed {
        ChangeEvent::Reopened
    } else {
        ChangeEvent::Updated
    }
}

/// The event raised when an item goes from `old_state` to `new_state`.
pub fn change_event(old_state: &str, new_state: &str) -> (r: ChangeEvent)
    ensures
        r == change_event_spec(old_state@, new_state@),
{
    let was_open = !text_eq(old_state, "closed");
    let is_now_closed = text_eq(new_state, "closed");
    if was_open && is_now_closed {
        ChangeEvent::Closed
    } else if !was_open && !is_now_closed {
        ChangeEvent::Reopened
    } else {
        ChangeEvent::Updated
    }
}

/// A change that leaves the state as it was raises a plain update, never a
/// close or a reopen.
pub proof fn law_unchanged_state_is_update(state: Seq<char>)
    ensures
        change_event_spec(state, state) == ChangeEvent::Updated,
{
}

/// Which event a state change raises: closing an open item (anything but
/// `"closed"` going to `"closed"`) closes it, a closed item going to any
/// other state reopens it, and every other change, including one that
/// leaves the state alone, is a plain update.
pub proof fn law_change_events(old_state: Seq<char>, new_state: Seq<char>)
    ensures
        (change_event_spec(old_state, new_state) == ChangeEvent::Closed) <==> (old_state != "closed"@
            && new_state == "closed"@),
        (change_event_spec(old_state, new_state) == ChangeEvent::Reopened) <==> (old_state == "closed"@
            && new_state != "closed"@),
        (change_event_spec(old_state, new_state) == ChangeEvent::Updated) <==> (old_state == "closed"@)
            == (new_state == "closed"@),
{
}

/// A listing is said to have more items when it came back full.
pub fn list_has_more(returned: usize, limit: usize) -> (r: bool)
    ensures
        r == (returned >= limit),
{
    returned >= limit
}

/// The page of a list that starts at `offset` and holds at most `limit`
/// items (empty when the offset lies past the end).
pub open spec fn page_of<T>(s: Seq<T>, offset: int, limit: int) -> Seq<T> {
    let start = if offset < s.len() {
        offset
    } else {
        s.len() as int
    };
    let end = if start + limit < s.len() {
        start + limit
    } else {
        s.len() as int
    };
    s.subrange(start, end)
}

/// A page of a full listing: the items from `offset` on, at most `limit` of
/// them, with the number of items in the full listing and whether items
/// remain after the page.
pub fn paginate<T>(items: Vec<T>, offset: usize, limit: usize) -> (r: (Vec<T>, usize, bool))
    requires
        offset + limit <= usize::MAX,
    ensures
        r.0@ == page_of(items@, offset as int, limit as int),
        r.1 == items@.len(),
        r.2 == (items@.len() > offset + limit),
{
    let total: usize = items.len();
    let mut all = items;
    let start = if offset < total {
        offset
    } else {
        total
    };
    let mut page = all.split_off(start);
    page.truncate(limit);
    (page, total, total > offset + limit)
}

/// A page holds the items from `offset` on, in order, as many as the limit
/// allows and the list still has.
pub proof fn law_page_contents<T>(s: Seq<T>, offset: int, limit: int)
    requires
        0 <= offset,
        0 <= limit,
    ensures
        page_of(s, offset, limit).len() == if offset >= s.len() {
            0
        } else if offset + limit <= s.len() {
            limit
        } else {
            s.len() - offset
        },
        forall|i: int| 0 <= i < page_of(s, offset, limit).len() ==> #[trigger] page_of(s, offset, limit)[i] == s[offset + i],
{
}

/// A page never holds more items than its limit, and two consecutive pages
/// together are the page that spans both.
pub proof fn law_consecutive_pages<T>(s: Seq<T>, offset: int, a: int, b: int)
    requires
        0 <= offset,
        0 <= a,
        0 <= b,
    ensures
        page_of(s, offset, a).len() <= a,
        page_of(s, offset, a) + page_of(s, offset + a, b) == page_of(s, offset, a + b),
{
    assert(page_of(s, offset, a) + page_of(s, offset + a, b) =~= page_of(s, offset, a + b));
}

} // verus!
