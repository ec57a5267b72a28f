use vstd::prelude::*;
use crate::item::{entries, entry, TodoEntry, TodoItem};

verus! {

/// The three items a list starts with when nothing usable was stored:
/// learn, work, play, in that order.
pub open spec fn seed_entries() -> Seq<TodoEntry> {
    seq![
        entry("learn rust"@, "read rust book"@),
        entry("work"@, "complete required"@),
        entry("play"@, "play game"@),
    ]
}

/// The values of what was read back from storage: `None` when the file could
/// not be read or did not hold a list of items.
pub open spec fn parsed_entries(parsed: Option<Vec<TodoItem>>) -> Option<Seq<TodoEntry>> {
    match parsed {
        Some(v) => Some(entries(v@)),
        None => None,
    }
}

/// The list that loading yields: what was stored, unless that is missing or
/// empty, in which case the seed items. An empty stored list is seeded again.
pub open spec fn loaded(parsed: Option<Seq<TodoEntry>>) -> Seq<TodoEntry> {
    match parsed {
        Some(items) => if items.len() > 0 {
            items
        } else {
            seed_entries()
        },
        None => seed_entries(),
    }
}

/// A fresh copy of the seed items.
pub fn seed_items() -> (r: Vec<TodoItem>)
    ensures
        entries(r@) == seed_entries(),
{
    let mut r: Vec<TodoItem> = Vec::new();
    r.push(TodoItem::new("learn rust", "read rust book"));
    r.push(TodoItem::new("work", "complete required"));
    r.push(TodoItem::new("play", "play game"));
    assert(entries(r@) =~= seed_entries());
    r
}

/// Applies the load policy to what was read back from storage: a failed read or
/// parse, and an empty list alike, give the seed items.
pub fn with_seed_fallback(parsed: Option<Vec<TodoItem>>) -> (r: Vec<TodoItem>)
    ensures
        entries(r@) == loaded(parsed_entries(parsed)),
{
    match parsed {
        Some(items) => {
            if items.len() > 0 {
                items
            } else {
                seed_items()
            }
        },
        None => seed_items(),
    }
}

/// Storing a non-empty list and loading it back yields the same items, in the
/// same order, with the same fields.
pub proof fn lemma_store_load_round_trip(items: Seq<TodoEntry>)
    requires
        items.len() > 0,
    ensures
        loaded(Some(items)) == items,
{
}

/// A missing or unreadable store, and a stored empty list, both load as the seed
/// items: seeding depends on emptiness, not on absence.
pub proof fn lemma_empty_store_seeds()
    ensures
        loaded(None) == seed_entries(),
        loaded(Some(Seq::<TodoEntry>::empty())) == seed_entries(),
{
}

/// Loading never yields an empty list.
pub proof fn lemma_loaded_nonempty(parsed: Option<Seq<TodoEntry>>)
    ensures
        loaded(parsed).len() > 0,
{
}

} // verus!
