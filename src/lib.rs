//! A small todo-list library: the item model, the load policy that seeds a
//! fresh list when nothing usable was stored, a case-sensitive title filter,
//! and appending new items.

mod item;
mod add;
mod query;
mod store;

pub use item::{create_todo_item, entries, entry, TodoCommand, TodoEntry, TodoItem};
pub use add::{add_todo, content_or_default, DEFAULT_CONTENT};
pub use query::{
    contains_at, find_todo, is_substring, lemma_empty_needle_everywhere, lemma_empty_needle_keeps_all,
    lemma_no_needle_keeps_all, matching, needle_of, status_mark, title_contains,
};
pub use store::{
    lemma_empty_store_seeds, lemma_loaded_nonempty, lemma_store_load_round_trip, loaded,
    parsed_entries, seed_entries, seed_items, with_seed_fallback,
};
