use vstd::prelude::*;
use crate::item::{create_todo_item, entries, entry, TodoItem};

verus! {

/// The content given to a new item when none is supplied.
pub const DEFAULT_CONTENT: &'static str = "default todo content";

/// The content a new item gets: the one supplied, else the default text.
pub open spec fn content_or_default(content: Option<String>) -> Seq<char> {
    match content {
        Some(c) => c@,
        None => DEFAULT_CONTENT@,
    }
}

/// Appends a new, not yet done item at the end of the list. Without a title
/// the list is left as it is.
pub fn add_todo(title: Option<String>, content: Option<String>, todo_list: &mut Vec<TodoItem>)
    ensures
        title is None ==> final(todo_list)@ == old(todo_list)@,
        title is Some ==> entries(final(todo_list)@) == entries(old(todo_list)@).push(
            entry(title->Some_0@, content_or_default(content)),
        ),
{
    if let Some(title) = title {
        let item = match content {
            Some(c) => create_todo_item(title.as_str(), c.as_str()),
            None => create_todo_item(title.as_str(), DEFAULT_CONTENT),
        };
        todo_list.push(item);
        assert(entries(final(todo_list)@) =~= entries(old(todo_list)@).push(
            entry(title@, content_or_default(content)),
        ));
    }
}

} // verus!
