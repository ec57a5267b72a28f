use vstd::prelude::*;

verus! {

/// A subcommand of the command-line front end, holding the values it was given.
#[derive(Debug, Clone)]
pub enum TodoCommand {
    /// Create a new todo item.
    Create { title: Option<String>, content: Option<String> },
    /// List the todo items, optionally those whose title holds a given text.
    List { title: Option<String>, content: Option<String> },
}

/// One task: a title, which is what filtering matches against, a free-form
/// description, and a completion flag.
#[derive(Debug, Clone, PartialEq, Eq)]
pub struct TodoItem {
    pub title: String,
    pub content: String,
    pub done: bool,
}

/// The mathematical value of a `TodoItem`.
pub struct TodoEntry {
    pub title: Seq<char>,
    pub content: Seq<char>,
    pub done: bool,
}

impl View for TodoItem {
    type V = TodoEntry;

    open spec fn view(&self) -> TodoEntry {
        TodoEntry { title: self.title@, content: self.content@, done: self.done }
    }
}

/// A freshly created entry: not yet done.
pub open spec fn entry(title: Seq<char>, content: Seq<char>) -> TodoEntry {
    TodoEntry { title, content, done: false }
}

/// The values of a sequence of items, in order.
pub open spec fn entries(items: Seq<TodoItem>) -> Seq<TodoEntry> {
    items.map_values(|i: TodoItem| i@)
}

/// Builds a new item that is not done.
pub fn create_todo_item(title: &str, content: &str) -> (r: TodoItem)
    ensures
        r@ == entry(title@, content@),
{
    TodoItem { title: title.to_owned(), content: content.to_owned(), done: false }
}

impl TodoItem {
    /// Builds a new item that is not done.
    pub fn new(title: &str, content: &str) -> (r: TodoItem)
        ensures
            r@ == entry(title@, content@),
    {
        create_todo_item(title, content)
    }

    /// A copy of this item with the same title, content and flag.
    pub fn duplicate(&self) -> (r: TodoItem)
        ensures
            r@ == self@,
    {
        TodoItem { title: self.title.clone(), content: self.content.clone(), done: self.done }
    }
}

} // verus!
