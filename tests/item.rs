use todo_list::{create_todo_item, TodoItem};

#[test]
fn test_todo_item_creation() {
    let item = TodoItem::new("test", "content");
    assert_eq!(item.title, "test");
    assert_eq!(item.content, "content");
}

#[test]
fn new_item_is_not_done() {
    let item = create_todo_item("a", "b");
    assert!(!item.done);
    assert_eq!(item, TodoItem::new("a", "b"));
}

#[test]
fn duplicate_keeps_every_field() {
    let mut item = TodoItem::new("x", "y");
    item.done = true;
    let copy = item.duplicate();
    assert_eq!(copy.title, "x");
    assert_eq!(copy.content, "y");
    assert!(copy.done);
}
