use todo_list::{add_todo, TodoItem, DEFAULT_CONTENT};

#[test]
fn append_without_content_uses_default() {
    let mut list = vec![TodoItem::new("a", "b")];
    add_todo(Some("title only".to_string()), None, &mut list);
    assert_eq!(list.len(), 2);
    assert_eq!(list[1].title, "title only");
    assert_eq!(list[1].content, "default todo content");
    assert_eq!(DEFAULT_CONTENT, "default todo content");
    assert!(!list[1].done);
    assert_eq!(list[0], TodoItem::new("a", "b"));
}

#[test]
fn append_with_content_goes_last() {
    let mut list = vec![TodoItem::new("a", "b")];
    add_todo(Some("t".to_string()), Some("c".to_string()), &mut list);
    assert_eq!(list, vec![TodoItem::new("a", "b"), TodoItem::new("t", "c")]);
}

#[test]
fn append_without_title_changes_nothing() {
    let mut list = vec![TodoItem::new("a", "b")];
    add_todo(None, Some("c".to_string()), &mut list);
    assert_eq!(list, vec![TodoItem::new("a", "b")]);
}
