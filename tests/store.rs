use todo_list::{seed_items, with_seed_fallback, TodoItem};

fn titles_and_contents(items: &[TodoItem]) -> Vec<(String, String, bool)> {
    items.iter().map(|i| (i.title.clone(), i.content.clone(), i.done)).collect()
}

fn expected_seeds() -> Vec<(String, String, bool)> {
    vec![
        ("learn rust".to_string(), "read rust book".to_string(), false),
        ("work".to_string(), "complete required".to_string(), false),
        ("play".to_string(), "play game".to_string(), false),
    ]
}

#[test]
fn seeds_are_learn_work_play() {
    assert_eq!(titles_and_contents(&seed_items()), expected_seeds());
}

#[test]
fn unreadable_store_loads_seeds() {
    let loaded = with_seed_fallback(None);
    assert_eq!(titles_and_contents(&loaded), expected_seeds());
}

#[test]
fn malformed_store_loads_seeds() {
    let parsed: Option<Vec<TodoItem>> =
        serde_json::from_str::<serde_json::Value>("not json").ok().map(|_| Vec::new());
    assert!(parsed.is_none());
    let loaded = with_seed_fallback(parsed);
    assert_eq!(titles_and_contents(&loaded), expected_seeds());
}

#[test]
fn empty_store_loads_seeds() {
    let loaded = with_seed_fallback(Some(Vec::new()));
    assert_eq!(titles_and_contents(&loaded), expected_seeds());
}

#[test]
fn stored_list_loads_unchanged() {
    let mut done = TodoItem::new("b", "second");
    done.done = true;
    let stored = vec![TodoItem::new("a", "first"), done.clone(), TodoItem::new("a", "third")];
    let loaded = with_seed_fallback(Some(stored.clone()));
    assert_eq!(loaded, stored);
}
