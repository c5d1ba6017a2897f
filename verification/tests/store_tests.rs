use item_service::errors::AppError;
use item_service::item::{CreateItemPayload, UpdateItemPayload};
use item_service::store::ItemStore;

fn payload(name: &str, description: Option<&str>) -> CreateItemPayload {
    CreateItemPayload { name: name.to_string(), description: description.map(|s| s.to_string()) }
}

#[test]
fn create_with_empty_name_fails_and_writes_nothing() {
    let mut store = ItemStore::new();
    let r = store.create_item(&payload("", Some("desc")));
    match r {
        Err(AppError::InvalidInput(m)) => assert_eq!(m, "Item name cannot be empty"),
        _ => panic!("expected InvalidInput"),
    }
    assert!(store.list_items().is_empty());
}

#[test]
fn create_returns_equal_timestamps_and_fresh_id() {
    let mut store = ItemStore::new();
    let a = store.create_item(&payload("first", None)).unwrap();
    let b = store.create_item(&payload("second", None)).unwrap();
    assert_eq!(a.created_at, a.updated_at);
    assert_eq!(b.created_at, b.updated_at);
    assert_ne!(a.id, b.id);
    assert_eq!(a.name, "first");
    assert_eq!(a.description, None);
}

#[test]
fn list_returns_newest_first() {
    let mut store = ItemStore::new();
    let a = store.create_item(&payload("a", None)).unwrap();
    let b = store.create_item(&payload("b", None)).unwrap();
    let listed = store.list_items();
    assert_eq!(listed.len(), 2);
    assert_eq!(listed[0].id, b.id);
    assert_eq!(listed[0].name, "b");
    assert_eq!(listed[1].id, a.id);
    assert_eq!(listed[1].name, "a");
    assert!(listed[0].created_at > listed[1].created_at);
}

#[test]
fn list_is_empty_when_nothing_was_created() {
    let store = ItemStore::new();
    assert!(store.list_items().is_empty());
}

#[test]
fn get_missing_fails_with_not_found() {
    let store = ItemStore::new();
    match store.get_item(7) {
        Err(AppError::NotFound(id)) => assert_eq!(id, 7),
        _ => panic!("expected NotFound"),
    }
}

#[test]
fn update_missing_fails_and_writes_nothing() {
    let mut store = ItemStore::new();
    let created = store.create_item(&payload("keep", None)).unwrap();
    let missing = created.id + 1;
    let up = UpdateItemPayload { name: Some("x".to_string()), description: None };
    match store.update_item(missing, &up) {
        Err(AppError::NotFound(id)) => assert_eq!(id, missing),
        _ => panic!("expected NotFound"),
    }
    let listed = store.list_items();
    assert_eq!(listed.len(), 1);
    assert_eq!(listed[0].name, "keep");
    assert_eq!(listed[0].updated_at, created.updated_at);
}

#[test]
fn update_description_only_keeps_name_and_advances_updated_at() {
    let mut store = ItemStore::new();
    let created = store.create_item(&payload("stable", Some("old"))).unwrap();
    let up = UpdateItemPayload { name: None, description: Some("new".to_string()) };
    let merged = store.update_item(created.id, &up).unwrap();
    assert_eq!(merged.id, created.id);
    assert_eq!(merged.name, "stable");
    assert_eq!(merged.description, Some("new".to_string()));
    assert_eq!(merged.created_at, created.created_at);
    assert!(merged.updated_at > created.updated_at);
    let fetched = store.get_item(created.id).unwrap();
    assert_eq!(fetched.name, "stable");
    assert_eq!(fetched.description, Some("new".to_string()));
}

#[test]
fn update_name_only_keeps_description() {
    let mut store = ItemStore::new();
    let created = store.create_item(&payload("before", Some("kept"))).unwrap();
    let up = UpdateItemPayload { name: Some("after".to_string()), description: None };
    let merged = store.update_item(created.id, &up).unwrap();
    assert_eq!(merged.name, "after");
    assert_eq!(merged.description, Some("kept".to_string()));
}

#[test]
fn update_with_empty_name_is_rejected_and_writes_nothing() {
    let mut store = ItemStore::new();
    let created = store.create_item(&payload("valid", None)).unwrap();
    let up = UpdateItemPayload { name: Some(String::new()), description: Some("d".to_string()) };
    match store.update_item(created.id, &up) {
        Err(AppError::InvalidInput(m)) => assert_eq!(m, "Item name cannot be empty"),
        _ => panic!("expected InvalidInput"),
    }
    let fetched = store.get_item(created.id).unwrap();
    assert_eq!(fetched.name, "valid");
    assert_eq!(fetched.description, None);
    assert_eq!(fetched.updated_at, created.updated_at);
}

#[test]
fn delete_removes_then_get_and_second_delete_fail() {
    let mut store = ItemStore::new();
    let created = store.create_item(&payload("gone", None)).unwrap();
    assert!(store.delete_item(created.id).is_ok());
    match store.get_item(created.id) {
        Err(AppError::NotFound(id)) => assert_eq!(id, created.id),
        _ => panic!("expected NotFound after delete"),
    }
    match store.delete_item(created.id) {
        Err(AppError::NotFound(id)) => assert_eq!(id, created.id),
        _ => panic!("expected NotFound on second delete"),
    }
    assert!(store.list_items().is_empty());
}

#[test]
fn delete_missing_fails_with_not_found() {
    let mut store = ItemStore::new();
    match store.delete_item(99) {
        Err(AppError::NotFound(id)) => assert_eq!(id, 99),
        _ => panic!("expected NotFound"),
    }
}
