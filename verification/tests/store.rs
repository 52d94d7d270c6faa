use axum_api::models::Todo;
use axum_api::store::Store;

fn filled(n: u128) -> Store {
    let mut store = Store::new();
    for id in 1..=n {
        store.insert(id, format!("todo {}", id));
    }
    store
}

#[test]
fn new_store_is_empty() {
    let store = Store::new();
    assert_eq!(store.len(), 0);
    assert_eq!(store.list(0, None), Vec::<Todo>::new());
}

#[test]
fn create_returns_the_stored_record() {
    let mut store = Store::new();
    let created = store.create(String::from("buy milk"));
    assert_eq!(created.text, "buy milk");
    assert!(!created.completed);
    assert_eq!(store.get(created.id), Some(created));
}

#[test]
fn creates_add_one_record_each_with_distinct_ids() {
    let mut store = Store::new();
    let mut ids = Vec::new();
    for i in 0..200 {
        ids.push(store.create(format!("todo {}", i)).id);
    }
    assert_eq!(store.len(), 200);
    let mut sorted = ids.clone();
    sorted.sort();
    sorted.dedup();
    assert_eq!(sorted.len(), 200);
    let listed: Vec<u128> = store.list(0, None).into_iter().map(|t| t.id).collect();
    assert_eq!(listed, ids);
}

#[test]
fn created_identifiers_are_random_uuids() {
    let mut store = Store::new();
    for _ in 0..20 {
        let id = store.create(String::from("x")).id;
        let uuid = uuid::Uuid::from_u128(id);
        assert_eq!(uuid.get_version_num(), 4);
        assert_eq!(uuid.get_variant(), uuid::Variant::RFC4122);
    }
}

#[test]
fn get_of_unknown_identifier_is_absent() {
    let store = filled(5);
    assert_eq!(store.get(6), None);
    assert_eq!(store.get(0), None);
    assert_eq!(Store::new().get(1), None);
}

#[test]
fn get_finds_each_record() {
    let store = filled(5);
    for id in 1..=5u128 {
        assert_eq!(
            store.get(id),
            Some(Todo { id, text: format!("todo {}", id), completed: false })
        );
    }
}

#[test]
fn insert_under_a_held_identifier_replaces_the_record() {
    let mut store = filled(3);
    let record = store.insert(2, String::from("again"));
    assert_eq!(record, Todo { id: 2, text: String::from("again"), completed: false });
    assert_eq!(store.len(), 3);
    assert_eq!(store.get(2), Some(record));
    let ids: Vec<u128> = store.list(0, None).into_iter().map(|t| t.id).collect();
    assert_eq!(ids, vec![1, 2, 3]);
}

#[test]
fn list_is_the_window_of_the_full_listing() {
    let store = filled(10);
    let all = store.list(0, None);
    assert_eq!(all.len(), 10);
    for offset in 0..13usize {
        for limit in 0..13usize {
            let got = store.list(offset, Some(limit));
            assert!(got.len() <= limit);
            let start = offset.min(10);
            let end = (start + limit).min(10);
            assert_eq!(got, all[start..end].to_vec());
        }
        let start = offset.min(10);
        assert_eq!(store.list(offset, None), all[start..].to_vec());
    }
}

#[test]
fn list_exact_windows() {
    let store = filled(10);
    let ids = |v: Vec<Todo>| v.into_iter().map(|t| t.id).collect::<Vec<u128>>();
    assert_eq!(ids(store.list(3, Some(4))), vec![4, 5, 6, 7]);
    assert_eq!(ids(store.list(8, Some(5))), vec![9, 10]);
    assert_eq!(ids(store.list(10, Some(5))), Vec::<u128>::new());
    assert_eq!(ids(store.list(20, Some(5))), Vec::<u128>::new());
    assert_eq!(ids(store.list(0, Some(0))), Vec::<u128>::new());
    assert_eq!(ids(store.list(9, None)), vec![10]);
    assert_eq!(ids(store.list(usize::MAX, Some(usize::MAX))), Vec::<u128>::new());
    assert_eq!(ids(store.list(2, Some(usize::MAX))), vec![3, 4, 5, 6, 7, 8, 9, 10]);
}

#[test]
fn returned_records_are_copies() {
    let mut store = Store::new();
    let mut created = store.create(String::from("first"));
    let id = created.id;
    created.text.push_str(" changed");
    created.completed = true;
    assert_eq!(
        store.get(id),
        Some(Todo { id, text: String::from("first"), completed: false })
    );
}
