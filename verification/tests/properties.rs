use global_store::{GlobalHeap, GlobalStore};

#[test]
fn test_keyed_lifecycle_scenario() {
    let mut store = GlobalStore::new();
    store.init_global_var("x", 42_u64);
    assert_eq!(store.fetch_global_var("x"), Ok(&42_u64));
    if let Ok(val) = store.fetch_global_var_mut("x") {
        *val += 1;
    }
    assert_eq!(store.fetch_global_var("x"), Ok(&43_u64));
    store.drop_global_var("x");
    assert_eq!(
        store.fetch_global_var("x"),
        Err("Failed to find key".to_string())
    );
}

#[test]
fn test_fetch_missing_key() {
    let store = GlobalStore::<u64>::new();
    assert_eq!(
        store.fetch_global_var("absent"),
        Err("Failed to find key".to_string())
    );
}

#[test]
fn test_fetch_mut_missing_key() {
    let mut store = GlobalStore::<u64>::new();
    assert_eq!(
        store.fetch_global_var_mut("absent"),
        Err("Failed to find key".to_string())
    );
}

#[test]
fn test_overwrite_last_insert_wins() {
    let mut store = GlobalStore::new();
    store.init_global_var("k", 1_u64);
    store.init_global_var("k", 2_u64);
    assert_eq!(store.fetch_global_var("k"), Ok(&2_u64));
    store.drop_global_var("k");
}

#[test]
fn test_drop_absent_key_is_noop() {
    let mut store = GlobalStore::new();
    store.init_global_var("kept", 9_u64);
    store.drop_global_var("missing");
    assert_eq!(store.fetch_global_var("kept"), Ok(&9_u64));
}

#[test]
fn test_keys_are_independent() {
    let mut store = GlobalStore::new();
    store.init_global_var("a", 10_u64);
    store.init_global_var("b", 20_u64);
    store.drop_global_var("a");
    assert_eq!(
        store.fetch_global_var("a"),
        Err("Failed to find key".to_string())
    );
    assert_eq!(store.fetch_global_var("b"), Ok(&20_u64));
    store.drop_global_var("b");
}

#[test]
fn test_handles_are_independent() {
    let mut heap = GlobalHeap::new();
    let p = heap.def_global_ptr(1_u64);
    let q = heap.def_global_ptr(2_u64);
    assert_ne!(p, q);
    *heap.get_global_mut(p) = 100;
    assert_eq!(*heap.get_global(p), 100);
    assert_eq!(*heap.get_global(q), 2);
    heap.undef_global_ptr(p);
    assert_eq!(*heap.get_global(q), 2);
    heap.undef_global_ptr(q);
}
