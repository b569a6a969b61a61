use global_store::GlobalStore;

struct Foo {
    id: u64,
    name: String,
}

#[test]
fn lib_test_global_var_u64() {
    let mut store = GlobalStore::new();
    store.init_global_var("test1", 42_u64);
    let result = store.fetch_global_var("test1");
    assert_eq!(result, Ok(&42_u64));
    store.drop_global_var("test1");
}

#[test]
fn lib_test_global_var_u64_mut() {
    let mut store = GlobalStore::new();
    store.init_global_var("test2", 42_u64);
    if let Ok(val) = store.fetch_global_var_mut("test2") {
        *val += 1;
    }
    let result = store.fetch_global_var("test2");
    assert_eq!(result, Ok(&43_u64));
    store.drop_global_var("test2");
}

#[test]
fn lib_test_global_var_struct() {
    let mut store = GlobalStore::new();
    store.init_global_var(
        "test3",
        Foo {
            id: 1,
            name: "bar".to_string(),
        },
    );
    if let Ok(foo) = store.fetch_global_var("test3") {
        assert_eq!(foo.id, 1);
        assert_eq!(foo.name, "bar");
    }
    store.drop_global_var("test3");
}

#[test]
fn lib_test_global_var_struct_mut() {
    let mut store = GlobalStore::new();
    store.init_global_var(
        "test4",
        Foo {
            id: 1,
            name: "bar".to_string(),
        },
    );
    if let Ok(foo) = store.fetch_global_var_mut("test4") {
        foo.id += 1;
        foo.name += "1";
    }
    if let Ok(foo) = store.fetch_global_var("test4") {
        assert_eq!(foo.id, 2);
        assert_eq!(foo.name, "bar1");
    }
    store.drop_global_var("test4");
}
