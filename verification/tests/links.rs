use editor_core::editor_window::{
    ComponentStore, DefaultLink, EditorWindowContext, Link, Resolution,
};

fn ctx(entity: u64) -> EditorWindowContext {
    EditorWindowContext { entity }
}

#[test]
fn own_component_wins_over_everything() {
    let mut store: ComponentStore<&'static str> = ComponentStore::new();
    store.insert_component(1, "own");
    store.insert_component(2, "linked");
    store.insert_link(1, Link { target: 2 });
    store.set_default_link(Some(DefaultLink::Data("default")));
    assert_eq!(ctx(1).resolve(&store), Resolution::Own);
    assert_eq!(ctx(1).get(&store), Some(&"own"));
}

#[test]
fn link_wins_when_no_own_component() {
    let mut store: ComponentStore<&'static str> = ComponentStore::new();
    store.insert_component(2, "linked");
    store.insert_link(1, Link { target: 2 });
    store.set_default_link(Some(DefaultLink::Data("default")));
    assert_eq!(ctx(1).resolve(&store), Resolution::Linked(2));
    assert_eq!(ctx(1).get(&store), Some(&"linked"));
}

#[test]
fn dangling_link_falls_through_to_default() {
    let mut store: ComponentStore<&'static str> = ComponentStore::new();
    store.insert_link(1, Link { target: 9 });
    store.set_default_link(Some(DefaultLink::Data("default")));
    assert_eq!(ctx(1).resolve(&store), Resolution::DefaultData);
    assert_eq!(ctx(1).get(&store), Some(&"default"));
}

#[test]
fn default_link_reaches_another_entity() {
    let mut store: ComponentStore<&'static str> = ComponentStore::new();
    store.insert_component(5, "shared");
    store.set_default_link(Some(DefaultLink::Link(5)));
    assert_eq!(ctx(1).resolve(&store), Resolution::DefaultLinked(5));
    assert_eq!(ctx(1).get(&store), Some(&"shared"));
}

#[test]
fn dangling_default_link_resolves_to_nothing() {
    let mut store: ComponentStore<&'static str> = ComponentStore::new();
    store.set_default_link(Some(DefaultLink::Link(5)));
    assert_eq!(ctx(1).resolve(&store), Resolution::Unresolved);
    assert_eq!(ctx(1).get(&store), None);
}

#[test]
fn empty_store_resolves_to_nothing() {
    let store: ComponentStore<&'static str> = ComponentStore::new();
    assert_eq!(ctx(1).resolve(&store), Resolution::Unresolved);
    assert_eq!(ctx(1).get(&store), None);
    let mut store = store;
    let r = ctx(1).get_mut(&mut store);
    assert!(r.is_none());
}

#[test]
fn get_mut_writes_into_the_own_component() {
    let mut store: ComponentStore<u32> = ComponentStore::new();
    store.insert_component(1, 10);
    {
        let v = ctx(1).get_mut(&mut store).unwrap();
        assert_eq!(*v, 10);
        *v = 99;
    }
    assert_eq!(ctx(1).get(&store), Some(&99));
}

#[test]
fn get_mut_writes_through_a_link() {
    let mut store: ComponentStore<u32> = ComponentStore::new();
    store.insert_component(2, 10);
    store.insert_link(1, Link { target: 2 });
    {
        let v = ctx(1).get_mut(&mut store).unwrap();
        *v = 77;
    }
    assert_eq!(ctx(2).get(&store), Some(&77));
    assert_eq!(ctx(1).get(&store), Some(&77));
}

#[test]
fn get_mut_writes_into_the_default_data() {
    let mut store: ComponentStore<u32> = ComponentStore::new();
    store.set_default_link(Some(DefaultLink::Data(3)));
    {
        let v = ctx(1).get_mut(&mut store).unwrap();
        assert_eq!(*v, 3);
        *v = 4;
    }
    match store.default_link {
        Some(DefaultLink::Data(v)) => assert_eq!(v, 4),
        _ => panic!("default link should still hold data"),
    }
    assert_eq!(ctx(8).get(&store), Some(&4));
}

#[test]
fn get_mut_writes_through_the_default_link() {
    let mut store: ComponentStore<u32> = ComponentStore::new();
    store.insert_component(5, 1);
    store.set_default_link(Some(DefaultLink::Link(5)));
    {
        let v = ctx(1).get_mut(&mut store).unwrap();
        *v = 2;
    }
    assert_eq!(ctx(5).get(&store), Some(&2));
}
