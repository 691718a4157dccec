use editor_core::editor::Editor;
use editor_core::entity_map::{contains_id, EntityMap};
use editor_core::tabs::EditorTabs;

fn sorted_tabs(tabs: &EditorTabs) -> Vec<u64> {
    let mut v = tabs.tab_entities();
    v.sort();
    v
}

#[test]
fn default_dock_has_no_tabs() {
    let tabs = EditorTabs::default();
    assert!(tabs.tab_entities().is_empty());
}

#[test]
fn sync_gives_every_live_window_a_tab() {
    let mut tabs = EditorTabs::default();
    tabs.sync(&vec![1, 2, 3]);
    assert_eq!(sorted_tabs(&tabs), vec![1, 2, 3]);
}

#[test]
fn sync_drops_dead_windows_and_adds_new_ones() {
    let mut tabs = EditorTabs::default();
    tabs.sync(&vec![1, 2, 3]);
    tabs.sync(&vec![2, 3, 4]);
    assert_eq!(sorted_tabs(&tabs), vec![2, 3, 4]);
}

#[test]
fn sync_leaves_an_unchanged_set_alone() {
    let mut tabs = EditorTabs::default();
    tabs.sync(&vec![5, 6]);
    let before = sorted_tabs(&tabs);
    tabs.sync(&vec![5, 6]);
    assert_eq!(sorted_tabs(&tabs), before);
}

#[test]
fn sync_with_nothing_live_empties_the_dock() {
    let mut tabs = EditorTabs::default();
    tabs.sync(&vec![1]);
    tabs.sync(&vec![]);
    assert!(tabs.tab_entities().is_empty());
}

#[test]
fn sync_windows_reconciles_cache_and_tabs_together() {
    let mut e: Editor<&'static str> = Editor::new(1, false);
    let mut tabs = EditorTabs::default();
    e.cache_store(10, "a");
    e.cache_store(11, "b");
    tabs.sync(&vec![10, 11]);
    e.sync_windows(&mut tabs, &vec![11, 12]);
    assert_eq!(e.cached_window(10), None);
    assert_eq!(e.cached_window(11), Some(&"b"));
    assert_eq!(sorted_tabs(&tabs), vec![11, 12]);
}

#[test]
fn entity_map_insert_and_get() {
    let mut m: EntityMap<String> = EntityMap::new();
    assert_eq!(m.len(), 0);
    assert!(!m.contains_key(1));
    m.insert(1, String::from("a"));
    m.insert(2, String::from("b"));
    assert_eq!(m.len(), 2);
    assert!(m.contains_key(1));
    assert_eq!(m.get(1), Some(&String::from("a")));
    assert_eq!(m.get(3), None);
}

#[test]
fn entity_map_insert_overwrites() {
    let mut m: EntityMap<u32> = EntityMap::new();
    m.insert(1, 10);
    m.insert(1, 20);
    assert_eq!(m.len(), 1);
    assert_eq!(m.get(1), Some(&20));
}

#[test]
fn entity_map_get_mut_updates_in_place() {
    let mut m: EntityMap<u32> = EntityMap::new();
    m.insert(1, 10);
    {
        let v = m.get_mut(1).unwrap();
        *v += 5;
    }
    assert_eq!(m.get(1), Some(&15));
    assert!(m.get_mut(9).is_none());
}

#[test]
fn entity_map_retain_keeps_only_named_ids() {
    let mut m: EntityMap<u32> = EntityMap::new();
    m.insert(1, 10);
    m.insert(2, 20);
    m.insert(3, 30);
    m.retain_ids(&vec![3, 1]);
    assert_eq!(m.len(), 2);
    assert_eq!(m.get(1), Some(&10));
    assert_eq!(m.get(2), None);
    assert_eq!(m.get(3), Some(&30));
}

#[test]
fn contains_id_scans_the_list() {
    assert!(contains_id(&vec![4, 5, 6], 5));
    assert!(!contains_id(&vec![4, 5, 6], 7));
    assert!(!contains_id(&vec![], 0));
}
