use traytui::app::{App, TrayItem};
use traytui::menu::{ActionNode, ActionTree};

fn leaf(label: Option<&str>) -> ActionNode {
    ActionNode {
        label: label.map(|s| s.to_string()),
        submenu: Vec::new(),
    }
}

fn branch(label: Option<&str>, children: Vec<ActionNode>) -> ActionNode {
    ActionNode {
        label: label.map(|s| s.to_string()),
        submenu: children,
    }
}

fn item(key: &str, title: Option<&str>) -> TrayItem {
    TrayItem {
        key: key.to_string(),
        title: title.map(|s| s.to_string()),
        menu_path: None,
        menu: None,
    }
}

fn item_with_menu(
    key: &str,
    title: Option<&str>,
    menu_path: Option<&str>,
    menu: Option<ActionTree>,
) -> TrayItem {
    TrayItem {
        key: key.to_string(),
        title: title.map(|s| s.to_string()),
        menu_path: menu_path.map(|s| s.to_string()),
        menu,
    }
}

#[test]
fn titles_skip_entries_without_title() {
    // Snapshot {"a": ("App A", leaf-only tree), "b": (no title, tree)}
    // filters to exactly ["App A"].
    let tree_a = ActionTree {
        submenus: vec![leaf(Some("Open"))],
    };
    let tree_b = ActionTree {
        submenus: vec![branch(Some("More"), vec![leaf(Some("Sub"))])],
    };
    let app = App::new(vec![
        item_with_menu("a", Some("App A"), Some("/menu"), Some(tree_a)),
        item_with_menu("b", None, Some("/menu"), Some(tree_b)),
    ]);
    assert_eq!(app.get_titles(), vec!["App A".to_string()]);
    assert_eq!(app.max_index(), 0);
    assert_eq!(app.get_selected_key(), Some("a".to_string()));
}

#[test]
fn selection_follows_identifier_across_reorder() {
    let mut app = App::new(vec![
        item("a", Some("App A")),
        item("b", Some("App B")),
        item("c", Some("App C")),
    ]);
    app.next_app();
    assert_eq!(app.app_index, 1);
    assert_eq!(app.get_selected_key(), Some("b".to_string()));

    // Same entries, reordered: the selection keeps following "b".
    app.update(vec![
        item("c", Some("App C")),
        item("a", Some("App A")),
        item("b", Some("App B")),
    ]);
    assert_eq!(app.app_index, 2);
    assert_eq!(app.get_selected_key(), Some("b".to_string()));
}

#[test]
fn selection_ignores_untitled_entries_when_following() {
    let mut app = App::new(vec![item("a", Some("App A")), item("b", Some("App B"))]);
    app.next_app();
    assert_eq!(app.get_selected_key(), Some("b".to_string()));

    // An untitled entry ahead of "b" does not count towards its position.
    app.update(vec![
        item("x", None),
        item("a", Some("App A")),
        item("b", Some("App B")),
    ]);
    assert_eq!(app.app_index, 1);
    assert_eq!(app.get_selected_key(), Some("b".to_string()));
}

#[test]
fn selection_falls_back_to_zero_when_identifier_gone() {
    let mut app = App::new(vec![
        item("a", Some("App A")),
        item("b", Some("App B")),
        item("c", Some("App C")),
    ]);
    app.next_app();
    app.next_app();
    assert_eq!(app.app_index, 2);

    app.update(vec![item("a", Some("App A")), item("b", Some("App B"))]);
    assert_eq!(app.app_index, 0);
    assert_eq!(app.get_selected_key(), Some("a".to_string()));
}

#[test]
fn selection_zero_when_list_becomes_empty() {
    let mut app = App::new(vec![item("a", Some("App A"))]);
    app.update(Vec::new());
    assert_eq!(app.app_index, 0);
    assert_eq!(app.get_selected_key(), None);
    assert_eq!(app.get_titles(), Vec::<String>::new());
}

#[test]
fn next_and_prev_clamp_to_range() {
    let mut app = App::new(vec![item("a", Some("App A")), item("b", Some("App B"))]);
    assert_eq!(app.max_index(), 1);
    app.prev_app();
    assert_eq!(app.app_index, 0);
    app.next_app();
    assert_eq!(app.app_index, 1);
    app.next_app();
    assert_eq!(app.app_index, 1);
    app.prev_app();
    assert_eq!(app.app_index, 0);
}

#[test]
fn next_and_prev_are_noops_on_empty_list() {
    let mut app = App::new(Vec::new());
    app.next_app();
    assert_eq!(app.app_index, 0);
    app.prev_app();
    assert_eq!(app.app_index, 0);
    assert_eq!(app.max_index(), 0);
}

#[test]
fn next_and_prev_are_noops_on_single_entry() {
    let mut app = App::new(vec![item("a", Some("App A"))]);
    app.next_app();
    assert_eq!(app.app_index, 0);
    app.prev_app();
    assert_eq!(app.app_index, 0);
}

#[test]
fn get_index_from_key_counts_filtered_positions() {
    let app = App::new(vec![
        item("x", None),
        item("a", Some("App A")),
        item("b", Some("App B")),
    ]);
    assert_eq!(app.get_index_from_key(&"a".to_string()), Some(0));
    assert_eq!(app.get_index_from_key(&"b".to_string()), Some(1));
    // "x" has no title, so it has no position in the filtered list.
    assert_eq!(app.get_index_from_key(&"x".to_string()), None);
    assert_eq!(app.get_index_from_key(&"missing".to_string()), None);
}

#[test]
fn get_selected_returns_entry_and_menu() {
    let tree = ActionTree {
        submenus: vec![leaf(Some("Open"))],
    };
    let app = App::new(vec![item_with_menu(
        "a",
        Some("App A"),
        Some("/menu"),
        Some(tree),
    )]);
    let selected = app.get_selected().expect("an entry is selected");
    assert_eq!(selected.key, "a");
    let menu = app.get_selected_menu().expect("the entry has a menu");
    assert_eq!(menu.submenus.len(), 1);
    assert_eq!(menu.submenus[0].label.as_deref(), Some("Open"));
}

#[test]
fn get_selected_none_without_entries() {
    let app = App::new(Vec::new());
    assert!(app.get_selected().is_none());
    assert!(app.get_selected_menu().is_none());
}
