use traytui::menu::ActionNode;
use traytui::ui::{menu_item_to_tree_item, menu_items_to_tree_items};

fn leaf(label: Option<&str>) -> ActionNode {
    ActionNode {
        label: label.map(|s| s.to_string()),
        submenu: Vec::new(),
    }
}

fn branch(label: Option<&str>, children: Vec<ActionNode>) -> ActionNode {
    ActionNode {
        label: label.map(|s| s.to_string()),
        submenu: children,
    }
}

#[test]
fn labelled_leaf_projects_to_entry() {
    let entry = menu_item_to_tree_item(3, &leaf(Some("Open"))).expect("kept");
    assert_eq!(entry.id, 3);
    assert_eq!(entry.label, "Open");
    assert!(entry.children.is_empty());
}

#[test]
fn unlabelled_leaf_is_dropped() {
    assert!(menu_item_to_tree_item(0, &leaf(None)).is_none());
}

#[test]
fn unlabelled_branch_gets_placeholder_label() {
    let entry = menu_item_to_tree_item(0, &branch(None, vec![leaf(Some("A"))]))
        .expect("branches are kept");
    assert_eq!(entry.label, "no_label");
    assert_eq!(entry.children.len(), 1);
    assert_eq!(entry.children[0].label, "A");
}

#[test]
fn list_projection_keeps_order_and_indices() {
    let menus = vec![
        leaf(Some("First")),
        leaf(None),
        branch(Some("Menu"), vec![leaf(None), leaf(Some("Deep"))]),
    ];
    let entries = menu_items_to_tree_items(&menus);
    // The unlabelled leaf is dropped, but indices still follow the source list.
    assert_eq!(entries.len(), 2);
    assert_eq!(entries[0].id, 0);
    assert_eq!(entries[0].label, "First");
    assert_eq!(entries[1].id, 2);
    assert_eq!(entries[1].label, "Menu");
    // Children are indexed within their parent; the dropped leaf leaves a gap.
    assert_eq!(entries[1].children.len(), 1);
    assert_eq!(entries[1].children[0].id, 1);
    assert_eq!(entries[1].children[0].label, "Deep");
}

#[test]
fn empty_list_projects_to_nothing() {
    let entries = menu_items_to_tree_items(&Vec::new());
    assert!(entries.is_empty());
}
