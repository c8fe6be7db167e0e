use vstd::prelude::*;

use crate::menu::ActionNode;

verus! {

/// One node of the drawable action tree handed to the renderer: leaves
/// without a label are dropped, a branch without a label gets a placeholder,
/// and every node is identified by its index within its parent.
#[derive(Debug)]
pub struct TreeEntry {
    pub id: usize,
    pub label: String,
    pub children: Vec<TreeEntry>,
}

/// The mathematical shape of a drawable tree node.
pub ghost struct TreeEntryView {
    pub id: int,
    pub label: Seq<char>,
    pub children: Seq<TreeEntryView>,
}

/// The shape of a drawable tree node.
pub open spec fn entry_view(e: TreeEntry) -> TreeEntryView
    decreases e,
{
    TreeEntryView { id: e.id as int, label: e.label@, children: entries_view_from(e.children@, 0) }
}

/// The shapes of the drawable tree nodes `es[i..]`, in order.
pub open spec fn entries_view_from(es: Seq<TreeEntry>, i: int) -> Seq<TreeEntryView>
    decreases es, es.len() - i + 1,
{
    if i < 0 || i >= es.len() {
        Seq::empty()
    } else {
        seq![entry_view(es[i])] + entries_view_from(es, i + 1)
    }
}

/// The drawable node a menu node projects to: `None` for a leaf without a
/// label, the placeholder label for a branch without one.
pub open spec fn spec_tree_item(id: int, n: ActionNode) -> Option<TreeEntryView>
    decreases n,
{
    if n.submenu@.len() == 0 {
        match n.label {
            Some(l) => Some(TreeEntryView { id, label: l@, children: Seq::empty() }),
            None => None,
        }
    } else {
        Some(
            TreeEntryView {
                id,
                label: match n.label {
                    Some(l) => l@,
                    None => "no_label"@,
                },
                children: spec_tree_items_from(n.submenu@, 0),
            },
        )
    }
}

/// The drawable nodes the menu nodes `nodes[i..]` project to, in order,
/// label-less leaves dropped.
pub open spec fn spec_tree_items_from(nodes: Seq<ActionNode>, i: int) -> Seq<TreeEntryView>
    decreases nodes, nodes.len() - i + 1,
{
    if i < 0 || i >= nodes.len() {
        Seq::empty()
    } else {
        match spec_tree_item(i, nodes[i]) {
            Some(e) => seq![e] + spec_tree_items_from(nodes, i + 1),
            None => spec_tree_items_from(nodes, i + 1),
        }
    }
}

/// Appending a drawable node appends its shape.
proof fn lemma_entries_view_push(es: Seq<TreeEntry>, x: TreeEntry, i: int)
    requires
        0 <= i <= es.len(),
    ensures
        entries_view_from(es.push(x), i) == entries_view_from(es, i) + seq![entry_view(x)],
    decreases es.len() - i,
{
    if i == es.len() {
        assert(es.push(x)[i] == x);
        assert(entries_view_from(es.push(x), i + 1) =~= Seq::<TreeEntryView>::empty());
        assert(entries_view_from(es.push(x), i) =~= entries_view_from(es, i) + seq![
            entry_view(x),
        ]);
    } else {
        lemma_entries_view_push(es, x, i + 1);
        assert(es.push(x)[i] == es[i]);
        assert(entries_view_from(es.push(x), i) =~= entries_view_from(es, i) + seq![
            entry_view(x),
        ]);
    }
}

/// Projects one menu node to a drawable node: a leaf keeps its label and is
/// dropped when it has none; a branch keeps its label or gets the
/// placeholder, and carries its projected children.
pub fn menu_item_to_tree_item(id: usize, menu_item: &ActionNode) -> (r: Option<TreeEntry>)
    ensures
        match r {
            Some(e) => spec_tree_item(id as int, *menu_item) == Some(entry_view(e)),
            None => spec_tree_item(id as int, *menu_item) is None,
        },
    decreases *menu_item,
{
    if menu_item.submenu.len() == 0 {
        match &menu_item.label {
            Some(label) => Some(
                TreeEntry { id, label: label.clone(), children: Vec::new() },
            ),
            None => None,
        }
    } else {
        let children = menu_items_to_tree_items(&menu_item.submenu);
        let label = match &menu_item.label {
            Some(l) => l.clone(),
            None => "no_label".to_owned(),
        };
        Some(TreeEntry { id, label, children })
    }
}

/// Projects an ordered list of menu nodes to the drawable nodes the renderer
/// shows, each identified by its index within the list.
pub fn menu_items_to_tree_items(menus: &Vec<ActionNode>) -> (r: Vec<TreeEntry>)
    ensures
        entries_view_from(r@, 0) == spec_tree_items_from(menus@, 0),
    decreases menus@,
{
    let mut r: Vec<TreeEntry> = Vec::new();
    let mut i: usize = 0;
    proof {
        assert(entries_view_from(r@, 0) + spec_tree_items_from(menus@, 0) =~= spec_tree_items_from(
            menus@,
            0,
        ));
    }
    while i < menus.len()
        invariant
            i <= menus@.len(),
            entries_view_from(r@, 0) + spec_tree_items_from(menus@, i as int)
                == spec_tree_items_from(menus@, 0),
        decreases menus@.len() - i,
    {
        match menu_item_to_tree_item(i, &menus[i]) {
            Some(e) => {
                proof {
                    lemma_entries_view_push(r@, e, 0);
                    assert((entries_view_from(r@, 0) + seq![entry_view(e)])
                        + spec_tree_items_from(menus@, i as int + 1) =~= entries_view_from(r@, 0)
                        + (seq![entry_view(e)] + spec_tree_items_from(menus@, i as int + 1)));
                }
                r.push(e);
            },
            None => {},
        }
        i = i + 1;
    }
    proof {
        assert(entries_view_from(r@, 0) + spec_tree_items_from(menus@, i as int)
            =~= entries_view_from(r@, 0));
    }
    r
}

} // verus!
