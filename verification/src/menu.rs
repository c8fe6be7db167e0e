use vstd::prelude::*;

verus! {

/// One node of an application's action menu: an optional label and an ordered
/// sequence of children. A node with no children is a leaf (actionable); a
/// node with children is a branch (expandable). Nodes carry no identifier of
/// their own: a path of child indices is the only way to address one.
#[derive(Debug)]
pub struct ActionNode {
    pub label: Option<String>,
    pub submenu: Vec<ActionNode>,
}

/// An application's whole action menu: the ordered top-level siblings.
#[derive(Debug)]
pub struct ActionTree {
    pub submenus: Vec<ActionNode>,
}

/// The node reached by walking `ids` one index per depth level, starting at
/// the top-level sibling list `nodes`. `None` when `ids` is empty or any
/// index is out of range at its depth.
pub open spec fn spec_resolve(nodes: Seq<ActionNode>, ids: Seq<usize>) -> Option<ActionNode>
    decreases ids.len(),
{
    if ids.len() == 0 {
        None
    } else if ids[0] >= nodes.len() {
        None
    } else if ids.len() == 1 {
        Some(nodes[ids[0] as int])
    } else {
        spec_resolve(nodes[ids[0] as int].submenu@, ids.drop_first())
    }
}

/// Walks a list of child indices into the nested submenu structure and
/// returns the node they reach, or `None` when the path does not resolve in
/// this tree (an out-of-range index at any depth, or an empty path).
pub fn find_menu_by_usize<'a>(tray_menu: &'a ActionTree, ids: &[usize]) -> (r: Option<
    &'a ActionNode,
>)
    ensures
        match r {
            Some(n) => spec_resolve(tray_menu.submenus@, ids@) == Some(*n),
            None => spec_resolve(tray_menu.submenus@, ids@) is None,
        },
{
    if ids.len() == 0 {
        return None;
    }
    if ids[0] >= tray_menu.submenus.len() {
        return None;
    }
    let mut result: &ActionNode = &tray_menu.submenus[ids[0]];
    let mut k: usize = 1;
    while k < ids.len()
        invariant
            1 <= k <= ids@.len(),
            spec_resolve(tray_menu.submenus@, ids@) == (if k == ids@.len() {
                Some(*result)
            } else {
                spec_resolve(result.submenu@, ids@.skip(k as int))
            }),
        decreases ids@.len() - k,
    {
        proof {
            assert(ids@.skip(k as int)[0] == ids@[k as int]);
            assert(ids@.skip(k as int).drop_first() =~= ids@.skip(k as int + 1));
        }
        if ids[k] >= result.submenu.len() {
            return None;
        }
        result = &result.submenu[ids[k]];
        k = k + 1;
    }
    Some(result)
}

} // verus!
