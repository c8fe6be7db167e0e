use vstd::prelude::*;

verus! {

#[verifier::external_type_specification]
#[verifier::external_body]
#[verifier::reject_recursive_types(Identifier)]
pub struct ExTreeState<Identifier>(tui_tree_widget::TreeState<Identifier>);

/// The identifier path currently selected in a tree-navigation widget state
/// (its `selected` field).
pub uninterp spec fn cursor_of(s: tui_tree_widget::TreeState<usize>) -> Seq<usize>;

/// The set of identifier paths whose nodes are currently open in a
/// tree-navigation widget state (its `opened` field).
pub uninterp spec fn expanded_of(s: tui_tree_widget::TreeState<usize>) -> Set<Seq<usize>>;

/// Relies on `TreeState::default`: it builds a state with an empty selection
/// and no opened nodes.
#[verifier::external_body]
pub fn tree_state_new() -> (r: tui_tree_widget::TreeState<usize>)
    ensures
        cursor_of(r) == Seq::<usize>::empty(),
        expanded_of(r) == Set::<Seq<usize>>::empty(),
{
    tui_tree_widget::TreeState::default()
}

/// Relies on `TreeState::selected`: it returns the currently selected
/// identifier path.
#[verifier::external_body]
pub fn tree_state_selected(s: &tui_tree_widget::TreeState<usize>) -> (r: Vec<usize>)
    ensures
        r@ == cursor_of(*s),
{
    s.selected().to_vec()
}

/// The identifier path `TreeState::key_up` selects from a given state value:
/// one step up among the nodes that were visible at the last render recorded
/// in the value, clamped to the visible range (the lowest visible path when
/// nothing is selected, the empty path when nothing was visible).
pub uninterp spec fn key_up_target_of(s: tui_tree_widget::TreeState<usize>) -> Seq<usize>;

/// The identifier path `TreeState::key_down` selects from a given state
/// value: one step down among the nodes that were visible at the last render
/// recorded in the value, clamped to the visible range (the first visible
/// path when nothing is selected, the empty path when nothing was visible).
pub uninterp spec fn key_down_target_of(s: tui_tree_widget::TreeState<usize>) -> Seq<usize>;

/// Relies on `TreeState::key_up`: it moves the selection to the path that is
/// a function of the state value alone (named `key_up_target_of`), leaves the
/// set of opened nodes untouched, and returns whether the selection changed.
#[verifier::external_body]
pub fn tree_state_key_up(s: &mut tui_tree_widget::TreeState<usize>) -> (r: bool)
    ensures
        expanded_of(*final(s)) == expanded_of(*old(s)),
        cursor_of(*final(s)) == key_up_target_of(*old(s)),
        r == (cursor_of(*final(s)) != cursor_of(*old(s))),
{
    s.key_up()
}

/// Relies on `TreeState::key_down`: it moves the selection to the path that
/// is a function of the state value alone (named `key_down_target_of`),
/// leaves the set of opened nodes untouched, and returns whether the
/// selection changed.
#[verifier::external_body]
pub fn tree_state_key_down(s: &mut tui_tree_widget::TreeState<usize>) -> (r: bool)
    ensures
        expanded_of(*final(s)) == expanded_of(*old(s)),
        cursor_of(*final(s)) == key_down_target_of(*old(s)),
        r == (cursor_of(*final(s)) != cursor_of(*old(s))),
{
    s.key_down()
}

/// Relies on `TreeState::toggle_selected`: with an empty selection it changes
/// nothing and returns false; otherwise it removes the selected path from the
/// opened set when present, inserts it when absent, and returns true. The
/// selection itself is untouched.
#[verifier::external_body]
pub fn tree_state_toggle_selected(s: &mut tui_tree_widget::TreeState<usize>) -> (r: bool)
    ensures
        cursor_of(*final(s)) == cursor_of(*old(s)),
        cursor_of(*old(s)).len() == 0 ==> r == false && expanded_of(*final(s)) == expanded_of(
            *old(s),
        ),
        cursor_of(*old(s)).len() > 0 ==> r == true && expanded_of(*final(s)) == (if expanded_of(
            *old(s),
        ).contains(cursor_of(*old(s))) {
            expanded_of(*old(s)).remove(cursor_of(*old(s)))
        } else {
            expanded_of(*old(s)).insert(cursor_of(*old(s)))
        }),
{
    s.toggle_selected()
}

} // verus!
