use vstd::prelude::*;

use crate::cursor::{
    cursor_of, expanded_of, key_down_target_of, key_up_target_of, tree_state_key_down,
    tree_state_key_up, tree_state_new, tree_state_selected, tree_state_toggle_selected,
};
use crate::event::{AppEvent, Event, KeyCode, KeyEvent, KeyModifiers};
use crate::menu::{find_menu_by_usize, spec_resolve, ActionNode, ActionTree};

verus! {

broadcast use vstd::seq_lib::group_filter_ensures;

/// One snapshot entry: what the navigation core reads of one tray
/// application.
#[derive(Debug)]
pub struct TrayItem {
    /// The stable identifier under which the store keys this application.
    pub key: String,
    /// The display title; an entry without one is not shown.
    pub title: Option<String>,
    /// The menu-access path the application exposes, when it has one;
    /// activation requests quote it.
    pub menu_path: Option<String>,
    /// The application's action menu, when known.
    pub menu: Option<ActionTree>,
}

/// Whether a snapshot entry carries a display title, and so appears in the
/// filtered application list.
pub open spec fn has_title(it: TrayItem) -> bool {
    it.title is Some
}

/// The filtered application list: the snapshot entries that carry a display
/// title, in snapshot order.
pub open spec fn spec_filtered(items: Seq<TrayItem>) -> Seq<TrayItem> {
    items.filter(|it: TrayItem| has_title(it))
}

/// A snapshot models a keyed mapping: no identifier occurs twice.
pub open spec fn keys_distinct(items: Seq<TrayItem>) -> bool {
    forall|i: int, j: int|
        0 <= i < j < items.len() ==> items[i].key@ != items[j].key@
}

/// The largest valid selection index: one less than the filtered length, or 0
/// when the filtered list is empty.
pub open spec fn spec_max_index(items: Seq<TrayItem>) -> int {
    if spec_filtered(items).len() == 0 {
        0
    } else {
        spec_filtered(items).len() - 1
    }
}

/// Appending one entry to a snapshot appends it to the filtered list exactly
/// when it carries a title.
proof fn lemma_filtered_push(s: Seq<TrayItem>, x: TrayItem)
    ensures
        spec_filtered(s.push(x)) == (if has_title(x) {
            spec_filtered(s).push(x)
        } else {
            spec_filtered(s)
        }),
{
    reveal(Seq::filter);
    assert(s.push(x).drop_last() =~= s);
    assert(s.push(x).last() == x);
}

/// Every key of the filtered list is a key of the snapshot, and a snapshot
/// with distinct keys has a filtered list with distinct keys.
proof fn lemma_filtered_keys(items: Seq<TrayItem>)
    ensures
        forall|k: int|
            0 <= k < spec_filtered(items).len() ==> exists|i: int|
                0 <= i < items.len() && items[i].key@ == #[trigger] spec_filtered(
                    items,
                )[k].key@,
        keys_distinct(items) ==> keys_distinct(spec_filtered(items)),
    decreases items.len(),
{
    reveal(Seq::filter);
    if items.len() == 0 {
    } else {
        let b = items.drop_last();
        let x = items.last();
        lemma_filtered_keys(b);
        assert(spec_filtered(items) == (if has_title(x) {
            spec_filtered(b).push(x)
        } else {
            spec_filtered(b)
        }));
        assert forall|k: int| 0 <= k < spec_filtered(items).len() implies exists|i: int|
            0 <= i < items.len() && items[i].key@ == #[trigger] spec_filtered(
                items,
            )[k].key@ by {
            if k < spec_filtered(b).len() {
                assert(spec_filtered(items)[k] == spec_filtered(b)[k]);
                let i0 = choose|i: int| 0 <= i < b.len() && b[i].key@ == spec_filtered(b)[k].key@;
                assert(items[i0].key@ == spec_filtered(items)[k].key@);
            } else {
                assert(spec_filtered(items)[k] == x);
                assert(items[items.len() - 1].key@ == spec_filtered(items)[k].key@);
            }
        };
        if keys_distinct(items) {
            assert(keys_distinct(b));
            assert forall|p: int, q: int|
                0 <= p < q < spec_filtered(items).len() implies spec_filtered(items)[p].key@
                != spec_filtered(items)[q].key@ by {
                if q < spec_filtered(b).len() {
                    assert(spec_filtered(items)[p] == spec_filtered(b)[p]);
                    assert(spec_filtered(items)[q] == spec_filtered(b)[q]);
                } else {
                    assert(spec_filtered(items)[p] == spec_filtered(b)[p]);
                    assert(spec_filtered(items)[q] == x);
                    let i0 = choose|i: int|
                        0 <= i < b.len() && b[i].key@ == spec_filtered(b)[p].key@;
                    assert(items[i0].key@ != items[items.len() - 1].key@);
                }
            };
        }
    }
}

/// An identifier occurs at one position of the filtered application list at
/// most when the snapshot's keys are distinct. Together with the contract of
/// `update`, a refresh whose new snapshot still contains the previously
/// selected identifier puts the selection index at exactly that identifier's
/// new position, however the entries were reordered.
pub proof fn lemma_filtered_key_position_unique(items: Seq<TrayItem>, i: int, j: int)
    requires
        keys_distinct(items),
        0 <= i < spec_filtered(items).len(),
        0 <= j < spec_filtered(items).len(),
        spec_filtered(items)[i].key@ == spec_filtered(items)[j].key@,
    ensures
        i == j,
{
    lemma_filtered_keys(items);
}

/// What an activation attempt decided; the caller performs the one request
/// the `Activate` case names, and nothing for every other case.
#[derive(Debug, PartialEq, Eq)]
pub enum ActivationOutcome {
    /// No selected application, no menu, or a cursor path that does not
    /// resolve in the current tree: nothing to do.
    NotFound,
    /// The resolved node is a branch: its expansion state was toggled
    /// locally; no request is issued.
    ToggledBranch,
    /// The resolved node is a leaf but the application exposes no menu-access
    /// path: no request is issued.
    NoMenuPath,
    /// The resolved node is a leaf: issue one activation request for this
    /// identifier, menu path and action identifier — the leaf's index within
    /// its parent — followed by one about-to-show notification for the same
    /// identifier and menu path.
    Activate { address: String, menu_path: String, submenu_id: usize },
}

/// What the dispatcher asks its caller to do after one event.
#[derive(Debug, PartialEq, Eq)]
pub enum StepAction {
    /// The event was handled locally; nothing left to do.
    Handled,
    /// Enqueue this command onto the merged event stream.
    Emit(AppEvent),
    /// Re-read the store snapshot and hand it to `update`.
    Refresh,
    /// An activation attempt ran; perform what its outcome names.
    Activated(ActivationOutcome),
}

/// An expansion set with the membership of one path flipped.
pub open spec fn spec_toggle_expanded(pre: Set<Seq<usize>>, at: Seq<usize>) -> Set<Seq<usize>> {
    if pre.contains(at) {
        pre.remove(at)
    } else {
        pre.insert(at)
    }
}

/// The command a key press maps to, or `None` for an unmapped key.
pub open spec fn spec_key_action(k: KeyEvent) -> Option<AppEvent> {
    if k.code == KeyCode::Esc || k.code == KeyCode::Char('q') {
        Some(AppEvent::Quit)
    } else if (k.code == KeyCode::Char('c') || k.code == KeyCode::Char('C')) && k.modifiers == (
    KeyModifiers { shift: false, control: true, alt: false }) {
        Some(AppEvent::Quit)
    } else if k.code == KeyCode::Up || k.code == KeyCode::Char('k') {
        Some(AppEvent::ActionPrev)
    } else if k.code == KeyCode::Down || k.code == KeyCode::Char('j') {
        Some(AppEvent::ActionNext)
    } else if k.code == KeyCode::Left || k.code == KeyCode::Char('h') {
        Some(AppEvent::AppPrev)
    } else if k.code == KeyCode::Right || k.code == KeyCode::Char('l') {
        Some(AppEvent::AppNext)
    } else if k.code == KeyCode::Char(' ') {
        Some(AppEvent::ToggleActionNode)
    } else if k.code == KeyCode::Enter {
        Some(AppEvent::ActivateAction)
    } else {
        None
    }
}

/// The navigation state: the local snapshot of the application store, the
/// selection index into the filtered application list, and the path cursor
/// into the selected application's action tree.
#[derive(Debug)]
pub struct App {
    /// Is the application running?
    pub running: bool,
    /// Selection index into the filtered application list.
    pub app_index: usize,
    /// State for the actions tree of the selected application: the cursor
    /// path and the set of expanded nodes.
    pub actions_state: tui_tree_widget::TreeState<usize>,
    /// The local snapshot of the application store.
    pub items: Vec<TrayItem>,
}

impl App {
    /// The selection index is valid for the filtered list, and the snapshot
    /// keys are distinct.
    pub open spec fn wf(self) -> bool {
        &&& keys_distinct(self.items@)
        &&& (self.app_index == 0 || (self.app_index as int) < spec_filtered(self.items@).len())
    }

    /// The selected filtered entry, when the selection index points at one.
    pub open spec fn spec_selected(self) -> Option<TrayItem> {
        if (self.app_index as int) < spec_filtered(self.items@).len() {
            Some(spec_filtered(self.items@)[self.app_index as int])
        } else {
            None
        }
    }

    /// The selected entry together with the node its cursor path resolves to,
    /// when the entry exists, has a menu, and the path resolves in it.
    pub open spec fn spec_target(self) -> Option<(TrayItem, ActionNode)> {
        match self.spec_selected() {
            None => None,
            Some(it) => match it.menu {
                None => None,
                Some(tree) => match spec_resolve(
                    tree.submenus@,
                    cursor_of(self.actions_state),
                ) {
                    None => None,
                    Some(n) => Some((it, n)),
                },
            },
        }
    }

    /// Constructs the navigation state over an initial snapshot: running,
    /// nothing expanded, selection at the start of the list.
    pub fn new(items: Vec<TrayItem>) -> (r: App)
        requires
            keys_distinct(items@),
        ensures
            r.running == true,
            r.app_index == 0,
            r.items == items,
            cursor_of(r.actions_state) == Seq::<usize>::empty(),
            expanded_of(r.actions_state) == Set::<Seq<usize>>::empty(),
            r.wf(),
    {
        App { running: true, app_index: 0, actions_state: tree_state_new(), items }
    }

    /// The filtered application list, as references into the snapshot.
    fn filtered(&self) -> (r: Vec<&TrayItem>)
        ensures
            r@.len() == spec_filtered(self.items@).len(),
            forall|i: int| 0 <= i < r@.len() ==> *r@[i] == spec_filtered(self.items@)[i],
    {
        let mut r: Vec<&TrayItem> = Vec::new();
        let mut i: usize = 0;
        while i < self.items.len()
            invariant
                i <= self.items@.len(),
                r@.len() == spec_filtered(self.items@.take(i as int)).len(),
                forall|j: int|
                    0 <= j < r@.len() ==> *r@[j] == spec_filtered(self.items@.take(i as int))[j],
            decreases self.items@.len() - i,
        {
            proof {
                lemma_filtered_push(self.items@.take(i as int), self.items@[i as int]);
                assert(self.items@.take(i as int + 1) =~= self.items@.take(i as int).push(
                    self.items@[i as int],
                ));
            }
            if self.items[i].title.is_some() {
                r.push(&self.items[i]);
            }
            i = i + 1;
        }
        proof {
            assert(self.items@.take(self.items@.len() as int) =~= self.items@);
        }
        r
    }

    /// The display titles of the filtered application list, in order.
    pub fn get_titles(&self) -> (r: Vec<String>)
        ensures
            r@.len() == spec_filtered(self.items@).len(),
            forall|i: int|
                0 <= i < r@.len() ==> r@[i]@ == spec_filtered(self.items@)[i].title->0@,
    {
        let f = self.filtered();
        let mut r: Vec<String> = Vec::new();
        let mut i: usize = 0;
        while i < f.len()
            invariant
                i <= f@.len(),
                r@.len() == i,
                f@.len() == spec_filtered(self.items@).len(),
                forall|j: int| 0 <= j < f@.len() ==> *f@[j] == spec_filtered(self.items@)[j],
                forall|j: int|
                    0 <= j < i ==> r@[j]@ == spec_filtered(self.items@)[j].title->0@,
            decreases f@.len() - i,
        {
            proof {
                assert(spec_filtered(self.items@)[i as int] == *f@[i as int]);
            }
            r.push(f[i].title.as_ref().unwrap().clone());
            i = i + 1;
        }
        r
    }

    /// The identifier of the currently selected entry, when there is one.
    pub fn get_selected_key(&self) -> (r: Option<String>)
        ensures
            match r {
                Some(k) => self.spec_selected() matches Some(it) && k@ == it.key@,
                None => self.spec_selected() is None,
            },
    {
        match self.get_selected() {
            Some(t) => Some(t.key.clone()),
            None => None,
        }
    }

    /// The position of an identifier in the filtered application list: the
    /// first entry whose key equals `key`, when one exists.
    pub fn get_index_from_key(&self, key: &String) -> (r: Option<usize>)
        ensures
            match r {
                Some(ix) => {
                    &&& (ix as int) < spec_filtered(self.items@).len()
                    &&& spec_filtered(self.items@)[ix as int].key@ == key@
                    &&& forall|j: int|
                        0 <= j < ix ==> spec_filtered(self.items@)[j].key@ != key@
                },
                None => forall|j: int|
                    0 <= j < spec_filtered(self.items@).len() ==> spec_filtered(
                        self.items@,
                    )[j].key@ != key@,
            },
    {
        let f = self.filtered();
        let mut i: usize = 0;
        while i < f.len()
            invariant
                i <= f@.len(),
                f@.len() == spec_filtered(self.items@).len(),
                forall|j: int| 0 <= j < f@.len() ==> *f@[j] == spec_filtered(self.items@)[j],
                forall|j: int| 0 <= j < i ==> spec_filtered(self.items@)[j].key@ != key@,
            decreases f@.len() - i,
        {
            if f[i].key == *key {
                return Some(i);
            }
            i = i + 1;
        }
        None
    }

    /// The currently selected filtered entry, when the selection index points
    /// at one.
    pub fn get_selected(&self) -> (r: Option<&TrayItem>)
        ensures
            match r {
                Some(t) => self.spec_selected() == Some(*t),
                None => self.spec_selected() is None,
            },
    {
        let f = self.filtered();
        if self.app_index < f.len() {
            Some(f[self.app_index])
        } else {
            None
        }
    }

    /// The action menu of the currently selected entry, when it has one.
    pub fn get_selected_menu(&self) -> (r: Option<&ActionTree>)
        ensures
            match r {
                Some(m) => self.spec_selected() matches Some(it) && it.menu == Some(*m),
                None => self.spec_selected() is None || self.spec_selected()->0.menu is None,
            },
    {
        match self.get_selected() {
            Some(t) => match &t.menu {
                Some(m) => Some(m),
                None => None,
            },
            None => None,
        }
    }

    /// The largest valid selection index for the current snapshot.
    pub fn max_index(&self) -> (r: usize)
        ensures
            r as int == spec_max_index(self.items@),
    {
        let f = self.filtered();
        if f.len() == 0 {
            0
        } else {
            f.len() - 1
        }
    }

    /// Moves the selection one entry up, stopping at the start of the list.
    pub fn prev_app(&mut self)
        ensures
            final(self).items == old(self).items,
            final(self).running == old(self).running,
            final(self).actions_state == old(self).actions_state,
            final(self).app_index == (if old(self).app_index > 0 {
                old(self).app_index - 1
            } else {
                0
            }),
            old(self).wf() ==> final(self).wf(),
            old(self).wf() ==> 0 <= final(self).app_index as int <= spec_max_index(
                old(self).items@,
            ),
            old(self).wf() && spec_filtered(old(self).items@).len() <= 1 ==> final(self).app_index
                == old(self).app_index,
    {
        if self.app_index > 0 {
            self.app_index = self.app_index - 1;
        }
    }

    /// Moves the selection one entry down, stopping at the end of the list.
    pub fn next_app(&mut self)
        ensures
            final(self).items == old(self).items,
            final(self).running == old(self).running,
            final(self).actions_state == old(self).actions_state,
            final(self).app_index as int == (if (old(self).app_index as int) < spec_max_index(
                old(self).items@,
            ) {
                old(self).app_index + 1
            } else {
                old(self).app_index as int
            }),
            old(self).wf() ==> final(self).wf(),
            old(self).wf() ==> 0 <= final(self).app_index as int <= spec_max_index(
                old(self).items@,
            ),
            old(self).wf() && spec_filtered(old(self).items@).len() <= 1 ==> final(self).app_index
                == old(self).app_index,
    {
        let max: usize = self.max_index();
        if self.app_index < max {
            self.app_index = self.app_index + 1;
        }
    }

    /// Replaces the snapshot wholesale and re-derives the selection index:
    /// when the previously selected identifier is still present in the new
    /// filtered list the selection points at its new position, otherwise it
    /// falls back to 0.
    pub fn update(&mut self, items: Vec<TrayItem>)
        requires
            keys_distinct(items@),
        ensures
            final(self).items == items,
            final(self).running == old(self).running,
            final(self).actions_state == old(self).actions_state,
            final(self).wf(),
            ({
                let of = spec_filtered(old(self).items@);
                let nf = spec_filtered(items@);
                if old(self).spec_selected() matches Some(it) && (exists|j: int|
                    0 <= j < nf.len() && nf[j].key@ == it.key@) {
                    &&& (final(self).app_index as int) < nf.len()
                    &&& nf[final(self).app_index as int].key@
                        == old(self).spec_selected()->0.key@
                } else {
                    final(self).app_index == 0
                }
            }),
    {
        let selected_key = self.get_selected_key();
        self.items = items;
        self.app_index = 0;
        if let Some(key) = selected_key {
            if let Some(index) = self.get_index_from_key(&key) {
                self.app_index = index;
            }
        }
    }

    /// The node the current cursor path reaches in the selected application's
    /// action tree, or `None` when there is no selected application, it has
    /// no menu, or the path no longer resolves in the current tree.
    pub fn resolve_cursor(&self) -> (r: Option<&ActionNode>)
        ensures
            match r {
                Some(n) => self.spec_target() matches Some(t) && t.1 == *n,
                None => self.spec_target() is None,
            },
    {
        let ids = tree_state_selected(&self.actions_state);
        match self.get_selected_menu() {
            Some(tree) => find_menu_by_usize(tree, ids.as_slice()),
            None => None,
        }
    }

    /// What one activation attempt did and what is left to request: resolves
    /// the cursor, toggles a resolved branch locally, and for a resolved leaf
    /// of an application with a menu-access path names the one activation
    /// request to issue.
    pub fn activate_action(&mut self) -> (r: ActivationOutcome)
        ensures
            spec_activation(*old(self), *final(self), r),
    {
        let ids = tree_state_selected(&self.actions_state);
        let mut info: Option<(String, Option<String>, bool, usize)> = None;
        match self.get_selected() {
            None => {},
            Some(t) => match &t.menu {
                None => {},
                Some(tree) => match find_menu_by_usize(tree, ids.as_slice()) {
                    None => {},
                    Some(n) => {
                        let mp: Option<String> = match &t.menu_path {
                            Some(p) => Some(p.clone()),
                            None => None,
                        };
                        proof {
                            assert(ids@.len() > 0);
                        }
                        let action_index: usize = ids[ids.len() - 1];
                        info = Some((t.key.clone(), mp, n.submenu.len() == 0, action_index));
                    },
                },
            },
        }
        match info {
            None => ActivationOutcome::NotFound,
            Some((address, mp, is_leaf, action_index)) => {
                if !is_leaf {
                    tree_state_toggle_selected(&mut self.actions_state);
                    ActivationOutcome::ToggledBranch
                } else {
                    match mp {
                        Some(p) => ActivationOutcome::Activate {
                            address,
                            menu_path: p,
                            submenu_id: action_index,
                        },
                        None => ActivationOutcome::NoMenuPath,
                    }
                }
            },
        }
    }

    /// The command a key press maps to, or `None` for an unmapped key.
    pub fn handle_key_events(&self, key_event: KeyEvent) -> (r: Option<AppEvent>)
        ensures
            r == spec_key_action(key_event),
    {
        match key_event.code {
            KeyCode::Esc => Some(AppEvent::Quit),
            KeyCode::Char(c) => {
                if c == 'q' {
                    Some(AppEvent::Quit)
                } else if (c == 'c' || c == 'C') && key_event.modifiers == (KeyModifiers {
                    shift: false,
                    control: true,
                    alt: false,
                }) {
                    Some(AppEvent::Quit)
                } else if c == 'k' {
                    Some(AppEvent::ActionPrev)
                } else if c == 'j' {
                    Some(AppEvent::ActionNext)
                } else if c == 'h' {
                    Some(AppEvent::AppPrev)
                } else if c == 'l' {
                    Some(AppEvent::AppNext)
                } else if c == ' ' {
                    Some(AppEvent::ToggleActionNode)
                } else {
                    None
                }
            },
            KeyCode::Up => Some(AppEvent::ActionPrev),
            KeyCode::Down => Some(AppEvent::ActionNext),
            KeyCode::Left => Some(AppEvent::AppPrev),
            KeyCode::Right => Some(AppEvent::AppNext),
            KeyCode::Enter => Some(AppEvent::ActivateAction),
            KeyCode::Other => None,
        }
    }

    /// Dispatches one event of the merged stream: mutates the navigation
    /// state for what is local, and names what is left for the caller — a
    /// command to enqueue, a snapshot to re-read, or an activation outcome to
    /// perform.
    pub fn handle_event(&mut self, event: Event) -> (r: StepAction)
        requires
            old(self).wf(),
        ensures
            final(self).wf(),
            match event {
                Event::Crossterm(k) => *final(self) == *old(self) && r == (match spec_key_action(
                    k,
                ) {
                    Some(e) => StepAction::Emit(e),
                    None => StepAction::Handled,
                }),
                Event::SystemTray => *final(self) == *old(self) && r == StepAction::Refresh,
                Event::App(a) => match a {
                    AppEvent::Quit => {
                        &&& final(self).running == false
                        &&& final(self).items == old(self).items
                        &&& final(self).app_index == old(self).app_index
                        &&& final(self).actions_state == old(self).actions_state
                        &&& r == StepAction::Handled
                    },
                    AppEvent::AppPrev => {
                        &&& final(self).items == old(self).items
                        &&& final(self).running == old(self).running
                        &&& final(self).actions_state == old(self).actions_state
                        &&& final(self).app_index == (if old(self).app_index > 0 {
                            old(self).app_index - 1
                        } else {
                            0
                        })
                        &&& r == StepAction::Handled
                    },
                    AppEvent::AppNext => {
                        &&& final(self).items == old(self).items
                        &&& final(self).running == old(self).running
                        &&& final(self).actions_state == old(self).actions_state
                        &&& final(self).app_index as int == (if (old(
                            self,
                        ).app_index as int) < spec_max_index(old(self).items@) {
                            old(self).app_index + 1
                        } else {
                            old(self).app_index as int
                        })
                        &&& r == StepAction::Handled
                    },
                    AppEvent::ActionPrev => {
                        &&& final(self).items == old(self).items
                        &&& final(self).running == old(self).running
                        &&& final(self).app_index == old(self).app_index
                        &&& expanded_of(final(self).actions_state) == expanded_of(
                            old(self).actions_state,
                        )
                        &&& cursor_of(final(self).actions_state) == key_up_target_of(
                            old(self).actions_state,
                        )
                        &&& r == StepAction::Handled
                    },
                    AppEvent::ActionNext => {
                        &&& final(self).items == old(self).items
                        &&& final(self).running == old(self).running
                        &&& final(self).app_index == old(self).app_index
                        &&& expanded_of(final(self).actions_state) == expanded_of(
                            old(self).actions_state,
                        )
                        &&& cursor_of(final(self).actions_state) == key_down_target_of(
                            old(self).actions_state,
                        )
                        &&& r == StepAction::Handled
                    },
                    AppEvent::ToggleActionNode => {
                        &&& final(self).items == old(self).items
                        &&& final(self).running == old(self).running
                        &&& final(self).app_index == old(self).app_index
                        &&& cursor_of(final(self).actions_state) == cursor_of(
                            old(self).actions_state,
                        )
                        &&& expanded_of(final(self).actions_state) == (if cursor_of(
                            old(self).actions_state,
                        ).len() == 0 {
                            expanded_of(old(self).actions_state)
                        } else {
                            spec_toggle_expanded(
                                expanded_of(old(self).actions_state),
                                cursor_of(old(self).actions_state),
                            )
                        })
                        &&& r == StepAction::Handled
                    },
                    AppEvent::ActivateAction => r matches StepAction::Activated(o)
                        && spec_activation(*old(self), *final(self), o),
                },
            },
    {
        match event {
            Event::Crossterm(key_event) => match self.handle_key_events(key_event) {
                Some(e) => StepAction::Emit(e),
                None => StepAction::Handled,
            },
            Event::SystemTray => StepAction::Refresh,
            Event::App(app_event) => match app_event {
                AppEvent::Quit => {
                    self.quit();
                    StepAction::Handled
                },
                AppEvent::AppPrev => {
                    self.prev_app();
                    StepAction::Handled
                },
                AppEvent::AppNext => {
                    self.next_app();
                    StepAction::Handled
                },
                AppEvent::ActionPrev => {
                    tree_state_key_up(&mut self.actions_state);
                    StepAction::Handled
                },
                AppEvent::ActionNext => {
                    tree_state_key_down(&mut self.actions_state);
                    StepAction::Handled
                },
                AppEvent::ToggleActionNode => {
                    tree_state_toggle_selected(&mut self.actions_state);
                    StepAction::Handled
                },
                AppEvent::ActivateAction => StepAction::Activated(self.activate_action()),
            },
        }
    }

    /// Sets the application state to stop running.
    pub fn quit(&mut self)
        ensures
            final(self).running == false,
            final(self).items == old(self).items,
            final(self).app_index == old(self).app_index,
            final(self).actions_state == old(self).actions_state,
    {
        self.running = false;
    }
}

/// How one activation attempt relates the navigation state before and after,
/// and the outcome it returns: a failed resolution changes nothing, a
/// resolved branch only toggles its expansion, and a resolved leaf changes
/// nothing and names the request owed exactly when the application has a
/// menu-access path.
pub open spec fn spec_activation(pre: App, post: App, r: ActivationOutcome) -> bool {
    let ids = cursor_of(pre.actions_state);
    &&& post.items == pre.items
    &&& post.running == pre.running
    &&& post.app_index == pre.app_index
    &&& cursor_of(post.actions_state) == cursor_of(pre.actions_state)
    &&& match pre.spec_target() {
        None => r is NotFound && expanded_of(post.actions_state) == expanded_of(
            pre.actions_state,
        ),
        Some(t) => {
            if t.1.submenu@.len() > 0 {
                &&& r is ToggledBranch
                &&& expanded_of(post.actions_state) == spec_toggle_expanded(
                    expanded_of(pre.actions_state),
                    ids,
                )
            } else {
                &&& expanded_of(post.actions_state) == expanded_of(pre.actions_state)
                &&& match t.0.menu_path {
                    Some(p) => r matches ActivationOutcome::Activate {
                        address,
                        menu_path,
                        submenu_id,
                    } && address@ == t.0.key@ && menu_path@ == p@ && submenu_id == ids.last(),
                    None => r is NoMenuPath,
                }
            }
        },
    }
}

} // verus!
