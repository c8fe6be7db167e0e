use vstd::prelude::*;

use crate::event::{AppEvent, KeyCode, KeyEvent, KeyModifiers};

verus! {

/// A key code together with the modifier set that must be held with it: one
/// entry key of the keybinding table.
#[derive(Debug, Clone, Copy, PartialEq, Eq, Hash, Structural)]
pub struct KeyCombo {
    pub code: KeyCode,
    pub modifiers: KeyModifiers,
}

impl KeyCombo {
    pub fn new(code: KeyCode, modifiers: KeyModifiers) -> (r: KeyCombo)
        ensures
            r == (KeyCombo { code, modifiers }),
    {
        KeyCombo { code, modifiers }
    }
}

/// The key combination a key press stands for.
pub open spec fn spec_combo(k: KeyEvent) -> KeyCombo {
    KeyCombo { code: k.code, modifiers: k.modifiers }
}

/// No modifier held.
pub open spec fn spec_mods_none() -> KeyModifiers {
    KeyModifiers { shift: false, control: false, alt: false }
}

/// Only the control key held.
pub open spec fn spec_mods_control() -> KeyModifiers {
    KeyModifiers { shift: false, control: true, alt: false }
}

/// The default keybinding table, as the ordered sequence of its entries.
pub open spec fn spec_default_binds() -> Seq<(KeyCombo, AppEvent)> {
    seq![
        (KeyCombo { code: KeyCode::Esc, modifiers: spec_mods_none() }, AppEvent::Quit),
        (KeyCombo { code: KeyCode::Char('q'), modifiers: spec_mods_none() }, AppEvent::Quit),
        (KeyCombo { code: KeyCode::Char('c'), modifiers: spec_mods_control() }, AppEvent::Quit),
        (KeyCombo { code: KeyCode::Char('C'), modifiers: spec_mods_control() }, AppEvent::Quit),
        (KeyCombo { code: KeyCode::Up, modifiers: spec_mods_none() }, AppEvent::ActionPrev),
        (KeyCombo { code: KeyCode::Char('k'), modifiers: spec_mods_none() }, AppEvent::ActionPrev),
        (KeyCombo { code: KeyCode::Down, modifiers: spec_mods_none() }, AppEvent::ActionNext),
        (KeyCombo { code: KeyCode::Char('j'), modifiers: spec_mods_none() }, AppEvent::ActionNext),
        (KeyCombo { code: KeyCode::Left, modifiers: spec_mods_none() }, AppEvent::AppPrev),
        (KeyCombo { code: KeyCode::Char('h'), modifiers: spec_mods_none() }, AppEvent::AppPrev),
        (KeyCombo { code: KeyCode::Right, modifiers: spec_mods_none() }, AppEvent::AppNext),
        (KeyCombo { code: KeyCode::Char('l'), modifiers: spec_mods_none() }, AppEvent::AppNext),
        (
            KeyCombo { code: KeyCode::Char(' '), modifiers: spec_mods_none() },
            AppEvent::ToggleActionNode,
        ),
        (KeyCombo { code: KeyCode::Enter, modifiers: spec_mods_none() }, AppEvent::ActivateAction),
    ]
}

/// The keybinding table: each key combination maps to exactly one command;
/// key presses outside the table are ignored.
#[derive(Debug, Clone)]
pub struct Config {
    pub keybinds: Vec<(KeyCombo, AppEvent)>,
}

impl Default for Config {
    /// The default keybinding table.
    fn default() -> (r: Config)
        ensures
            r.keybinds@ == spec_default_binds(),
    {
        let none = KeyModifiers { shift: false, control: false, alt: false };
        let ctrl = KeyModifiers { shift: false, control: true, alt: false };
        let mut binds: Vec<(KeyCombo, AppEvent)> = Vec::new();

        binds.push((KeyCombo::new(KeyCode::Esc, none), AppEvent::Quit));
        binds.push((KeyCombo::new(KeyCode::Char('q'), none), AppEvent::Quit));
        binds.push((KeyCombo::new(KeyCode::Char('c'), ctrl), AppEvent::Quit));
        binds.push((KeyCombo::new(KeyCode::Char('C'), ctrl), AppEvent::Quit));

        binds.push((KeyCombo::new(KeyCode::Up, none), AppEvent::ActionPrev));
        binds.push((KeyCombo::new(KeyCode::Char('k'), none), AppEvent::ActionPrev));
        binds.push((KeyCombo::new(KeyCode::Down, none), AppEvent::ActionNext));
        binds.push((KeyCombo::new(KeyCode::Char('j'), none), AppEvent::ActionNext));

        binds.push((KeyCombo::new(KeyCode::Left, none), AppEvent::AppPrev));
        binds.push((KeyCombo::new(KeyCode::Char('h'), none), AppEvent::AppPrev));
        binds.push((KeyCombo::new(KeyCode::Right, none), AppEvent::AppNext));
        binds.push((KeyCombo::new(KeyCode::Char('l'), none), AppEvent::AppNext));

        binds.push((KeyCombo::new(KeyCode::Char(' '), none), AppEvent::ToggleActionNode));
        binds.push((KeyCombo::new(KeyCode::Enter, none), AppEvent::ActivateAction));

        proof {
            assert(binds@ =~= spec_default_binds());
        }
        Config { keybinds: binds }
    }
}

impl Config {
    /// The command bound to a key press: the first table entry whose
    /// combination equals the pressed one, or `None` when no entry matches.
    pub fn get(&self, key_event: &KeyEvent) -> (r: Option<&AppEvent>)
        ensures
            match r {
                Some(e) => exists|i: int|
                    {
                        &&& 0 <= i < self.keybinds@.len()
                        &&& self.keybinds@[i].0 == spec_combo(*key_event)
                        &&& self.keybinds@[i].1 == *e
                        &&& forall|j: int|
                            0 <= j < i ==> self.keybinds@[j].0 != spec_combo(*key_event)
                    },
                None => forall|i: int|
                    0 <= i < self.keybinds@.len() ==> self.keybinds@[i].0 != spec_combo(
                        *key_event,
                    ),
            },
    {
        let combo = KeyCombo::new(key_event.code, key_event.modifiers);
        let mut i: usize = 0;
        while i < self.keybinds.len()
            invariant
                i <= self.keybinds@.len(),
                combo == spec_combo(*key_event),
                forall|j: int| 0 <= j < i ==> self.keybinds@[j].0 != spec_combo(*key_event),
            decreases self.keybinds@.len() - i,
        {
            if self.keybinds[i].0 == combo {
                return Some(&self.keybinds[i].1);
            }
            i = i + 1;
        }
        None
    }
}

} // verus!
