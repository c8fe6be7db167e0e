use traytui::config::{Config, KeyCombo};
use traytui::event::{AppEvent, KeyCode, KeyEvent, KeyModifiers};

fn no_mods() -> KeyModifiers {
    KeyModifiers {
        shift: false,
        control: false,
        alt: false,
    }
}

#[test]
fn key_combo_new_keeps_its_parts() {
    let combo = KeyCombo::new(KeyCode::Enter, no_mods());
    assert_eq!(combo.code, KeyCode::Enter);
    assert_eq!(combo.modifiers, no_mods());
}

#[test]
fn default_table_binds_the_documented_keys() {
    let config = Config::default();
    let cases = [
        (KeyCode::Esc, no_mods(), AppEvent::Quit),
        (KeyCode::Char('q'), no_mods(), AppEvent::Quit),
        (
            KeyCode::Char('c'),
            KeyModifiers {
                shift: false,
                control: true,
                alt: false,
            },
            AppEvent::Quit,
        ),
        (KeyCode::Up, no_mods(), AppEvent::ActionPrev),
        (KeyCode::Char('k'), no_mods(), AppEvent::ActionPrev),
        (KeyCode::Down, no_mods(), AppEvent::ActionNext),
        (KeyCode::Char('j'), no_mods(), AppEvent::ActionNext),
        (KeyCode::Left, no_mods(), AppEvent::AppPrev),
        (KeyCode::Char('h'), no_mods(), AppEvent::AppPrev),
        (KeyCode::Right, no_mods(), AppEvent::AppNext),
        (KeyCode::Char('l'), no_mods(), AppEvent::AppNext),
        (KeyCode::Char(' '), no_mods(), AppEvent::ToggleActionNode),
        (KeyCode::Enter, no_mods(), AppEvent::ActivateAction),
    ];
    for (code, modifiers, expected) in cases {
        let got = config.get(&KeyEvent { code, modifiers });
        assert_eq!(got, Some(&expected));
    }
}

#[test]
fn unmapped_keys_return_none() {
    let config = Config::default();
    assert_eq!(
        config.get(&KeyEvent {
            code: KeyCode::Char('z'),
            modifiers: no_mods(),
        }),
        None
    );
    // 'q' with control held is not the bound combination.
    assert_eq!(
        config.get(&KeyEvent {
            code: KeyCode::Char('q'),
            modifiers: KeyModifiers {
                shift: false,
                control: true,
                alt: false,
            },
        }),
        None
    );
}
