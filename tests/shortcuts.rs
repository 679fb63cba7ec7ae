use observer_core::shortcuts::{
    collect_bindings, describe_binding, parse_shortcut_string, AppShortcutState, Combo, Direction,
    Key, Modifiers, ShortcutAction, ShortcutConfig,
};

fn mods(super_key: bool, alt: bool, control: bool, shift: bool) -> Modifiers {
    Modifiers { super_key, alt, control, shift }
}

fn empty_config() -> ShortcutConfig {
    ShortcutConfig {
        toggle: None,
        move_up: None,
        move_down: None,
        move_left: None,
        move_right: None,
        resize_up: None,
        resize_down: None,
        resize_left: None,
        resize_right: None,
    }
}

#[test]
fn parses_cmd_arrow_up() {
    assert_eq!(
        parse_shortcut_string("Cmd+ArrowUp"),
        Some(Combo { modifiers: mods(true, false, false, false), key: Key::ArrowUp })
    );
}

#[test]
fn parses_bare_key() {
    assert_eq!(
        parse_shortcut_string("B"),
        Some(Combo { modifiers: mods(false, false, false, false), key: Key::Letter('B') })
    );
}

#[test]
fn rejects_unknown_modifier() {
    assert_eq!(parse_shortcut_string("Foo+ArrowUp"), None);
}

#[test]
fn parses_several_modifiers_with_spaces() {
    assert_eq!(
        parse_shortcut_string(" Ctrl + Alt+Shift +F10 "),
        Some(Combo { modifiers: mods(false, true, true, true), key: Key::Function(10) })
    );
    assert_eq!(
        parse_shortcut_string("Super+7"),
        Some(Combo { modifiers: mods(true, false, false, false), key: Key::Digit('7') })
    );
}

#[test]
fn rejects_bad_keys() {
    assert_eq!(parse_shortcut_string(""), None);
    assert_eq!(parse_shortcut_string("Cmd+"), None);
    assert_eq!(parse_shortcut_string("Cmd+b"), None);
    assert_eq!(parse_shortcut_string("Cmd+F13"), None);
    assert_eq!(parse_shortcut_string("Cmd+Alt"), None);
    assert_eq!(parse_shortcut_string("ArrowUp+Cmd"), None);
}

#[test]
fn special_keys_parse() {
    for (name, key) in [
        ("PageDown", Key::PageDown),
        ("Escape", Key::Escape),
        ("Space", Key::Space),
        ("F1", Key::Function(1)),
        ("F12", Key::Function(12)),
    ] {
        assert_eq!(parse_shortcut_string(name).map(|c| c.key), Some(key));
    }
}

#[test]
fn unparsable_binding_is_dropped_and_others_stay() {
    let mut cfg = empty_config();
    cfg.toggle = Some("Cmd+B".to_string());
    cfg.move_up = Some("Foo+ArrowUp".to_string());
    cfg.move_down = Some("Cmd+ArrowDown".to_string());
    let agents = vec![
        ("a1".to_string(), "Alt+1".to_string()),
        ("a2".to_string(), "".to_string()),
        ("a3".to_string(), "Nope+2".to_string()),
    ];
    let b = collect_bindings(&cfg, &agents);
    assert_eq!(b.len(), 3);
    assert_eq!(b[0].action, ShortcutAction::ToggleOverlay);
    assert_eq!(b[0].combo_text, "Cmd+B");
    assert_eq!(b[1].action, ShortcutAction::Move(Direction::Down));
    assert_eq!(b[2].action, ShortcutAction::ToggleAgent);
    assert_eq!(b[2].agent_id, "a1");
    assert_eq!(b[2].combo.key, Key::Digit('1'));
}

#[test]
fn default_config_binds_all_nine() {
    let cfg = ShortcutConfig::default();
    assert_eq!(cfg.toggle.as_deref(), Some("Cmd+B"));
    assert_eq!(cfg.resize_right.as_deref(), Some("Cmd+Shift+ArrowRight"));
    let b = collect_bindings(&cfg, &Vec::new());
    assert_eq!(b.len(), 9);
    assert_eq!(b[8].action, ShortcutAction::Resize(Direction::Right));
    assert_eq!(b[8].combo.modifiers, mods(true, false, false, true));
    let w = ShortcutConfig::windows_default();
    assert_eq!(w.move_left.as_deref(), Some("Alt+ArrowLeft"));
}

#[test]
fn binding_labels() {
    let mut cfg = empty_config();
    cfg.move_left = Some("Alt+ArrowLeft".to_string());
    let agents = vec![("obs".to_string(), "Ctrl+K".to_string())];
    let b = collect_bindings(&cfg, &agents);
    assert_eq!(describe_binding(&b[0]), "Alt+ArrowLeft move left");
    assert_eq!(describe_binding(&b[1]), "Ctrl+K toggle agent obs");
}

#[test]
fn shortcut_state_keeps_new_config() {
    let mut st = AppShortcutState::new(empty_config());
    assert!(st.active_shortcuts.is_empty());
    st.set_shortcut_config(ShortcutConfig::default());
    assert_eq!(st.config.toggle.as_deref(), Some("Cmd+B"));
}

#[test]
fn shortcut_state_copies() {
    let mut st = AppShortcutState::new(ShortcutConfig::windows_default());
    let c = st.get_shortcut_config();
    assert_eq!(c.toggle.as_deref(), Some("Alt+B"));
    assert_eq!(c.resize_down.as_deref(), Some("Alt+Shift+ArrowDown"));
    let b = collect_bindings(&c, &Vec::new());
    let labels: Vec<String> = b.iter().map(describe_binding).collect();
    assert_eq!(labels[0], "Alt+B toggle");
    assert_eq!(labels[5], "Alt+Shift+ArrowUp resize up");
    st.set_active_shortcuts(labels.clone());
    assert_eq!(st.get_active_shortcuts(), labels);
}
