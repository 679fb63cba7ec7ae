use observer_core::commands::CommandState;
use observer_core::dispatch::{
    apply_action, dispatch_key_event, dispatch_press, find_binding, HeldKeys, KeyState, OverlayWindow, MIN_OVERLAY_SIZE,
    MOVE_STEP,
};
use observer_core::shortcuts::{
    collect_bindings, parse_shortcut_string, Direction, ShortcutAction, ShortcutConfig,
};

fn window() -> OverlayWindow {
    OverlayWindow { x: 50, y: 50, width: 300, height: 200, visible: true }
}

#[test]
fn two_moves_shift_by_twice_the_step() {
    let mut w = window();
    assert!(apply_action(&mut w, ShortcutAction::Move(Direction::Right)));
    assert!(apply_action(&mut w, ShortcutAction::Move(Direction::Right)));
    assert_eq!((w.x, w.y), (50 + 2 * MOVE_STEP, 50));
    assert!(apply_action(&mut w, ShortcutAction::Move(Direction::Up)));
    assert!(apply_action(&mut w, ShortcutAction::Move(Direction::Up)));
    assert_eq!((w.x, w.y), (150, -50));
}

#[test]
fn resize_clamps_at_the_minimum() {
    let mut w = window();
    assert!(apply_action(&mut w, ShortcutAction::Resize(Direction::Down)));
    assert_eq!(w.height, MIN_OVERLAY_SIZE);
    assert!(apply_action(&mut w, ShortcutAction::Resize(Direction::Up)));
    assert_eq!(w.height, 250);
    assert!(apply_action(&mut w, ShortcutAction::Resize(Direction::Left)));
    assert_eq!(w.width, 250);
    assert!(apply_action(&mut w, ShortcutAction::Resize(Direction::Right)));
    assert_eq!(w.width, 300);
}

#[test]
fn resize_saturates_at_the_maximum() {
    let mut w = OverlayWindow { width: u32::MAX - 10, ..window() };
    apply_action(&mut w, ShortcutAction::Resize(Direction::Right));
    assert_eq!(w.width, u32::MAX);
}

#[test]
fn toggle_flips_visibility_without_click_through() {
    let mut w = window();
    assert!(!apply_action(&mut w, ShortcutAction::ToggleOverlay));
    assert!(!w.visible);
    apply_action(&mut w, ShortcutAction::ToggleOverlay);
    assert!(w.visible);
}

#[test]
fn press_of_bound_combo_moves_overlay() {
    let b = collect_bindings(&ShortcutConfig::default(), &Vec::new());
    let mut bus = CommandState::new();
    let mut w = window();
    let pressed = parse_shortcut_string("Cmd+ArrowDown").unwrap();
    assert_eq!(find_binding(&b, &pressed), Some(2));
    assert!(dispatch_press(&b, &pressed, KeyState::Pressed, &mut w, &mut bus));
    assert!(dispatch_press(&b, &pressed, KeyState::Pressed, &mut w, &mut bus));
    assert_eq!(w.y, 150);
}

#[test]
fn release_and_unbound_combo_do_nothing() {
    let b = collect_bindings(&ShortcutConfig::default(), &Vec::new());
    let mut bus = CommandState::new();
    let mut w = window();
    let pressed = parse_shortcut_string("Cmd+ArrowDown").unwrap();
    assert!(!dispatch_press(&b, &pressed, KeyState::Released, &mut w, &mut bus));
    let other = parse_shortcut_string("Ctrl+Q").unwrap();
    assert_eq!(find_binding(&b, &other), None);
    assert!(!dispatch_press(&b, &other, KeyState::Pressed, &mut w, &mut bus));
    assert_eq!(w, window());
}

#[test]
fn agent_shortcut_issues_a_toggle() {
    let agents = vec![("agent-3".to_string(), "Alt+3".to_string())];
    let cfg = ShortcutConfig::default();
    let b = collect_bindings(&cfg, &agents);
    let mut bus = CommandState::new();
    let mut rx = bus.subscribe();
    let mut w = window();
    let pressed = parse_shortcut_string("Alt+3").unwrap();
    assert!(!dispatch_press(&b, &pressed, KeyState::Pressed, &mut w, &mut bus));
    assert_eq!(w, window());
    assert_eq!(bus.list_pending(), vec![("agent-3".to_string(), "toggle".to_string())]);
    assert_eq!(rx.try_recv().unwrap().agent_id, "agent-3");
}

#[test]
fn held_key_repeats_are_ignored() {
    let b = collect_bindings(&ShortcutConfig::default(), &Vec::new());
    let mut bus = CommandState::new();
    let mut held = HeldKeys::new();
    let mut w = window();
    let down = parse_shortcut_string("Cmd+ArrowDown").unwrap();
    assert!(dispatch_key_event(&mut held, &b, &down, KeyState::Pressed, &mut w, &mut bus));
    assert!(!dispatch_key_event(&mut held, &b, &down, KeyState::Pressed, &mut w, &mut bus));
    assert!(!dispatch_key_event(&mut held, &b, &down, KeyState::Pressed, &mut w, &mut bus));
    assert_eq!(w.y, 100);
    assert!(!dispatch_key_event(&mut held, &b, &down, KeyState::Released, &mut w, &mut bus));
    assert!(dispatch_key_event(&mut held, &b, &down, KeyState::Pressed, &mut w, &mut bus));
    assert_eq!(w.y, 150);
}

#[test]
fn held_keys_track_each_combo() {
    let mut held = HeldKeys::new();
    let a = parse_shortcut_string("Cmd+A").unwrap();
    let c = parse_shortcut_string("Cmd+C").unwrap();
    assert!(held.record(a, KeyState::Pressed));
    assert!(held.record(c, KeyState::Pressed));
    assert!(!held.record(a, KeyState::Pressed));
    assert!(!held.record(a, KeyState::Released));
    assert!(held.record(a, KeyState::Pressed));
    assert!(!held.record(c, KeyState::Pressed));
}

#[test]
fn release_of_edge_move_needs_no_room() {
    let b = collect_bindings(&ShortcutConfig::default(), &Vec::new());
    let mut bus = CommandState::new();
    let mut w = OverlayWindow { y: i32::MIN, ..window() };
    let up = parse_shortcut_string("Cmd+ArrowUp").unwrap();
    assert!(!dispatch_press(&b, &up, KeyState::Released, &mut w, &mut bus));
    assert_eq!(w.y, i32::MIN);
}
