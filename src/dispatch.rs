//! The shortcut dispatcher: on a key press it finds the binding of the combo
//! and performs its action on the overlay window's geometry or on the
//! command bus.

use vstd::prelude::*;
use crate::commands::CommandState;
use crate::shortcuts::{Binding, Combo, Direction, ShortcutAction};

verus! {

/// How far one move shifts the overlay, in physical pixels.
pub const MOVE_STEP: i32 = 50;

/// How much one resize grows or shrinks the overlay, in physical pixels.
pub const RESIZE_STEP: u32 = 50;

/// The overlay never shrinks below this width or height.
pub const MIN_OVERLAY_SIZE: u32 = 200;

/// The geometry and visibility of the overlay window.
#[derive(Clone, Copy, PartialEq, Eq, Structural, Debug)]
pub struct OverlayWindow {
    pub x: i32,
    pub y: i32,
    pub width: u32,
    pub height: u32,
    pub visible: bool,
}

/// Whether the OS reports the key going down or coming up.
#[derive(Clone, Copy, PartialEq, Eq, Structural, Debug)]
pub enum KeyState {
    Pressed,
    Released,
}

/// The shift of one move, as (dx, dy).
pub open spec fn move_delta(d: Direction) -> (int, int) {
    match d {
        Direction::Up => (0, -MOVE_STEP),
        Direction::Down => (0, MOVE_STEP as int),
        Direction::Left => (-MOVE_STEP, 0),
        Direction::Right => (MOVE_STEP as int, 0),
    }
}

/// A side length after a change of `by`, kept at or above the minimum and
/// within `u32`.
pub open spec fn clamp_size(len: u32, by: int) -> u32 {
    let n = len + by;
    if n < MIN_OVERLAY_SIZE {
        MIN_OVERLAY_SIZE
    } else if n > u32::MAX {
        u32::MAX
    } else {
        n as u32
    }
}

/// Whether `action` on `w` stays within the coordinate range.
pub open spec fn action_fits(w: OverlayWindow, action: ShortcutAction) -> bool {
    match action {
        ShortcutAction::Move(d) => i32::MIN <= w.x + move_delta(d).0 <= i32::MAX && i32::MIN
            <= w.y + move_delta(d).1 <= i32::MAX,
        _ => true,
    }
}

/// The overlay after `action`.
pub open spec fn after_action(w: OverlayWindow, action: ShortcutAction) -> OverlayWindow {
    match action {
        ShortcutAction::ToggleOverlay => OverlayWindow { visible: !w.visible, ..w },
        ShortcutAction::Move(d) => OverlayWindow {
            x: (w.x + move_delta(d).0) as i32,
            y: (w.y + move_delta(d).1) as i32,
            ..w
        },
        ShortcutAction::Resize(d) => match d {
            Direction::Up => OverlayWindow { height: clamp_size(w.height, RESIZE_STEP as int), ..w },
            Direction::Down => OverlayWindow { height: clamp_size(w.height, -RESIZE_STEP), ..w },
            Direction::Left => OverlayWindow { width: clamp_size(w.width, -RESIZE_STEP), ..w },
            Direction::Right => OverlayWindow { width: clamp_size(w.width, RESIZE_STEP as int), ..w },
        },
        ShortcutAction::ToggleAgent => w,
    }
}

/// Whether `action` changes the geometry, after which click-through must be
/// set again.
pub open spec fn changes_geometry(action: ShortcutAction) -> bool {
    action is Move || action is Resize
}

/// `i` is the first binding of `c`.
pub open spec fn is_first_match(s: Seq<Binding>, c: Combo, i: int) -> bool {
    0 <= i < s.len() && s[i].combo == c && forall|j: int| 0 <= j < i ==> s[j].combo != c
}

/// No binding has `c`.
pub open spec fn no_match(s: Seq<Binding>, c: Combo) -> bool {
    forall|j: int| 0 <= j < s.len() ==> s[j].combo != c
}

/// The position of the first binding of `pressed`.
pub fn find_binding(bindings: &Vec<Binding>, pressed: &Combo) -> (r: Option<usize>)
    ensures
        r is None <==> no_match(bindings@, *pressed),
        r is Some ==> is_first_match(bindings@, *pressed, r->Some_0 as int),
{
    let mut i: usize = 0;
    while i < bindings.len()
        invariant
            i <= bindings@.len(),
            forall|j: int| 0 <= j < i ==> bindings@[j].combo != *pressed,
        decreases bindings@.len() - i,
    {
        if bindings[i].combo == *pressed {
            return Some(i);
        }
        i = i + 1;
    }
    None
}

/// A side length grown or shrunk by one step, clamped.
fn resized(len: u32, grow: bool) -> (r: u32)
    ensures
        grow ==> r == clamp_size(len, RESIZE_STEP as int),
        !grow ==> r == clamp_size(len, -RESIZE_STEP),
{
    if grow {
        if len > u32::MAX - RESIZE_STEP {
            u32::MAX
        } else if len + RESIZE_STEP < MIN_OVERLAY_SIZE {
            MIN_OVERLAY_SIZE
        } else {
            len + RESIZE_STEP
        }
    } else {
        if len < MIN_OVERLAY_SIZE + RESIZE_STEP {
            MIN_OVERLAY_SIZE
        } else {
            len - RESIZE_STEP
        }
    }
}

/// Performs `action` on the overlay geometry and says whether click-through
/// must be set again afterwards.
pub fn apply_action(window: &mut OverlayWindow, action: ShortcutAction) -> (reassert_click_through:
    bool)
    requires
        action_fits(*old(window), action),
    ensures
        *final(window) == after_action(*old(window), action),
        reassert_click_through == changes_geometry(action),
{
    match action {
        ShortcutAction::ToggleOverlay => {
            window.visible = !window.visible;
            false
        },
        ShortcutAction::Move(d) => {
            match d {
                Direction::Up => window.y = window.y - MOVE_STEP,
                Direction::Down => window.y = window.y + MOVE_STEP,
                Direction::Left => window.x = window.x - MOVE_STEP,
                Direction::Right => window.x = window.x + MOVE_STEP,
            }
            true
        },
        ShortcutAction::Resize(d) => {
            match d {
                Direction::Up => window.height = resized(window.height, true),
                Direction::Down => window.height = resized(window.height, false),
                Direction::Left => window.width = resized(window.width, false),
                Direction::Right => window.width = resized(window.width, true),
            }
            true
        },
        ShortcutAction::ToggleAgent => false,
    }
}

/// Handles one key event. Only a press acts; a release, or a combo that no
/// binding has, changes nothing. A press of a bound combo performs its
/// action on the overlay, or issues a toggle for the binding's agent.
/// The result says whether click-through must be set again.
pub fn dispatch_press(
    bindings: &Vec<Binding>,
    pressed: &Combo,
    state: KeyState,
    window: &mut OverlayWindow,
    bus: &mut CommandState,
) -> (reassert_click_through: bool)
    requires
        old(bus).wf(),
        forall|i: int|
            state == KeyState::Pressed && is_first_match(bindings@, *pressed, i) ==> action_fits(
                *old(window),
                #[trigger] bindings@[i].action,
            ),
    ensures
        final(bus).wf(),
        final(bus).channel() == old(bus).channel(),
        state == KeyState::Released || no_match(bindings@, *pressed) ==> *final(window)
            == *old(window) && final(bus).pending_map() == old(bus).pending_map()
            && !reassert_click_through,
        forall|i: int|
            state == KeyState::Pressed && is_first_match(bindings@, *pressed, i) ==> {
                let b = #[trigger] bindings@[i];
                &&& *final(window) == after_action(*old(window), b.action)
                &&& reassert_click_through == changes_geometry(b.action)
                &&& final(bus).pending_map() == if b.action == ShortcutAction::ToggleAgent {
                    old(bus).pending_map().insert(b.agent_id@, "toggle"@)
                } else {
                    old(bus).pending_map()
                }
            },
{
    if state == KeyState::Released {
        return false;
    }
    match find_binding(bindings, pressed) {
        None => false,
        Some(i) => {
            let action = bindings[i].action;
            if action == ShortcutAction::ToggleAgent {
                crate::commands::add_toggle_command(bus, bindings[i].agent_id.clone());
                false
            } else {
                apply_action(window, action)
            }
        },
    }
}

/// The combos currently held down.
pub struct HeldKeys {
    held: Vec<Combo>,
}

impl HeldKeys {
    /// Each held combo appears once.
    pub closed spec fn wf(&self) -> bool {
        self.held@.no_duplicates()
    }

    /// The held combos.
    pub closed spec fn held_set(&self) -> Set<Combo> {
        self.held@.to_set()
    }

    /// Nothing held.
    pub fn new() -> (r: Self)
        ensures
            r.wf(),
            r.held_set() == Set::<Combo>::empty(),
    {
        let r = HeldKeys { held: Vec::new() };
        assert(r.held@.to_set() =~= Set::<Combo>::empty());
        r
    }

    fn position(&self, combo: &Combo) -> (r: Option<usize>)
        ensures
            r is None ==> !self.held@.contains(*combo),
            r is Some ==> r->Some_0 < self.held@.len() && self.held@[r->Some_0 as int] == *combo,
    {
        let mut i: usize = 0;
        while i < self.held.len()
            invariant
                i <= self.held@.len(),
                forall|j: int| 0 <= j < i ==> self.held@[j] != *combo,
            decreases self.held@.len() - i,
        {
            if self.held[i] == *combo {
                return Some(i);
            }
            i = i + 1;
        }
        None
    }

    /// Records a key event and says whether it is the transition into the
    /// pressed state: a press of a combo that was not already held.
    pub fn record(&mut self, combo: Combo, state: KeyState) -> (fires: bool)
        requires
            old(self).wf(),
        ensures
            final(self).wf(),
            fires == (state == KeyState::Pressed && !old(self).held_set().contains(combo)),
            state == KeyState::Pressed ==> final(self).held_set() == old(self).held_set().insert(
                combo,
            ),
            state == KeyState::Released ==> final(self).held_set() == old(self).held_set().remove(
                combo,
            ),
    {
        let pos = self.position(&combo);
        let found = pos.is_some();
        let i: usize = match pos {
            Some(k) => k,
            None => 0,
        };
        assert(!found ==> !self.held@.contains(combo));
        assert(found ==> self.held@.contains(combo));
        let ghost before = self.held@;
        if state == KeyState::Pressed {
            if !found {
                self.held.push(combo);
                assert(self.held@.to_set() =~= before.to_set().insert(combo)) by {
                    assert(self.held@[before.len() as int] == combo);
                    assert forall|c: Combo| before.contains(c) implies self.held@.contains(c) by {
                        let k = choose|k: int| 0 <= k < before.len() && before[k] == c;
                        assert(self.held@[k] == c);
                    }
                    assert forall|c: Combo| self.held@.contains(c) implies c == combo
                        || before.contains(c) by {
                        let k = choose|k: int| 0 <= k < self.held@.len() && self.held@[k] == c;
                        if k < before.len() {
                            assert(before[k] == c);
                        }
                    }
                }
            } else {
                assert(before.to_set() =~= before.to_set().insert(combo));
            }
            !found
        } else {
            if found {
                self.held.remove(i);
                assert forall|k: int| 0 <= k < before.len() && k != i implies before[k] != combo by {
                }
                assert(self.held@.to_set() =~= before.to_set().remove(combo)) by {
                    assert forall|c: Combo| self.held@.contains(c) implies c != combo && before.contains(c) by {
                        let k = choose|k: int| 0 <= k < self.held@.len() && self.held@[k] == c;
                        if k < i {
                            assert(before[k] == c);
                        } else {
                            assert(before[k + 1] == c);
                        }
                    }
                    assert forall|c: Combo| before.contains(c) && c != combo implies self.held@.contains(c) by {
                        let k = choose|k: int| 0 <= k < before.len() && before[k] == c;
                        if k < i {
                            assert(self.held@[k] == c);
                        } else {
                            assert(k != i);
                            assert(self.held@[k - 1] == c);
                        }
                    }
                }
            } else {
                assert(before.to_set() =~= before.to_set().remove(combo));
            }
            false
        }
    }
}

/// Handles one key event, edge-triggered: only the transition of a combo
/// into the pressed state acts, as `dispatch_press` does for a press; a
/// repeat while the combo is held, or a release, changes nothing but the
/// held set.
pub fn dispatch_key_event(
    held: &mut HeldKeys,
    bindings: &Vec<Binding>,
    pressed: &Combo,
    state: KeyState,
    window: &mut OverlayWindow,
    bus: &mut CommandState,
) -> (reassert_click_through: bool)
    requires
        old(held).wf(),
        old(bus).wf(),
        forall|i: int|
            state == KeyState::Pressed && !old(held).held_set().contains(*pressed)
                && is_first_match(bindings@, *pressed, i) ==> action_fits(
                *old(window),
                #[trigger] bindings@[i].action,
            ),
    ensures
        final(held).wf(),
        final(bus).wf(),
        final(bus).channel() == old(bus).channel(),
        state == KeyState::Pressed ==> final(held).held_set() == old(held).held_set().insert(
            *pressed,
        ),
        state == KeyState::Released ==> final(held).held_set() == old(held).held_set().remove(
            *pressed,
        ),
        state == KeyState::Released || old(held).held_set().contains(*pressed) || no_match(
            bindings@,
            *pressed,
        ) ==> *final(window) == *old(window) && final(bus).pending_map() == old(
            bus,
        ).pending_map() && !reassert_click_through,
        forall|i: int|
            state == KeyState::Pressed && !old(held).held_set().contains(*pressed)
                && is_first_match(bindings@, *pressed, i) ==> {
                let b = #[trigger] bindings@[i];
                &&& *final(window) == after_action(*old(window), b.action)
                &&& reassert_click_through == changes_geometry(b.action)
                &&& final(bus).pending_map() == if b.action == ShortcutAction::ToggleAgent {
                    old(bus).pending_map().insert(b.agent_id@, "toggle"@)
                } else {
                    old(bus).pending_map()
                }
            },
{
    if !held.record(*pressed, state) {
        return false;
    }
    dispatch_press(bindings, pressed, KeyState::Pressed, window, bus)
}

/// Two moves in the same direction shift the overlay by exactly twice the
/// step, and each of them asks for click-through to be set again.
pub proof fn lemma_two_moves(w: OverlayWindow, d: Direction)
    requires
        i32::MIN <= w.x + 2 * move_delta(d).0 <= i32::MAX,
        i32::MIN <= w.y + 2 * move_delta(d).1 <= i32::MAX,
    ensures
        action_fits(w, ShortcutAction::Move(d)),
        action_fits(after_action(w, ShortcutAction::Move(d)), ShortcutAction::Move(d)),
        after_action(after_action(w, ShortcutAction::Move(d)), ShortcutAction::Move(d)).x == w.x
            + 2 * move_delta(d).0,
        after_action(after_action(w, ShortcutAction::Move(d)), ShortcutAction::Move(d)).y == w.y
            + 2 * move_delta(d).1,
        changes_geometry(ShortcutAction::Move(d)),
{
}

} // verus!
