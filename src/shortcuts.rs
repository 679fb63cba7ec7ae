//! Global shortcuts: the combo parser, the binding table built from the
//! configuration, and the dispatcher that turns a key press into an action on
//! the overlay window or a command on the bus.

use vstd::prelude::*;
use crate::settings::opt_view;

verus! {

/// A set of modifier keys.
#[derive(Clone, Copy, PartialEq, Eq, Structural, Debug)]
pub struct Modifiers {
    pub super_key: bool,
    pub alt: bool,
    pub control: bool,
    pub shift: bool,
}

/// A key that a combo can end in.
#[derive(Clone, Copy, PartialEq, Eq, Structural, Debug)]
pub enum Key {
    /// `A` to `Z`.
    Letter(char),
    /// `0` to `9`.
    Digit(char),
    /// `F1` to `F12`.
    Function(u8),
    ArrowUp,
    ArrowDown,
    ArrowLeft,
    ArrowRight,
    Space,
    Enter,
    Tab,
    Escape,
    Backspace,
    Delete,
    Home,
    End,
    PageUp,
    PageDown,
}

/// A normalized combo: the modifiers held and the key pressed.
#[derive(Clone, Copy, PartialEq, Eq, Structural, Debug)]
pub struct Combo {
    pub modifiers: Modifiers,
    pub key: Key,
}

pub open spec fn no_modifiers() -> Modifiers {
    Modifiers { super_key: false, alt: false, control: false, shift: false }
}

pub open spec fn union(a: Modifiers, b: Modifiers) -> Modifiers {
    Modifiers {
        super_key: a.super_key || b.super_key,
        alt: a.alt || b.alt,
        control: a.control || b.control,
        shift: a.shift || b.shift,
    }
}

/// White space as `char::is_whitespace` has it (the Unicode White_Space
/// property).
pub open spec fn is_white(c: char) -> bool {
    let u = c as u32;
    (0x09 <= u <= 0x0D) || u == 0x20 || u == 0x85 || u == 0xA0 || u == 0x1680 || (0x2000 <= u
        <= 0x200A) || u == 0x2028 || u == 0x2029 || u == 0x202F || u == 0x205F || u == 0x3000
}

pub open spec fn trim_start(s: Seq<char>) -> Seq<char>
    decreases s.len(),
{
    if s.len() > 0 && is_white(s[0]) {
        trim_start(s.drop_first())
    } else {
        s
    }
}

pub open spec fn trim_end(s: Seq<char>) -> Seq<char>
    decreases s.len(),
{
    if s.len() > 0 && is_white(s.last()) {
        trim_end(s.drop_last())
    } else {
        s
    }
}

/// `s` without leading and trailing white space.
pub open spec fn trim(s: Seq<char>) -> Seq<char> {
    trim_end(trim_start(s))
}

/// The pieces of `s` between `+` signs; `n` signs give `n + 1` pieces.
pub open spec fn split_plus(s: Seq<char>) -> Seq<Seq<char>>
    decreases s.len(),
{
    if s.len() == 0 {
        seq![Seq::<char>::empty()]
    } else {
        let prev = split_plus(s.drop_last());
        if s.last() == '+' {
            prev.push(Seq::<char>::empty())
        } else {
            prev.update(prev.len() - 1, prev.last().push(s.last()))
        }
    }
}

/// The modifier that a token names.
pub open spec fn modifier_of(t: Seq<char>) -> Option<Modifiers> {
    if t == "Cmd"@ || t == "Super"@ {
        Some(Modifiers { super_key: true, ..no_modifiers() })
    } else if t == "Alt"@ {
        Some(Modifiers { alt: true, ..no_modifiers() })
    } else if t == "Ctrl"@ {
        Some(Modifiers { control: true, ..no_modifiers() })
    } else if t == "Shift"@ {
        Some(Modifiers { shift: true, ..no_modifiers() })
    } else {
        None
    }
}

/// The key that a token names.
pub open spec fn key_of(t: Seq<char>) -> Option<Key> {
    if t.len() == 1 && 'A' as u32 <= t[0] as u32 <= 'Z' as u32 {
        Some(Key::Letter(t[0]))
    } else if t.len() == 1 && '0' as u32 <= t[0] as u32 <= '9' as u32 {
        Some(Key::Digit(t[0]))
    } else if t == "F1"@ {
        Some(Key::Function(1))
    } else if t == "F2"@ {
        Some(Key::Function(2))
    } else if t == "F3"@ {
        Some(Key::Function(3))
    } else if t == "F4"@ {
        Some(Key::Function(4))
    } else if t == "F5"@ {
        Some(Key::Function(5))
    } else if t == "F6"@ {
        Some(Key::Function(6))
    } else if t == "F7"@ {
        Some(Key::Function(7))
    } else if t == "F8"@ {
        Some(Key::Function(8))
    } else if t == "F9"@ {
        Some(Key::Function(9))
    } else if t == "F10"@ {
        Some(Key::Function(10))
    } else if t == "F11"@ {
        Some(Key::Function(11))
    } else if t == "F12"@ {
        Some(Key::Function(12))
    } else if t == "ArrowUp"@ {
        Some(Key::ArrowUp)
    } else if t == "ArrowDown"@ {
        Some(Key::ArrowDown)
    } else if t == "ArrowLeft"@ {
        Some(Key::ArrowLeft)
    } else if t == "ArrowRight"@ {
        Some(Key::ArrowRight)
    } else if t == "Space"@ {
        Some(Key::Space)
    } else if t == "Enter"@ {
        Some(Key::Enter)
    } else if t == "Tab"@ {
        Some(Key::Tab)
    } else if t == "Escape"@ {
        Some(Key::Escape)
    } else if t == "Backspace"@ {
        Some(Key::Backspace)
    } else if t == "Delete"@ {
        Some(Key::Delete)
    } else if t == "Home"@ {
        Some(Key::Home)
    } else if t == "End"@ {
        Some(Key::End)
    } else if t == "PageUp"@ {
        Some(Key::PageUp)
    } else if t == "PageDown"@ {
        Some(Key::PageDown)
    } else {
        None
    }
}

/// The modifiers that a run of tokens names together, or `None` when one
/// of them names none.
pub open spec fn modifiers_of(ts: Seq<Seq<char>>) -> Option<Modifiers>
    decreases ts.len(),
{
    if ts.len() == 0 {
        Some(no_modifiers())
    } else {
        match (modifiers_of(ts.drop_last()), modifier_of(ts.last())) {
            (Some(m), Some(f)) => Some(union(m, f)),
            _ => None,
        }
    }
}

/// The trimmed tokens of a combo string.
pub open spec fn tokens_of(s: Seq<char>) -> Seq<Seq<char>> {
    split_plus(s).map_values(|p: Seq<char>| trim(p))
}

/// The combo that `s` denotes: every token but the last names a modifier,
/// and the last names the key.
pub open spec fn combo_of(s: Seq<char>) -> Option<Combo> {
    let ts = tokens_of(s);
    if ts.len() == 0 {
        None
    } else {
        match (modifiers_of(ts.drop_last()), key_of(ts.last())) {
            (Some(m), Some(k)) => Some(Combo { modifiers: m, key: k }),
            _ => None,
        }
    }
}

pub open spec fn chars_view(v: Seq<Vec<char>>) -> Seq<Seq<char>> {
    v.map_values(|p: Vec<char>| p@)
}

/// Whether `t` holds exactly the characters of `lit`.
fn chars_are(t: &Vec<char>, lit: &str) -> (r: bool)
    ensures
        r == (t@ == lit@),
{
    let n = lit.unicode_len();
    if t.len() != n {
        return false;
    }
    let mut i: usize = 0;
    while i < n
        invariant
            n == lit@.len(),
            t@.len() == n,
            i <= n,
            forall|j: int| 0 <= j < i ==> t@[j] == lit@[j],
        decreases n - i,
    {
        if t[i] != lit.get_char(i) {
            return false;
        }
        i = i + 1;
    }
    assert(t@ =~= lit@);
    true
}

fn is_white_char(c: char) -> (r: bool)
    ensures
        r == is_white(c),
{
    let u = c as u32;
    (0x09 <= u && u <= 0x0D) || u == 0x20 || u == 0x85 || u == 0xA0 || u == 0x1680 || (0x2000
        <= u && u <= 0x200A) || u == 0x2028 || u == 0x2029 || u == 0x202F || u == 0x205F || u
        == 0x3000
}

/// The characters of `t` without leading and trailing white space.
fn trim_chars(t: &Vec<char>) -> (r: Vec<char>)
    ensures
        r@ == trim(t@),
{
    let n = t.len();
    let mut lo: usize = 0;
    assert(t@.subrange(0, n as int) =~= t@);
    while lo < n && is_white_char(t[lo])
        invariant
            n == t@.len(),
            lo <= n,
            trim_start(t@.subrange(lo as int, n as int)) == trim_start(t@),
        decreases n - lo,
    {
        assert(t@.subrange(lo as int, n as int).drop_first() =~= t@.subrange(lo + 1, n as int));
        lo = lo + 1;
    }
    let ghost mid = t@.subrange(lo as int, n as int);
    assert(trim_start(t@) == mid);
    let mut hi: usize = n;
    while hi > lo && is_white_char(t[hi - 1])
        invariant
            n == t@.len(),
            lo <= hi <= n,
            mid == t@.subrange(lo as int, n as int),
            trim_end(t@.subrange(lo as int, hi as int)) == trim_end(mid),
        decreases hi - lo,
    {
        assert(t@.subrange(lo as int, hi as int).drop_last() =~= t@.subrange(
            lo as int,
            hi - 1,
        ));
        hi = hi - 1;
    }
    let mut r: Vec<char> = Vec::new();
    let mut i: usize = lo;
    while i < hi
        invariant
            n == t@.len(),
            lo <= i <= hi <= n,
            r@ == t@.subrange(lo as int, i as int),
        decreases hi - i,
    {
        r.push(t[i]);
        assert(r@ =~= t@.subrange(lo as int, i + 1));
        i = i + 1;
    }
    r
}

/// The characters of `s` split at each `+`, untrimmed.
fn split_chars(s: &str) -> (r: Vec<Vec<char>>)
    ensures
        chars_view(r@) == split_plus(s@),
{
    let n = s.unicode_len();
    let mut parts: Vec<Vec<char>> = Vec::new();
    let mut cur: Vec<char> = Vec::new();
    let mut i: usize = 0;
    assert(s@.subrange(0, 0) =~= Seq::<char>::empty());
    assert(chars_view(parts@).push(cur@) =~= split_plus(Seq::<char>::empty()));
    while i < n
        invariant
            n == s@.len(),
            i <= n,
            chars_view(parts@).push(cur@) == split_plus(s@.subrange(0, i as int)),
        decreases n - i,
    {
        let c = s.get_char(i);
        let ghost prefix = s@.subrange(0, i + 1);
        assert(prefix.drop_last() =~= s@.subrange(0, i as int));
        assert(prefix.last() == c);
        if c == '+' {
            let ghost old_parts = parts@;
            parts.push(cur);
            cur = Vec::new();
            assert(chars_view(parts@).push(cur@) =~= split_plus(prefix));
        } else {
            let ghost old_parts = parts@;
            cur.push(c);
            assert(chars_view(parts@).push(cur@) =~= split_plus(prefix));
        }
        i = i + 1;
    }
    assert(s@.subrange(0, n as int) =~= s@);
    parts.push(cur);
    assert(chars_view(parts@) =~= split_plus(s@));
    parts
}

/// The modifier that a token names.
fn modifier_of_chars(t: &Vec<char>) -> (r: Option<Modifiers>)
    ensures
        r == modifier_of(t@),
{
    let none = Modifiers { super_key: false, alt: false, control: false, shift: false };
    if chars_are(t, "Cmd") || chars_are(t, "Super") {
        Some(Modifiers { super_key: true, ..none })
    } else if chars_are(t, "Alt") {
        Some(Modifiers { alt: true, ..none })
    } else if chars_are(t, "Ctrl") {
        Some(Modifiers { control: true, ..none })
    } else if chars_are(t, "Shift") {
        Some(Modifiers { shift: true, ..none })
    } else {
        None
    }
}

/// The key that a token names.
fn key_of_chars(t: &Vec<char>) -> (r: Option<Key>)
    ensures
        r == key_of(t@),
{
    if t.len() == 1 && 'A' as u32 <= t[0] as u32 && t[0] as u32 <= 'Z' as u32 {
        Some(Key::Letter(t[0]))
    } else if t.len() == 1 && '0' as u32 <= t[0] as u32 && t[0] as u32 <= '9' as u32 {
        Some(Key::Digit(t[0]))
    } else if chars_are(t, "F1") {
        Some(Key::Function(1))
    } else if chars_are(t, "F2") {
        Some(Key::Function(2))
    } else if chars_are(t, "F3") {
        Some(Key::Function(3))
    } else if chars_are(t, "F4") {
        Some(Key::Function(4))
    } else if chars_are(t, "F5") {
        Some(Key::Function(5))
    } else if chars_are(t, "F6") {
        Some(Key::Function(6))
    } else if chars_are(t, "F7") {
        Some(Key::Function(7))
    } else if chars_are(t, "F8") {
        Some(Key::Function(8))
    } else if chars_are(t, "F9") {
        Some(Key::Function(9))
    } else if chars_are(t, "F10") {
        Some(Key::Function(10))
    } else if chars_are(t, "F11") {
        Some(Key::Function(11))
    } else if chars_are(t, "F12") {
        Some(Key::Function(12))
    } else if chars_are(t, "ArrowUp") {
        Some(Key::ArrowUp)
    } else if chars_are(t, "ArrowDown") {
        Some(Key::ArrowDown)
    } else if chars_are(t, "ArrowLeft") {
        Some(Key::ArrowLeft)
    } else if chars_are(t, "ArrowRight") {
        Some(Key::ArrowRight)
    } else if chars_are(t, "Space") {
        Some(Key::Space)
    } else if chars_are(t, "Enter") {
        Some(Key::Enter)
    } else if chars_are(t, "Tab") {
        Some(Key::Tab)
    } else if chars_are(t, "Escape") {
        Some(Key::Escape)
    } else if chars_are(t, "Backspace") {
        Some(Key::Backspace)
    } else if chars_are(t, "Delete") {
        Some(Key::Delete)
    } else if chars_are(t, "Home") {
        Some(Key::Home)
    } else if chars_are(t, "End") {
        Some(Key::End)
    } else if chars_are(t, "PageUp") {
        Some(Key::PageUp)
    } else if chars_are(t, "PageDown") {
        Some(Key::PageDown)
    } else {
        None
    }
}

/// Parses a combo string such as `"Cmd+Shift+ArrowUp"`: it is split at each
/// `+` and each token trimmed; the last token is the key and the ones before
/// it are modifiers. An unknown token gives `None`.
pub fn parse_shortcut_string(shortcut_str: &str) -> (r: Option<Combo>)
    ensures
        r == combo_of(shortcut_str@),
{
    let raw = split_chars(shortcut_str);
    let n = raw.len();
    let ghost ts = tokens_of(shortcut_str@);
    assert(ts.len() == n);
    let mut modifiers: Option<Modifiers> = Some(
        Modifiers { super_key: false, alt: false, control: false, shift: false },
    );
    let mut i: usize = 0;
    assert(ts.subrange(0, 0) =~= Seq::<Seq<char>>::empty());
    while i + 1 < n
        invariant
            n == raw@.len(),
            n == ts.len(),
            ts == tokens_of(shortcut_str@),
            chars_view(raw@) == split_plus(shortcut_str@),
            i < n || n == 0,
            i <= n,
            modifiers == modifiers_of(ts.subrange(0, i as int)),
        decreases n - i,
    {
        let token = trim_chars(&raw[i]);
        assert(token@ == ts[i as int]);
        let f = modifier_of_chars(&token);
        assert(ts.subrange(0, i + 1).drop_last() =~= ts.subrange(0, i as int));
        modifiers =
        match (modifiers, f) {
            (Some(m), Some(g)) => Some(
                Modifiers {
                    super_key: m.super_key || g.super_key,
                    alt: m.alt || g.alt,
                    control: m.control || g.control,
                    shift: m.shift || g.shift,
                },
            ),
            _ => None,
        };
        i = i + 1;
    }
    if n == 0 {
        return None;
    }
    assert(ts.subrange(0, i as int) =~= ts.drop_last());
    let last = trim_chars(&raw[n - 1]);
    assert(last@ == ts.last());
    match (modifiers, key_of_chars(&last)) {
        (Some(m), Some(k)) => Some(Combo { modifiers: m, key: k }),
        _ => None,
    }
}

/// A direction on screen.
#[derive(Clone, Copy, PartialEq, Eq, Structural, Debug)]
pub enum Direction {
    Up,
    Down,
    Left,
    Right,
}

/// What a shortcut does when pressed.
#[derive(Clone, Copy, PartialEq, Eq, Structural, Debug)]
pub enum ShortcutAction {
    /// Show the overlay if hidden, hide it if shown.
    ToggleOverlay,
    /// Move the overlay one step.
    Move(Direction),
    /// Grow or shrink the overlay one step.
    Resize(Direction),
    /// Issue a toggle command for the binding's agent.
    ToggleAgent,
}

/// The configured combo strings of the overlay shortcuts; `None` leaves a
/// shortcut unbound.
pub struct ShortcutConfig {
    pub toggle: Option<String>,
    pub move_up: Option<String>,
    pub move_down: Option<String>,
    pub move_left: Option<String>,
    pub move_right: Option<String>,
    pub resize_up: Option<String>,
    pub resize_down: Option<String>,
    pub resize_left: Option<String>,
    pub resize_right: Option<String>,
}

/// One active binding: the parsed combo, the string it came from, the action
/// and, for an agent toggle, the agent.
pub struct Binding {
    pub combo: Combo,
    pub combo_text: String,
    pub action: ShortcutAction,
    pub agent_id: String,
}

/// A binding seen as (combo, action, agent).
pub open spec fn binding_view(b: Binding) -> (Combo, ShortcutAction, Seq<char>) {
    (b.combo, b.action, b.agent_id@)
}

pub open spec fn bindings_view(s: Seq<Binding>) -> Seq<(Combo, ShortcutAction, Seq<char>)> {
    s.map_values(|b: Binding| binding_view(b))
}

/// The binding that one overlay slot contributes: none when unset or when
/// its string does not parse.
pub open spec fn slot_bindings(text: Option<Seq<char>>, action: ShortcutAction) -> Seq<
    (Combo, ShortcutAction, Seq<char>),
> {
    match text {
        Some(t) => match combo_of(t) {
            Some(c) => seq![(c, action, Seq::<char>::empty())],
            None => Seq::empty(),
        },
        None => Seq::empty(),
    }
}

/// The binding that one agent shortcut contributes: none when its string is
/// empty or does not parse.
pub open spec fn agent_slot(agent_id: Seq<char>, text: Seq<char>) -> Seq<
    (Combo, ShortcutAction, Seq<char>),
> {
    if text.len() > 0 {
        match combo_of(text) {
            Some(c) => seq![(c, ShortcutAction::ToggleAgent, agent_id)],
            None => Seq::empty(),
        }
    } else {
        Seq::empty()
    }
}

/// The overlay bindings of a configuration, in slot order.
pub open spec fn config_bindings(c: ShortcutConfig) -> Seq<(Combo, ShortcutAction, Seq<char>)> {
    slot_bindings(opt_view(c.toggle), ShortcutAction::ToggleOverlay) + slot_bindings(
        opt_view(c.move_up),
        ShortcutAction::Move(Direction::Up),
    ) + slot_bindings(opt_view(c.move_down), ShortcutAction::Move(Direction::Down))
        + slot_bindings(opt_view(c.move_left), ShortcutAction::Move(Direction::Left))
        + slot_bindings(opt_view(c.move_right), ShortcutAction::Move(Direction::Right))
        + slot_bindings(opt_view(c.resize_up), ShortcutAction::Resize(Direction::Up))
        + slot_bindings(opt_view(c.resize_down), ShortcutAction::Resize(Direction::Down))
        + slot_bindings(opt_view(c.resize_left), ShortcutAction::Resize(Direction::Left))
        + slot_bindings(opt_view(c.resize_right), ShortcutAction::Resize(Direction::Right))
}

/// The agent bindings, in the order of the (agent, combo string) pairs.
pub open spec fn agent_bindings(agents: Seq<(String, String)>) -> Seq<
    (Combo, ShortcutAction, Seq<char>),
>
    decreases agents.len(),
{
    if agents.len() == 0 {
        Seq::empty()
    } else {
        agent_bindings(agents.drop_last()) + agent_slot(agents.last().0@, agents.last().1@)
    }
}

/// `c` is the default configuration built on `modifier`: it plus `B`
/// toggles, it plus an arrow moves, and it plus `Shift` plus an arrow
/// resizes.
pub open spec fn is_default_under(modifier: Seq<char>, c: ShortcutConfig) -> bool {
    &&& opt_view(c.toggle) == Some(modifier + "+B"@)
    &&& opt_view(c.move_up) == Some(modifier + "+ArrowUp"@)
    &&& opt_view(c.move_down) == Some(modifier + "+ArrowDown"@)
    &&& opt_view(c.move_left) == Some(modifier + "+ArrowLeft"@)
    &&& opt_view(c.move_right) == Some(modifier + "+ArrowRight"@)
    &&& opt_view(c.resize_up) == Some(modifier + "+Shift+ArrowUp"@)
    &&& opt_view(c.resize_down) == Some(modifier + "+Shift+ArrowDown"@)
    &&& opt_view(c.resize_left) == Some(modifier + "+Shift+ArrowLeft"@)
    &&& opt_view(c.resize_right) == Some(modifier + "+Shift+ArrowRight"@)
}

fn clone_opt(o: &Option<String>) -> (r: Option<String>)
    ensures
        opt_view(r) == opt_view(*o),
{
    match o {
        Some(s) => Some(s.clone()),
        None => None,
    }
}

impl ShortcutConfig {
    /// The default bindings built on `modifier`.
    pub fn with_modifier(modifier: &str) -> (r: Self)
        ensures
            is_default_under(modifier@, r),
    {
        ShortcutConfig {
            toggle: Some(String::from_str(modifier).concat("+B")),
            move_up: Some(String::from_str(modifier).concat("+ArrowUp")),
            move_down: Some(String::from_str(modifier).concat("+ArrowDown")),
            move_left: Some(String::from_str(modifier).concat("+ArrowLeft")),
            move_right: Some(String::from_str(modifier).concat("+ArrowRight")),
            resize_up: Some(String::from_str(modifier).concat("+Shift+ArrowUp")),
            resize_down: Some(String::from_str(modifier).concat("+Shift+ArrowDown")),
            resize_left: Some(String::from_str(modifier).concat("+Shift+ArrowLeft")),
            resize_right: Some(String::from_str(modifier).concat("+Shift+ArrowRight")),
        }
    }

    /// The defaults on Windows, built on `Alt`.
    pub fn windows_default() -> (r: Self)
        ensures
            is_default_under("Alt"@, r),
    {
        Self::with_modifier("Alt")
    }

    /// A copy with the same strings.
    pub fn duplicate(&self) -> (r: Self)
        ensures
            r.same_as(*self),
    {
        ShortcutConfig {
            toggle: clone_opt(&self.toggle),
            move_up: clone_opt(&self.move_up),
            move_down: clone_opt(&self.move_down),
            move_left: clone_opt(&self.move_left),
            move_right: clone_opt(&self.move_right),
            resize_up: clone_opt(&self.resize_up),
            resize_down: clone_opt(&self.resize_down),
            resize_left: clone_opt(&self.resize_left),
            resize_right: clone_opt(&self.resize_right),
        }
    }

    /// Both configurations hold the same strings in every slot.
    pub open spec fn same_as(self, o: ShortcutConfig) -> bool {
        &&& opt_view(self.toggle) == opt_view(o.toggle)
        &&& opt_view(self.move_up) == opt_view(o.move_up)
        &&& opt_view(self.move_down) == opt_view(o.move_down)
        &&& opt_view(self.move_left) == opt_view(o.move_left)
        &&& opt_view(self.move_right) == opt_view(o.move_right)
        &&& opt_view(self.resize_up) == opt_view(o.resize_up)
        &&& opt_view(self.resize_down) == opt_view(o.resize_down)
        &&& opt_view(self.resize_left) == opt_view(o.resize_left)
        &&& opt_view(self.resize_right) == opt_view(o.resize_right)
    }
}

impl Default for ShortcutConfig {
    /// The defaults elsewhere, built on `Cmd`.
    fn default() -> (r: Self)
        ensures
            is_default_under("Cmd"@, r),
    {
        Self::with_modifier("Cmd")
    }
}

/// Appends the binding of one overlay slot, if its string parses.
fn push_slot(v: &mut Vec<Binding>, text: &Option<String>, action: ShortcutAction)
    ensures
        bindings_view(final(v)@) == bindings_view(old(v)@) + slot_bindings(opt_view(*text), action),
{
    match text {
        Some(t) => match parse_shortcut_string(t.as_str()) {
            Some(c) => {
                v.push(Binding { combo: c, combo_text: t.clone(), action, agent_id: String::new() });
                assert(bindings_view(v@) =~= bindings_view(old(v)@) + slot_bindings(
                    opt_view(*text),
                    action,
                ));
            },
            None => {
                assert(bindings_view(v@) =~= bindings_view(old(v)@) + slot_bindings(
                    opt_view(*text),
                    action,
                ));
            },
        },
        None => {
            assert(bindings_view(v@) =~= bindings_view(old(v)@) + slot_bindings(
                opt_view(*text),
                action,
            ));
        },
    }
}

/// The binding table: the overlay slots in order, then the agent shortcuts
/// in order; strings that are empty or do not parse are left out and the
/// rest still bind.
pub fn collect_bindings(config: &ShortcutConfig, agent_shortcuts: &Vec<(String, String)>) -> (r:
    Vec<Binding>)
    ensures
        bindings_view(r@) == config_bindings(*config) + agent_bindings(agent_shortcuts@),
{
    let mut v: Vec<Binding> = Vec::new();
    assert(bindings_view(v@) =~= Seq::empty());
    push_slot(&mut v, &config.toggle, ShortcutAction::ToggleOverlay);
    push_slot(&mut v, &config.move_up, ShortcutAction::Move(Direction::Up));
    push_slot(&mut v, &config.move_down, ShortcutAction::Move(Direction::Down));
    push_slot(&mut v, &config.move_left, ShortcutAction::Move(Direction::Left));
    push_slot(&mut v, &config.move_right, ShortcutAction::Move(Direction::Right));
    push_slot(&mut v, &config.resize_up, ShortcutAction::Resize(Direction::Up));
    push_slot(&mut v, &config.resize_down, ShortcutAction::Resize(Direction::Down));
    push_slot(&mut v, &config.resize_left, ShortcutAction::Resize(Direction::Left));
    push_slot(&mut v, &config.resize_right, ShortcutAction::Resize(Direction::Right));
    let ghost head = bindings_view(v@);
    assert(head =~= config_bindings(*config));
    let mut i: usize = 0;
    assert(agent_shortcuts@.subrange(0, 0) =~= Seq::<(String, String)>::empty());
    assert(head + agent_bindings(agent_shortcuts@.subrange(0, 0)) =~= head);
    while i < agent_shortcuts.len()
        invariant
            i <= agent_shortcuts@.len(),
            bindings_view(v@) == head + agent_bindings(agent_shortcuts@.subrange(0, i as int)),
        decreases agent_shortcuts@.len() - i,
    {
        let id = &agent_shortcuts[i].0;
        let text = &agent_shortcuts[i].1;
        let ghost before = bindings_view(v@);
        let ghost pre = agent_shortcuts@.subrange(0, i + 1);
        assert(pre.drop_last() =~= agent_shortcuts@.subrange(0, i as int));
        if text.as_str().unicode_len() > 0 {
            match parse_shortcut_string(text.as_str()) {
                Some(c) => {
                    v.push(
                        Binding {
                            combo: c,
                            combo_text: text.clone(),
                            action: ShortcutAction::ToggleAgent,
                            agent_id: id.clone(),
                        },
                    );
                },
                None => {},
            }
        }
        assert(bindings_view(v@) =~= before + agent_slot(id@, text@));
        assert(bindings_view(v@) =~= head + agent_bindings(pre));
        i = i + 1;
    }
    assert(agent_shortcuts@.subrange(0, i as int) =~= agent_shortcuts@);
    v
}

/// The shortcut configuration and the labels of the bindings that the OS
/// accepted.
pub struct AppShortcutState {
    pub config: ShortcutConfig,
    pub active_shortcuts: Vec<String>,
}

/// What an action is called in the list of active shortcuts.
pub open spec fn action_label(action: ShortcutAction, agent_id: Seq<char>) -> Seq<char> {
    match action {
        ShortcutAction::ToggleOverlay => "toggle"@,
        ShortcutAction::Move(Direction::Up) => "move up"@,
        ShortcutAction::Move(Direction::Down) => "move down"@,
        ShortcutAction::Move(Direction::Left) => "move left"@,
        ShortcutAction::Move(Direction::Right) => "move right"@,
        ShortcutAction::Resize(Direction::Up) => "resize up"@,
        ShortcutAction::Resize(Direction::Down) => "resize down"@,
        ShortcutAction::Resize(Direction::Left) => "resize left"@,
        ShortcutAction::Resize(Direction::Right) => "resize right"@,
        ShortcutAction::ToggleAgent => "toggle agent "@ + agent_id,
    }
}

/// The label of an active binding: its combo string, a space, and what it
/// does.
pub fn describe_binding(b: &Binding) -> (r: String)
    ensures
        r@ == b.combo_text@ + " "@ + action_label(b.action, b.agent_id@),
{
    let mut r = b.combo_text.clone();
    r.append(" ");
    match b.action {
        ShortcutAction::ToggleOverlay => r.append("toggle"),
        ShortcutAction::Move(Direction::Up) => r.append("move up"),
        ShortcutAction::Move(Direction::Down) => r.append("move down"),
        ShortcutAction::Move(Direction::Left) => r.append("move left"),
        ShortcutAction::Move(Direction::Right) => r.append("move right"),
        ShortcutAction::Resize(Direction::Up) => r.append("resize up"),
        ShortcutAction::Resize(Direction::Down) => r.append("resize down"),
        ShortcutAction::Resize(Direction::Left) => r.append("resize left"),
        ShortcutAction::Resize(Direction::Right) => r.append("resize right"),
        ShortcutAction::ToggleAgent => {
            r.append("toggle agent ");
            r.append(b.agent_id.as_str());
        },
    }
    assert(r@ =~= b.combo_text@ + " "@ + action_label(b.action, b.agent_id@));
    r
}

impl AppShortcutState {
    /// A state holding `config`, with nothing registered yet.
    pub fn new(config: ShortcutConfig) -> (r: Self)
        ensures
            r.config == config,
            r.active_shortcuts@.len() == 0,
    {
        AppShortcutState { config, active_shortcuts: Vec::new() }
    }

    /// A copy of the configuration.
    pub fn get_shortcut_config(&self) -> (r: ShortcutConfig)
        ensures
            r.same_as(self.config),
    {
        self.config.duplicate()
    }

    /// A copy of the labels of the registered shortcuts.
    pub fn get_active_shortcuts(&self) -> (r: Vec<String>)
        ensures
            r@.map_values(|s: String| s@) == self.active_shortcuts@.map_values(|s: String| s@),
    {
        let mut r: Vec<String> = Vec::new();
        let mut i: usize = 0;
        while i < self.active_shortcuts.len()
            invariant
                i <= self.active_shortcuts@.len(),
                r@.len() == i,
                forall|j: int| 0 <= j < i ==> r@[j]@ == self.active_shortcuts@[j]@,
            decreases self.active_shortcuts@.len() - i,
        {
            r.push(self.active_shortcuts[i].clone());
            i = i + 1;
        }
        assert(r@.map_values(|s: String| s@) =~= self.active_shortcuts@.map_values(
            |s: String| s@,
        ));
        r
    }

    /// Records the labels of the shortcuts that the OS accepted.
    pub fn set_active_shortcuts(&mut self, labels: Vec<String>)
        ensures
            final(self).active_shortcuts == labels,
            final(self).config == old(self).config,
    {
        self.active_shortcuts = labels;
    }

    /// Replaces the configuration; it takes effect at the next registration.
    pub fn set_shortcut_config(&mut self, config: ShortcutConfig)
        ensures
            final(self).config == config,
            final(self).active_shortcuts == old(self).active_shortcuts,
    {
        self.config = config;
    }
}

/// A combo string that does not parse binds nothing: as an overlay slot or
/// as an agent shortcut it leaves the other bindings as they are.
pub proof fn lemma_unparsable_binding_dropped(
    text: String,
    action: ShortcutAction,
    agents: Seq<(String, String)>,
    agent_id: String,
)
    requires
        combo_of(text@) is None,
    ensures
        slot_bindings(Some(text@), action) == Seq::<(Combo, ShortcutAction, Seq<char>)>::empty(),
        agent_bindings(agents.push((agent_id, text))) == agent_bindings(agents),
{
    assert(agents.push((agent_id, text)).drop_last() =~= agents);
    assert(agent_bindings(agents) + Seq::<(Combo, ShortcutAction, Seq<char>)>::empty()
        =~= agent_bindings(agents));
}

} // verus!
