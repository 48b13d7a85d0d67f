//! The rebindable key vocabulary: physical keys, bindable actions and the layers they fire in.
//!
//! Keys and actions persist by **stable ordinal** (their position in `KeyId::ALL` /
//! `GameAction::ALL`); both lists are append-only so a saved blob never shifts meaning.
use vstd::prelude::*;

verus! {

/// A physical-key identifier: the platform-neutral subset of keys a binding can target
/// (letters, digits, function keys and common navigation/editing keys). Persisted by ordinal.
#[derive(Clone, Copy, PartialEq, Eq, Debug, Hash, Structural)]
pub enum KeyId {
    F1,
    F2,
    F3,
    F4,
    F5,
    F6,
    F7,
    F8,
    F9,
    F10,
    F11,
    F12,
    A,
    B,
    C,
    D,
    E,
    F,
    G,
    H,
    I,
    J,
    K,
    L,
    M,
    N,
    O,
    P,
    Q,
    R,
    S,
    T,
    U,
    V,
    W,
    X,
    Y,
    Z,
    Digit0,
    Digit1,
    Digit2,
    Digit3,
    Digit4,
    Digit5,
    Digit6,
    Digit7,
    Digit8,
    Digit9,
    Escape,
    Tab,
    Space,
    Enter,
    Backspace,
    Insert,
    Delete,
    Home,
    End,
    PageUp,
    PageDown,
    Up,
    Down,
    Left,
    Right,
    Minus,
    Equals,
    Backquote,
}

/// The number of keys in the vocabulary.
pub const KEY_COUNT: usize = 66;

/// The persisted ordinal of a key: its position in `KeyId::ALL`.
pub open spec fn key_ordinal(k: KeyId) -> nat {
    match k {
        KeyId::F1 => 0,
        KeyId::F2 => 1,
        KeyId::F3 => 2,
        KeyId::F4 => 3,
        KeyId::F5 => 4,
        KeyId::F6 => 5,
        KeyId::F7 => 6,
        KeyId::F8 => 7,
        KeyId::F9 => 8,
        KeyId::F10 => 9,
        KeyId::F11 => 10,
        KeyId::F12 => 11,
        KeyId::A => 12,
        KeyId::B => 13,
        KeyId::C => 14,
        KeyId::D => 15,
        KeyId::E => 16,
        KeyId::F => 17,
        KeyId::G => 18,
        KeyId::H => 19,
        KeyId::I => 20,
        KeyId::J => 21,
        KeyId::K => 22,
        KeyId::L => 23,
        KeyId::M => 24,
        KeyId::N => 25,
        KeyId::O => 26,
        KeyId::P => 27,
        KeyId::Q => 28,
        KeyId::R => 29,
        KeyId::S => 30,
        KeyId::T => 31,
        KeyId::U => 32,
        KeyId::V => 33,
        KeyId::W => 34,
        KeyId::X => 35,
        KeyId::Y => 36,
        KeyId::Z => 37,
        KeyId::Digit0 => 38,
        KeyId::Digit1 => 39,
        KeyId::Digit2 => 40,
        KeyId::Digit3 => 41,
        KeyId::Digit4 => 42,
        KeyId::Digit5 => 43,
        KeyId::Digit6 => 44,
        KeyId::Digit7 => 45,
        KeyId::Digit8 => 46,
        KeyId::Digit9 => 47,
        KeyId::Escape => 48,
        KeyId::Tab => 49,
        KeyId::Space => 50,
        KeyId::Enter => 51,
        KeyId::Backspace => 52,
        KeyId::Insert => 53,
        KeyId::Delete => 54,
        KeyId::Home => 55,
        KeyId::End => 56,
        KeyId::PageUp => 57,
        KeyId::PageDown => 58,
        KeyId::Up => 59,
        KeyId::Down => 60,
        KeyId::Left => 61,
        KeyId::Right => 62,
        KeyId::Minus => 63,
        KeyId::Equals => 64,
        KeyId::Backquote => 65,
    }
}

/// The key stored at persisted ordinal `i`, or `None` past the end of the vocabulary.
pub open spec fn key_at(i: int) -> Option<KeyId> {
    if i == 0 {
        Some(KeyId::F1)
    } else if i == 1 {
        Some(KeyId::F2)
    } else if i == 2 {
        Some(KeyId::F3)
    } else if i == 3 {
        Some(KeyId::F4)
    } else if i == 4 {
        Some(KeyId::F5)
    } else if i == 5 {
        Some(KeyId::F6)
    } else if i == 6 {
        Some(KeyId::F7)
    } else if i == 7 {
        Some(KeyId::F8)
    } else if i == 8 {
        Some(KeyId::F9)
    } else if i == 9 {
        Some(KeyId::F10)
    } else if i == 10 {
        Some(KeyId::F11)
    } else if i == 11 {
        Some(KeyId::F12)
    } else if i == 12 {
        Some(KeyId::A)
    } else if i == 13 {
        Some(KeyId::B)
    } else if i == 14 {
        Some(KeyId::C)
    } else if i == 15 {
        Some(KeyId::D)
    } else if i == 16 {
        Some(KeyId::E)
    } else if i == 17 {
        Some(KeyId::F)
    } else if i == 18 {
        Some(KeyId::G)
    } else if i == 19 {
        Some(KeyId::H)
    } else if i == 20 {
        Some(KeyId::I)
    } else if i == 21 {
        Some(KeyId::J)
    } else if i == 22 {
        Some(KeyId::K)
    } else if i == 23 {
        Some(KeyId::L)
    } else if i == 24 {
        Some(KeyId::M)
    } else if i == 25 {
        Some(KeyId::N)
    } else if i == 26 {
        Some(KeyId::O)
    } else if i == 27 {
        Some(KeyId::P)
    } else if i == 28 {
        Some(KeyId::Q)
    } else if i == 29 {
        Some(KeyId::R)
    } else if i == 30 {
        Some(KeyId::S)
    } else if i == 31 {
        Some(KeyId::T)
    } else if i == 32 {
        Some(KeyId::U)
    } else if i == 33 {
        Some(KeyId::V)
    } else if i == 34 {
        Some(KeyId::W)
    } else if i == 35 {
        Some(KeyId::X)
    } else if i == 36 {
        Some(KeyId::Y)
    } else if i == 37 {
        Some(KeyId::Z)
    } else if i == 38 {
        Some(KeyId::Digit0)
    } else if i == 39 {
        Some(KeyId::Digit1)
    } else if i == 40 {
        Some(KeyId::Digit2)
    } else if i == 41 {
        Some(KeyId::Digit3)
    } else if i == 42 {
        Some(KeyId::Digit4)
    } else if i == 43 {
        Some(KeyId::Digit5)
    } else if i == 44 {
        Some(KeyId::Digit6)
    } else if i == 45 {
        Some(KeyId::Digit7)
    } else if i == 46 {
        Some(KeyId::Digit8)
    } else if i == 47 {
        Some(KeyId::Digit9)
    } else if i == 48 {
        Some(KeyId::Escape)
    } else if i == 49 {
        Some(KeyId::Tab)
    } else if i == 50 {
        Some(KeyId::Space)
    } else if i == 51 {
        Some(KeyId::Enter)
    } else if i == 52 {
        Some(KeyId::Backspace)
    } else if i == 53 {
        Some(KeyId::Insert)
    } else if i == 54 {
        Some(KeyId::Delete)
    } else if i == 55 {
        Some(KeyId::Home)
    } else if i == 56 {
        Some(KeyId::End)
    } else if i == 57 {
        Some(KeyId::PageUp)
    } else if i == 58 {
        Some(KeyId::PageDown)
    } else if i == 59 {
        Some(KeyId::Up)
    } else if i == 60 {
        Some(KeyId::Down)
    } else if i == 61 {
        Some(KeyId::Left)
    } else if i == 62 {
        Some(KeyId::Right)
    } else if i == 63 {
        Some(KeyId::Minus)
    } else if i == 64 {
        Some(KeyId::Equals)
    } else if i == 65 {
        Some(KeyId::Backquote)
    } else {
        None
    }
}

/// The on-screen label of a key (ASCII).
pub open spec fn key_label(k: KeyId) -> Seq<char> {
    match k {
        KeyId::F1 => "F1"@,
        KeyId::F2 => "F2"@,
        KeyId::F3 => "F3"@,
        KeyId::F4 => "F4"@,
        KeyId::F5 => "F5"@,
        KeyId::F6 => "F6"@,
        KeyId::F7 => "F7"@,
        KeyId::F8 => "F8"@,
        KeyId::F9 => "F9"@,
        KeyId::F10 => "F10"@,
        KeyId::F11 => "F11"@,
        KeyId::F12 => "F12"@,
        KeyId::A => "A"@,
        KeyId::B => "B"@,
        KeyId::C => "C"@,
        KeyId::D => "D"@,
        KeyId::E => "E"@,
        KeyId::F => "F"@,
        KeyId::G => "G"@,
        KeyId::H => "H"@,
        KeyId::I => "I"@,
        KeyId::J => "J"@,
        KeyId::K => "K"@,
        KeyId::L => "L"@,
        KeyId::M => "M"@,
        KeyId::N => "N"@,
        KeyId::O => "O"@,
        KeyId::P => "P"@,
        KeyId::Q => "Q"@,
        KeyId::R => "R"@,
        KeyId::S => "S"@,
        KeyId::T => "T"@,
        KeyId::U => "U"@,
        KeyId::V => "V"@,
        KeyId::W => "W"@,
        KeyId::X => "X"@,
        KeyId::Y => "Y"@,
        KeyId::Z => "Z"@,
        KeyId::Digit0 => "0"@,
        KeyId::Digit1 => "1"@,
        KeyId::Digit2 => "2"@,
        KeyId::Digit3 => "3"@,
        KeyId::Digit4 => "4"@,
        KeyId::Digit5 => "5"@,
        KeyId::Digit6 => "6"@,
        KeyId::Digit7 => "7"@,
        KeyId::Digit8 => "8"@,
        KeyId::Digit9 => "9"@,
        KeyId::Escape => "Esc"@,
        KeyId::Tab => "Tab"@,
        KeyId::Space => "Space"@,
        KeyId::Enter => "Enter"@,
        KeyId::Backspace => "Backspace"@,
        KeyId::Insert => "Insert"@,
        KeyId::Delete => "Delete"@,
        KeyId::Home => "Home"@,
        KeyId::End => "End"@,
        KeyId::PageUp => "PageUp"@,
        KeyId::PageDown => "PageDown"@,
        KeyId::Up => "Up"@,
        KeyId::Down => "Down"@,
        KeyId::Left => "Left"@,
        KeyId::Right => "Right"@,
        KeyId::Minus => "Minus"@,
        KeyId::Equals => "Equals"@,
        KeyId::Backquote => "Backquote"@,
    }
}

/// Every key has an ordinal inside the vocabulary, and that ordinal stores the key back.
pub proof fn lemma_key_ordinal_round_trip(k: KeyId)
    ensures
        key_ordinal(k) < KEY_COUNT,
        key_at(key_ordinal(k) as int) == Some(k),
{
}

/// Every in-range ordinal stores a key whose ordinal it is; out-of-range ordinals store none.
pub proof fn lemma_key_at_round_trip(i: int)
    ensures
        0 <= i < KEY_COUNT ==> (key_at(i) is Some && key_ordinal(key_at(i)->0) == i),
        !(0 <= i < KEY_COUNT) ==> key_at(i) is None,
{
}

impl KeyId {
    /// Every key in the fixed persistence order (append-only).
    pub const ALL: [KeyId; 66] = [
        KeyId::F1,
        KeyId::F2,
        KeyId::F3,
        KeyId::F4,
        KeyId::F5,
        KeyId::F6,
        KeyId::F7,
        KeyId::F8,
        KeyId::F9,
        KeyId::F10,
        KeyId::F11,
        KeyId::F12,
        KeyId::A,
        KeyId::B,
        KeyId::C,
        KeyId::D,
        KeyId::E,
        KeyId::F,
        KeyId::G,
        KeyId::H,
        KeyId::I,
        KeyId::J,
        KeyId::K,
        KeyId::L,
        KeyId::M,
        KeyId::N,
        KeyId::O,
        KeyId::P,
        KeyId::Q,
        KeyId::R,
        KeyId::S,
        KeyId::T,
        KeyId::U,
        KeyId::V,
        KeyId::W,
        KeyId::X,
        KeyId::Y,
        KeyId::Z,
        KeyId::Digit0,
        KeyId::Digit1,
        KeyId::Digit2,
        KeyId::Digit3,
        KeyId::Digit4,
        KeyId::Digit5,
        KeyId::Digit6,
        KeyId::Digit7,
        KeyId::Digit8,
        KeyId::Digit9,
        KeyId::Escape,
        KeyId::Tab,
        KeyId::Space,
        KeyId::Enter,
        KeyId::Backspace,
        KeyId::Insert,
        KeyId::Delete,
        KeyId::Home,
        KeyId::End,
        KeyId::PageUp,
        KeyId::PageDown,
        KeyId::Up,
        KeyId::Down,
        KeyId::Left,
        KeyId::Right,
        KeyId::Minus,
        KeyId::Equals,
        KeyId::Backquote,
    ];

    /// The short on-screen label for the key. ASCII only.
    pub fn label(self) -> (r: &'static str)
        ensures
            r@ == key_label(self),
    {
        match self {
            KeyId::F1 => "F1",
            KeyId::F2 => "F2",
            KeyId::F3 => "F3",
            KeyId::F4 => "F4",
            KeyId::F5 => "F5",
            KeyId::F6 => "F6",
            KeyId::F7 => "F7",
            KeyId::F8 => "F8",
            KeyId::F9 => "F9",
            KeyId::F10 => "F10",
            KeyId::F11 => "F11",
            KeyId::F12 => "F12",
            KeyId::A => "A",
            KeyId::B => "B",
            KeyId::C => "C",
            KeyId::D => "D",
            KeyId::E => "E",
            KeyId::F => "F",
            KeyId::G => "G",
            KeyId::H => "H",
            KeyId::I => "I",
            KeyId::J => "J",
            KeyId::K => "K",
            KeyId::L => "L",
            KeyId::M => "M",
            KeyId::N => "N",
            KeyId::O => "O",
            KeyId::P => "P",
            KeyId::Q => "Q",
            KeyId::R => "R",
            KeyId::S => "S",
            KeyId::T => "T",
            KeyId::U => "U",
            KeyId::V => "V",
            KeyId::W => "W",
            KeyId::X => "X",
            KeyId::Y => "Y",
            KeyId::Z => "Z",
            KeyId::Digit0 => "0",
            KeyId::Digit1 => "1",
            KeyId::Digit2 => "2",
            KeyId::Digit3 => "3",
            KeyId::Digit4 => "4",
            KeyId::Digit5 => "5",
            KeyId::Digit6 => "6",
            KeyId::Digit7 => "7",
            KeyId::Digit8 => "8",
            KeyId::Digit9 => "9",
            KeyId::Escape => "Esc",
            KeyId::Tab => "Tab",
            KeyId::Space => "Space",
            KeyId::Enter => "Enter",
            KeyId::Backspace => "Backspace",
            KeyId::Insert => "Insert",
            KeyId::Delete => "Delete",
            KeyId::Home => "Home",
            KeyId::End => "End",
            KeyId::PageUp => "PageUp",
            KeyId::PageDown => "PageDown",
            KeyId::Up => "Up",
            KeyId::Down => "Down",
            KeyId::Left => "Left",
            KeyId::Right => "Right",
            KeyId::Minus => "Minus",
            KeyId::Equals => "Equals",
            KeyId::Backquote => "Backquote",
        }
    }

    /// This key's stable ordinal in `KeyId::ALL`, the persisted value.
    pub fn index(self) -> (r: usize)
        ensures
            r == key_ordinal(self),
    {
        match self {
            KeyId::F1 => 0,
            KeyId::F2 => 1,
            KeyId::F3 => 2,
            KeyId::F4 => 3,
            KeyId::F5 => 4,
            KeyId::F6 => 5,
            KeyId::F7 => 6,
            KeyId::F8 => 7,
            KeyId::F9 => 8,
            KeyId::F10 => 9,
            KeyId::F11 => 10,
            KeyId::F12 => 11,
            KeyId::A => 12,
            KeyId::B => 13,
            KeyId::C => 14,
            KeyId::D => 15,
            KeyId::E => 16,
            KeyId::F => 17,
            KeyId::G => 18,
            KeyId::H => 19,
            KeyId::I => 20,
            KeyId::J => 21,
            KeyId::K => 22,
            KeyId::L => 23,
            KeyId::M => 24,
            KeyId::N => 25,
            KeyId::O => 26,
            KeyId::P => 27,
            KeyId::Q => 28,
            KeyId::R => 29,
            KeyId::S => 30,
            KeyId::T => 31,
            KeyId::U => 32,
            KeyId::V => 33,
            KeyId::W => 34,
            KeyId::X => 35,
            KeyId::Y => 36,
            KeyId::Z => 37,
            KeyId::Digit0 => 38,
            KeyId::Digit1 => 39,
            KeyId::Digit2 => 40,
            KeyId::Digit3 => 41,
            KeyId::Digit4 => 42,
            KeyId::Digit5 => 43,
            KeyId::Digit6 => 44,
            KeyId::Digit7 => 45,
            KeyId::Digit8 => 46,
            KeyId::Digit9 => 47,
            KeyId::Escape => 48,
            KeyId::Tab => 49,
            KeyId::Space => 50,
            KeyId::Enter => 51,
            KeyId::Backspace => 52,
            KeyId::Insert => 53,
            KeyId::Delete => 54,
            KeyId::Home => 55,
            KeyId::End => 56,
            KeyId::PageUp => 57,
            KeyId::PageDown => 58,
            KeyId::Up => 59,
            KeyId::Down => 60,
            KeyId::Left => 61,
            KeyId::Right => 62,
            KeyId::Minus => 63,
            KeyId::Equals => 64,
            KeyId::Backquote => 65,
        }
    }

    /// The key at persisted ordinal `i`, or `None` for an out-of-range ordinal.
    pub fn from_index(i: usize) -> (r: Option<KeyId>)
        ensures
            r == key_at(i as int),
    {
        match i {
            0 => Some(KeyId::F1),
            1 => Some(KeyId::F2),
            2 => Some(KeyId::F3),
            3 => Some(KeyId::F4),
            4 => Some(KeyId::F5),
            5 => Some(KeyId::F6),
            6 => Some(KeyId::F7),
            7 => Some(KeyId::F8),
            8 => Some(KeyId::F9),
            9 => Some(KeyId::F10),
            10 => Some(KeyId::F11),
            11 => Some(KeyId::F12),
            12 => Some(KeyId::A),
            13 => Some(KeyId::B),
            14 => Some(KeyId::C),
            15 => Some(KeyId::D),
            16 => Some(KeyId::E),
            17 => Some(KeyId::F),
            18 => Some(KeyId::G),
            19 => Some(KeyId::H),
            20 => Some(KeyId::I),
            21 => Some(KeyId::J),
            22 => Some(KeyId::K),
            23 => Some(KeyId::L),
            24 => Some(KeyId::M),
            25 => Some(KeyId::N),
            26 => Some(KeyId::O),
            27 => Some(KeyId::P),
            28 => Some(KeyId::Q),
            29 => Some(KeyId::R),
            30 => Some(KeyId::S),
            31 => Some(KeyId::T),
            32 => Some(KeyId::U),
            33 => Some(KeyId::V),
            34 => Some(KeyId::W),
            35 => Some(KeyId::X),
            36 => Some(KeyId::Y),
            37 => Some(KeyId::Z),
            38 => Some(KeyId::Digit0),
            39 => Some(KeyId::Digit1),
            40 => Some(KeyId::Digit2),
            41 => Some(KeyId::Digit3),
            42 => Some(KeyId::Digit4),
            43 => Some(KeyId::Digit5),
            44 => Some(KeyId::Digit6),
            45 => Some(KeyId::Digit7),
            46 => Some(KeyId::Digit8),
            47 => Some(KeyId::Digit9),
            48 => Some(KeyId::Escape),
            49 => Some(KeyId::Tab),
            50 => Some(KeyId::Space),
            51 => Some(KeyId::Enter),
            52 => Some(KeyId::Backspace),
            53 => Some(KeyId::Insert),
            54 => Some(KeyId::Delete),
            55 => Some(KeyId::Home),
            56 => Some(KeyId::End),
            57 => Some(KeyId::PageUp),
            58 => Some(KeyId::PageDown),
            59 => Some(KeyId::Up),
            60 => Some(KeyId::Down),
            61 => Some(KeyId::Left),
            62 => Some(KeyId::Right),
            63 => Some(KeyId::Minus),
            64 => Some(KeyId::Equals),
            65 => Some(KeyId::Backquote),
            _ => None,
        }
    }
}

/// The mutually-exclusive input context a bound action fires in: the conflict domain of a
/// rebind. `Command` and `Embodied` are never live together; `Global` is live in both.
#[derive(Clone, Copy, PartialEq, Eq, Debug, Hash, Structural)]
pub enum BindLayer {
    /// Active in every context (host toggles, movement): conflicts with all layers.
    Global,
    /// Command-view only (the RTS layer): embody, orders, production.
    Command,
    /// Embodied only (the FPS layer): surface, jump, crouch, reload, fire mode.
    Embodied,
}

/// Whether two layers can be live at the same time: actions in such layers may not share a key.
pub open spec fn layers_overlap(a: BindLayer, b: BindLayer) -> bool {
    a == BindLayer::Global || b == BindLayer::Global || a == b
}

/// Layer overlap is symmetric.
pub proof fn lemma_layers_overlap_symmetric(a: BindLayer, b: BindLayer)
    ensures
        layers_overlap(a, b) == layers_overlap(b, a),
{
}

impl BindLayer {
    /// Whether two layers can ever be active at the same time (the key-sharing rule).
    pub fn conflicts_with(self, other: BindLayer) -> (r: bool)
        ensures
            r == layers_overlap(self, other),
    {
        self == BindLayer::Global || other == BindLayer::Global || self == other
    }
}

/// A rebindable desktop key action: the three host toggles first (ordinals 0 to 2 are frozen),
/// then the gameplay keymap.
#[derive(Clone, Copy, PartialEq, Eq, Debug, Hash, Structural)]
pub enum GameAction {
    /// Pause / resume the running match (host-side session overlay — never the sim).
    Pause,
    /// Toggle borderless fullscreen (the window mode; applies on every screen).
    ToggleFullscreen,
    /// Toggle the debug hitbox/facet overlay (command view; a presentation toggle).
    ToggleDebugOverlay,
    /// Possess the selected unit (command view; the one-shot embody edge).
    Embody,
    /// Surface back to command (embodied; the one-shot eject edge).
    Surface,
    /// Move up / forward (held; command-camera pan + embodied locomotion).
    MoveUp,
    /// Move down / back (held).
    MoveDown,
    /// Move left (held).
    MoveLeft,
    /// Move right (held).
    MoveRight,
    /// Embodied cosmetic jump (one-shot edge).
    Jump,
    /// Hold to open the radial order/stance menu (command view; a HELD level, not an edge).
    OrderMenu,
    /// Order/stance vocabulary slot 1 (command view; one-shot).
    OrderSlot1,
    OrderSlot2,
    OrderSlot3,
    OrderSlot4,
    OrderSlot5,
    OrderSlot6,
    OrderSlot7,
    OrderSlot8,
    OrderSlot9,
    OrderSlot10,
    /// Place a Camp at the cursor's ground point (command view; one-shot).
    BuildCamp,
    /// Queue a Rifleman at the active camp (command view; one-shot). Shares its default key (`R`)
    /// with [`GameAction::Reload`] across the mode-exclusive layers.
    TrainRifleman,
    /// Queue a Heavy at the active camp (command view; one-shot).
    TrainHeavy,
    /// Upgrade the active camp (command view; one-shot).
    UpgradeCamp,
    /// Toggle crouch posture (embodied; one-shot — the sim inverts posture, so never a held level).
    Crouch,
    /// Start a reload (embodied; one-shot).
    Reload,
    /// Toggle the fire mode, semi ⇄ auto (embodied; one-shot).
    SelectFire,
}

/// The number of bindable actions.
pub const ACTION_COUNT: usize = 28;

/// Every action in persistence order: the ordinal contract of the encoded blob.
pub open spec fn all_actions() -> Seq<GameAction> {
    seq![
        GameAction::Pause,
        GameAction::ToggleFullscreen,
        GameAction::ToggleDebugOverlay,
        GameAction::Embody,
        GameAction::Surface,
        GameAction::MoveUp,
        GameAction::MoveDown,
        GameAction::MoveLeft,
        GameAction::MoveRight,
        GameAction::Jump,
        GameAction::OrderMenu,
        GameAction::OrderSlot1,
        GameAction::OrderSlot2,
        GameAction::OrderSlot3,
        GameAction::OrderSlot4,
        GameAction::OrderSlot5,
        GameAction::OrderSlot6,
        GameAction::OrderSlot7,
        GameAction::OrderSlot8,
        GameAction::OrderSlot9,
        GameAction::OrderSlot10,
        GameAction::BuildCamp,
        GameAction::TrainRifleman,
        GameAction::TrainHeavy,
        GameAction::UpgradeCamp,
        GameAction::Crouch,
        GameAction::Reload,
        GameAction::SelectFire,
    ]
}

/// The persisted ordinal of an action: its position in `GameAction::ALL`.
pub open spec fn action_ordinal(a: GameAction) -> nat {
    match a {
        GameAction::Pause => 0,
        GameAction::ToggleFullscreen => 1,
        GameAction::ToggleDebugOverlay => 2,
        GameAction::Embody => 3,
        GameAction::Surface => 4,
        GameAction::MoveUp => 5,
        GameAction::MoveDown => 6,
        GameAction::MoveLeft => 7,
        GameAction::MoveRight => 8,
        GameAction::Jump => 9,
        GameAction::OrderMenu => 10,
        GameAction::OrderSlot1 => 11,
        GameAction::OrderSlot2 => 12,
        GameAction::OrderSlot3 => 13,
        GameAction::OrderSlot4 => 14,
        GameAction::OrderSlot5 => 15,
        GameAction::OrderSlot6 => 16,
        GameAction::OrderSlot7 => 17,
        GameAction::OrderSlot8 => 18,
        GameAction::OrderSlot9 => 19,
        GameAction::OrderSlot10 => 20,
        GameAction::BuildCamp => 21,
        GameAction::TrainRifleman => 22,
        GameAction::TrainHeavy => 23,
        GameAction::UpgradeCamp => 24,
        GameAction::Crouch => 25,
        GameAction::Reload => 26,
        GameAction::SelectFire => 27,
    }
}

/// The human-readable label of an action row (ASCII).
pub open spec fn action_label(a: GameAction) -> Seq<char> {
    match a {
        GameAction::Pause => "Pause / resume"@,
        GameAction::ToggleFullscreen => "Toggle fullscreen"@,
        GameAction::ToggleDebugOverlay => "Toggle debug overlay"@,
        GameAction::Embody => "Embody unit"@,
        GameAction::Surface => "Surface to command"@,
        GameAction::MoveUp => "Move forward / pan up"@,
        GameAction::MoveDown => "Move back / pan down"@,
        GameAction::MoveLeft => "Move left"@,
        GameAction::MoveRight => "Move right"@,
        GameAction::Jump => "Jump"@,
        GameAction::OrderMenu => "Order menu (hold)"@,
        GameAction::OrderSlot1 => "Order slot 1"@,
        GameAction::OrderSlot2 => "Order slot 2"@,
        GameAction::OrderSlot3 => "Order slot 3"@,
        GameAction::OrderSlot4 => "Order slot 4"@,
        GameAction::OrderSlot5 => "Order slot 5"@,
        GameAction::OrderSlot6 => "Order slot 6"@,
        GameAction::OrderSlot7 => "Order slot 7"@,
        GameAction::OrderSlot8 => "Order slot 8"@,
        GameAction::OrderSlot9 => "Order slot 9"@,
        GameAction::OrderSlot10 => "Order slot 10"@,
        GameAction::BuildCamp => "Build camp"@,
        GameAction::TrainRifleman => "Train rifleman"@,
        GameAction::TrainHeavy => "Train heavy"@,
        GameAction::UpgradeCamp => "Upgrade camp"@,
        GameAction::Crouch => "Crouch"@,
        GameAction::Reload => "Reload"@,
        GameAction::SelectFire => "Fire mode (semi/auto)"@,
    }
}

/// The shipped default key of an action.
pub open spec fn default_key(a: GameAction) -> KeyId {
    match a {
        GameAction::Pause => KeyId::Escape,
        GameAction::ToggleFullscreen => KeyId::F11,
        GameAction::ToggleDebugOverlay => KeyId::F3,
        GameAction::Embody => KeyId::E,
        GameAction::Surface => KeyId::Q,
        GameAction::MoveUp => KeyId::W,
        GameAction::MoveDown => KeyId::S,
        GameAction::MoveLeft => KeyId::A,
        GameAction::MoveRight => KeyId::D,
        GameAction::Jump => KeyId::Space,
        GameAction::OrderMenu => KeyId::F,
        GameAction::OrderSlot1 => KeyId::Digit1,
        GameAction::OrderSlot2 => KeyId::Digit2,
        GameAction::OrderSlot3 => KeyId::Digit3,
        GameAction::OrderSlot4 => KeyId::Digit4,
        GameAction::OrderSlot5 => KeyId::Digit5,
        GameAction::OrderSlot6 => KeyId::Digit6,
        GameAction::OrderSlot7 => KeyId::Digit7,
        GameAction::OrderSlot8 => KeyId::Digit8,
        GameAction::OrderSlot9 => KeyId::Digit9,
        GameAction::OrderSlot10 => KeyId::Digit0,
        GameAction::BuildCamp => KeyId::B,
        GameAction::TrainRifleman => KeyId::R,
        GameAction::TrainHeavy => KeyId::H,
        GameAction::UpgradeCamp => KeyId::U,
        GameAction::Crouch => KeyId::C,
        GameAction::Reload => KeyId::R,
        GameAction::SelectFire => KeyId::X,
    }
}

/// The layer an action fires in.
pub open spec fn action_layer(a: GameAction) -> BindLayer {
    match a {
        GameAction::Pause => BindLayer::Global,
        GameAction::ToggleFullscreen => BindLayer::Global,
        GameAction::ToggleDebugOverlay => BindLayer::Global,
        GameAction::Embody => BindLayer::Command,
        GameAction::Surface => BindLayer::Embodied,
        GameAction::MoveUp => BindLayer::Global,
        GameAction::MoveDown => BindLayer::Global,
        GameAction::MoveLeft => BindLayer::Global,
        GameAction::MoveRight => BindLayer::Global,
        GameAction::Jump => BindLayer::Embodied,
        GameAction::OrderMenu => BindLayer::Command,
        GameAction::OrderSlot1 => BindLayer::Command,
        GameAction::OrderSlot2 => BindLayer::Command,
        GameAction::OrderSlot3 => BindLayer::Command,
        GameAction::OrderSlot4 => BindLayer::Command,
        GameAction::OrderSlot5 => BindLayer::Command,
        GameAction::OrderSlot6 => BindLayer::Command,
        GameAction::OrderSlot7 => BindLayer::Command,
        GameAction::OrderSlot8 => BindLayer::Command,
        GameAction::OrderSlot9 => BindLayer::Command,
        GameAction::OrderSlot10 => BindLayer::Command,
        GameAction::BuildCamp => BindLayer::Command,
        GameAction::TrainRifleman => BindLayer::Command,
        GameAction::TrainHeavy => BindLayer::Command,
        GameAction::UpgradeCamp => BindLayer::Command,
        GameAction::Crouch => BindLayer::Embodied,
        GameAction::Reload => BindLayer::Embodied,
        GameAction::SelectFire => BindLayer::Embodied,
    }
}

/// The zero-based order/stance wire slot of the ten vocabulary actions; `None` for the rest.
pub open spec fn action_order_slot(a: GameAction) -> Option<u8> {
    match a {
        GameAction::OrderSlot1 => Some(0u8),
        GameAction::OrderSlot2 => Some(1u8),
        GameAction::OrderSlot3 => Some(2u8),
        GameAction::OrderSlot4 => Some(3u8),
        GameAction::OrderSlot5 => Some(4u8),
        GameAction::OrderSlot6 => Some(5u8),
        GameAction::OrderSlot7 => Some(6u8),
        GameAction::OrderSlot8 => Some(7u8),
        GameAction::OrderSlot9 => Some(8u8),
        GameAction::OrderSlot10 => Some(9u8),
        _ => None,
    }
}

/// Every action sits at its ordinal in the persistence order, and every ordinal in range holds
/// the action whose ordinal it is.
pub proof fn lemma_action_ordinal_round_trip(a: GameAction)
    ensures
        action_ordinal(a) < ACTION_COUNT,
        all_actions().len() == ACTION_COUNT,
        all_actions()[action_ordinal(a) as int] == a,
{
}

/// The persistence order lists each action exactly once, at its own ordinal.
pub proof fn lemma_all_actions_ordinals(i: int)
    requires
        0 <= i < ACTION_COUNT,
    ensures
        all_actions().len() == ACTION_COUNT,
        action_ordinal(all_actions()[i]) == i,
{
}

impl GameAction {
    /// Every action in the fixed persistence / display order (append-only).
    pub const ALL: [GameAction; 28] = [
        GameAction::Pause,
        GameAction::ToggleFullscreen,
        GameAction::ToggleDebugOverlay,
        GameAction::Embody,
        GameAction::Surface,
        GameAction::MoveUp,
        GameAction::MoveDown,
        GameAction::MoveLeft,
        GameAction::MoveRight,
        GameAction::Jump,
        GameAction::OrderMenu,
        GameAction::OrderSlot1,
        GameAction::OrderSlot2,
        GameAction::OrderSlot3,
        GameAction::OrderSlot4,
        GameAction::OrderSlot5,
        GameAction::OrderSlot6,
        GameAction::OrderSlot7,
        GameAction::OrderSlot8,
        GameAction::OrderSlot9,
        GameAction::OrderSlot10,
        GameAction::BuildCamp,
        GameAction::TrainRifleman,
        GameAction::TrainHeavy,
        GameAction::UpgradeCamp,
        GameAction::Crouch,
        GameAction::Reload,
        GameAction::SelectFire,
    ];

    /// The human-readable label for the action row. ASCII only.
    pub fn label(self) -> (r: &'static str)
        ensures
            r@ == action_label(self),
    {
        match self {
            GameAction::Pause => "Pause / resume",
            GameAction::ToggleFullscreen => "Toggle fullscreen",
            GameAction::ToggleDebugOverlay => "Toggle debug overlay",
            GameAction::Embody => "Embody unit",
            GameAction::Surface => "Surface to command",
            GameAction::MoveUp => "Move forward / pan up",
            GameAction::MoveDown => "Move back / pan down",
            GameAction::MoveLeft => "Move left",
            GameAction::MoveRight => "Move right",
            GameAction::Jump => "Jump",
            GameAction::OrderMenu => "Order menu (hold)",
            GameAction::OrderSlot1 => "Order slot 1",
            GameAction::OrderSlot2 => "Order slot 2",
            GameAction::OrderSlot3 => "Order slot 3",
            GameAction::OrderSlot4 => "Order slot 4",
            GameAction::OrderSlot5 => "Order slot 5",
            GameAction::OrderSlot6 => "Order slot 6",
            GameAction::OrderSlot7 => "Order slot 7",
            GameAction::OrderSlot8 => "Order slot 8",
            GameAction::OrderSlot9 => "Order slot 9",
            GameAction::OrderSlot10 => "Order slot 10",
            GameAction::BuildCamp => "Build camp",
            GameAction::TrainRifleman => "Train rifleman",
            GameAction::TrainHeavy => "Train heavy",
            GameAction::UpgradeCamp => "Upgrade camp",
            GameAction::Crouch => "Crouch",
            GameAction::Reload => "Reload",
            GameAction::SelectFire => "Fire mode (semi/auto)",
        }
    }

    /// The shipped default key for the action (the historical hardcoded binding).
    pub fn default_key(self) -> (r: KeyId)
        ensures
            r == default_key(self),
    {
        match self {
            GameAction::Pause => KeyId::Escape,
            GameAction::ToggleFullscreen => KeyId::F11,
            GameAction::ToggleDebugOverlay => KeyId::F3,
            GameAction::Embody => KeyId::E,
            GameAction::Surface => KeyId::Q,
            GameAction::MoveUp => KeyId::W,
            GameAction::MoveDown => KeyId::S,
            GameAction::MoveLeft => KeyId::A,
            GameAction::MoveRight => KeyId::D,
            GameAction::Jump => KeyId::Space,
            GameAction::OrderMenu => KeyId::F,
            GameAction::OrderSlot1 => KeyId::Digit1,
            GameAction::OrderSlot2 => KeyId::Digit2,
            GameAction::OrderSlot3 => KeyId::Digit3,
            GameAction::OrderSlot4 => KeyId::Digit4,
            GameAction::OrderSlot5 => KeyId::Digit5,
            GameAction::OrderSlot6 => KeyId::Digit6,
            GameAction::OrderSlot7 => KeyId::Digit7,
            GameAction::OrderSlot8 => KeyId::Digit8,
            GameAction::OrderSlot9 => KeyId::Digit9,
            GameAction::OrderSlot10 => KeyId::Digit0,
            GameAction::BuildCamp => KeyId::B,
            GameAction::TrainRifleman => KeyId::R,
            GameAction::TrainHeavy => KeyId::H,
            GameAction::UpgradeCamp => KeyId::U,
            GameAction::Crouch => KeyId::C,
            GameAction::Reload => KeyId::R,
            GameAction::SelectFire => KeyId::X,
        }
    }

    /// The layer this action fires in: its conflict domain.
    pub fn layer(self) -> (r: BindLayer)
        ensures
            r == action_layer(self),
    {
        match self {
            GameAction::Pause => BindLayer::Global,
            GameAction::ToggleFullscreen => BindLayer::Global,
            GameAction::ToggleDebugOverlay => BindLayer::Global,
            GameAction::Embody => BindLayer::Command,
            GameAction::Surface => BindLayer::Embodied,
            GameAction::MoveUp => BindLayer::Global,
            GameAction::MoveDown => BindLayer::Global,
            GameAction::MoveLeft => BindLayer::Global,
            GameAction::MoveRight => BindLayer::Global,
            GameAction::Jump => BindLayer::Embodied,
            GameAction::OrderMenu => BindLayer::Command,
            GameAction::OrderSlot1 => BindLayer::Command,
            GameAction::OrderSlot2 => BindLayer::Command,
            GameAction::OrderSlot3 => BindLayer::Command,
            GameAction::OrderSlot4 => BindLayer::Command,
            GameAction::OrderSlot5 => BindLayer::Command,
            GameAction::OrderSlot6 => BindLayer::Command,
            GameAction::OrderSlot7 => BindLayer::Command,
            GameAction::OrderSlot8 => BindLayer::Command,
            GameAction::OrderSlot9 => BindLayer::Command,
            GameAction::OrderSlot10 => BindLayer::Command,
            GameAction::BuildCamp => BindLayer::Command,
            GameAction::TrainRifleman => BindLayer::Command,
            GameAction::TrainHeavy => BindLayer::Command,
            GameAction::UpgradeCamp => BindLayer::Command,
            GameAction::Crouch => BindLayer::Embodied,
            GameAction::Reload => BindLayer::Embodied,
            GameAction::SelectFire => BindLayer::Embodied,
        }
    }

    /// For the ten order/stance actions, the zero-based wire slot (`OrderSlot1` is `0`); `None` otherwise.
    pub fn order_slot(self) -> (r: Option<u8>)
        ensures
            r == action_order_slot(self),
    {
        match self {
            GameAction::OrderSlot1 => Some(0),
            GameAction::OrderSlot2 => Some(1),
            GameAction::OrderSlot3 => Some(2),
            GameAction::OrderSlot4 => Some(3),
            GameAction::OrderSlot5 => Some(4),
            GameAction::OrderSlot6 => Some(5),
            GameAction::OrderSlot7 => Some(6),
            GameAction::OrderSlot8 => Some(7),
            GameAction::OrderSlot9 => Some(8),
            GameAction::OrderSlot10 => Some(9),
            _ => None,
        }
    }

    /// This action's stable ordinal in `GameAction::ALL`.
    pub fn index(self) -> (r: usize)
        ensures
            r == action_ordinal(self),
    {
        match self {
            GameAction::Pause => 0,
            GameAction::ToggleFullscreen => 1,
            GameAction::ToggleDebugOverlay => 2,
            GameAction::Embody => 3,
            GameAction::Surface => 4,
            GameAction::MoveUp => 5,
            GameAction::MoveDown => 6,
            GameAction::MoveLeft => 7,
            GameAction::MoveRight => 8,
            GameAction::Jump => 9,
            GameAction::OrderMenu => 10,
            GameAction::OrderSlot1 => 11,
            GameAction::OrderSlot2 => 12,
            GameAction::OrderSlot3 => 13,
            GameAction::OrderSlot4 => 14,
            GameAction::OrderSlot5 => 15,
            GameAction::OrderSlot6 => 16,
            GameAction::OrderSlot7 => 17,
            GameAction::OrderSlot8 => 18,
            GameAction::OrderSlot9 => 19,
            GameAction::OrderSlot10 => 20,
            GameAction::BuildCamp => 21,
            GameAction::TrainRifleman => 22,
            GameAction::TrainHeavy => 23,
            GameAction::UpgradeCamp => 24,
            GameAction::Crouch => 25,
            GameAction::Reload => 26,
            GameAction::SelectFire => 27,
        }
    }

    /// The action at persisted ordinal `i`, or `None` if out of range.
    pub fn from_index(i: usize) -> (r: Option<GameAction>)
        ensures
            i < ACTION_COUNT ==> r == Some(all_actions()[i as int]),
            i >= ACTION_COUNT ==> r is None,
    {
        match i {
            0 => Some(GameAction::Pause),
            1 => Some(GameAction::ToggleFullscreen),
            2 => Some(GameAction::ToggleDebugOverlay),
            3 => Some(GameAction::Embody),
            4 => Some(GameAction::Surface),
            5 => Some(GameAction::MoveUp),
            6 => Some(GameAction::MoveDown),
            7 => Some(GameAction::MoveLeft),
            8 => Some(GameAction::MoveRight),
            9 => Some(GameAction::Jump),
            10 => Some(GameAction::OrderMenu),
            11 => Some(GameAction::OrderSlot1),
            12 => Some(GameAction::OrderSlot2),
            13 => Some(GameAction::OrderSlot3),
            14 => Some(GameAction::OrderSlot4),
            15 => Some(GameAction::OrderSlot5),
            16 => Some(GameAction::OrderSlot6),
            17 => Some(GameAction::OrderSlot7),
            18 => Some(GameAction::OrderSlot8),
            19 => Some(GameAction::OrderSlot9),
            20 => Some(GameAction::OrderSlot10),
            21 => Some(GameAction::BuildCamp),
            22 => Some(GameAction::TrainRifleman),
            23 => Some(GameAction::TrainHeavy),
            24 => Some(GameAction::UpgradeCamp),
            25 => Some(GameAction::Crouch),
            26 => Some(GameAction::Reload),
            27 => Some(GameAction::SelectFire),
            _ => None,
        }
    }

    /// The action at an in-range ordinal.
    pub(crate) fn nth(i: usize) -> (r: GameAction)
        requires
            i < ACTION_COUNT,
        ensures
            r == all_actions()[i as int],
            action_ordinal(r) == i,
    {
        match i {
            0 => GameAction::Pause,
            1 => GameAction::ToggleFullscreen,
            2 => GameAction::ToggleDebugOverlay,
            3 => GameAction::Embody,
            4 => GameAction::Surface,
            5 => GameAction::MoveUp,
            6 => GameAction::MoveDown,
            7 => GameAction::MoveLeft,
            8 => GameAction::MoveRight,
            9 => GameAction::Jump,
            10 => GameAction::OrderMenu,
            11 => GameAction::OrderSlot1,
            12 => GameAction::OrderSlot2,
            13 => GameAction::OrderSlot3,
            14 => GameAction::OrderSlot4,
            15 => GameAction::OrderSlot5,
            16 => GameAction::OrderSlot6,
            17 => GameAction::OrderSlot7,
            18 => GameAction::OrderSlot8,
            19 => GameAction::OrderSlot9,
            20 => GameAction::OrderSlot10,
            21 => GameAction::BuildCamp,
            22 => GameAction::TrainRifleman,
            23 => GameAction::TrainHeavy,
            24 => GameAction::UpgradeCamp,
            25 => GameAction::Crouch,
            26 => GameAction::Reload,
            _ => GameAction::SelectFire,
        }
    }
}

} // verus!
