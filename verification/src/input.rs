//! Terminal input as plain values: key presses and mouse events.
use vstd::prelude::*;

verus! {

/// No modifier key held.
pub const MOD_NONE: u8 = 0;

/// The shift modifier bit.
pub const MOD_SHIFT: u8 = 1;

/// The control modifier bit.
pub const MOD_CONTROL: u8 = 2;

/// The alt modifier bit.
pub const MOD_ALT: u8 = 4;

/// The key that was pressed.
#[derive(Debug, Clone, Copy, PartialEq, Eq, Structural)]
pub enum KeyCode {
    Char(char),
    Enter,
    Esc,
    Backspace,
    Delete,
    Tab,
    Up,
    Down,
    Left,
    Right,
    Home,
    End,
    PageUp,
    PageDown,
    Other,
}

/// A key press: the key and the bit set of held modifiers
/// (shift, control, alt, super, hyper, meta from the lowest bit up).
#[derive(Debug, Clone, Copy, PartialEq, Eq, Structural)]
pub struct KeyEvent {
    pub code: KeyCode,
    pub modifiers: u8,
}

impl KeyEvent {
    /// A key press of `code` with `modifiers` held.
    pub fn new(code: KeyCode, modifiers: u8) -> (r: KeyEvent)
        ensures
            r.code == code,
            r.modifiers == modifiers,
    {
        KeyEvent { code, modifiers }
    }
}

/// The key was pressed with no modifier held.
pub open spec fn plain(key: KeyEvent, code: KeyCode) -> bool {
    key.modifiers == MOD_NONE && key.code == code
}

/// The key was pressed with only shift held.
pub open spec fn shifted(key: KeyEvent, code: KeyCode) -> bool {
    key.modifiers == MOD_SHIFT && key.code == code
}

/// The key was pressed with only control held.
pub open spec fn with_control(key: KeyEvent, code: KeyCode) -> bool {
    key.modifiers == MOD_CONTROL && key.code == code
}

/// Control or alt is among the held modifiers.
pub open spec fn has_control_or_alt(modifiers: u8) -> bool {
    modifiers & 6u8 != 0
}

/// Whether control or alt is held.
pub fn control_or_alt(modifiers: u8) -> (r: bool)
    ensures
        r == has_control_or_alt(modifiers),
{
    modifiers & 6u8 != 0
}

/// The key plays the selected song: Enter or a carriage return, unmodified.
pub open spec fn activates(key: KeyEvent) -> bool {
    plain(key, KeyCode::Enter) || plain(key, KeyCode::Char('\r'))
}

/// Whether the key plays the selected song.
pub fn is_song_activation_key(key: &KeyEvent) -> (r: bool)
    ensures
        r == activates(*key),
{
    key.modifiers == MOD_NONE && (key.code == KeyCode::Enter || key.code == KeyCode::Char('\r'))
}

/// A mouse button.
#[derive(Debug, Clone, Copy, PartialEq, Eq, Structural)]
pub enum MouseButton {
    Left,
    Right,
    Middle,
}

/// What the mouse did.
#[derive(Debug, Clone, Copy, PartialEq, Eq, Structural)]
pub enum MouseEventKind {
    Down(MouseButton),
    Up(MouseButton),
    Drag(MouseButton),
    Moved,
    ScrollUp,
    ScrollDown,
    Other,
}

/// A mouse event at a terminal cell.
#[derive(Debug, Clone, Copy, PartialEq, Eq, Structural)]
pub struct MouseEvent {
    pub kind: MouseEventKind,
    pub column: u16,
    pub row: u16,
}

} // verus!
