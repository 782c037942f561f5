use vstd::prelude::*;

verus! {

/// Cursor and paging keys that an editable text area reacts to.
#[derive(Clone, Copy, Debug, PartialEq, Eq, Structural)]
pub enum NavigationKey {
    Left,
    Right,
    Up,
    Down,
    Home,
    End,
    PageUp,
    PageDown,
}

/// The key that a terminal key event reports.
///
/// Keys that no text area distinguishes (Insert, BackTab, media keys, ...) are `Other`.
#[derive(Clone, Copy, Debug, PartialEq, Eq, Structural)]
pub enum KeyCode {
    Char(char),
    F(u8),
    Backspace,
    Enter,
    Esc,
    Delete,
    Tab,
    Navigation(NavigationKey),
    Other,
}

/// Whether a key event reports a press, an auto-repeat or a release.
#[derive(Clone, Copy, Debug, PartialEq, Eq, Structural)]
pub enum KeyEventKind {
    Press,
    Repeat,
    Release,
}

/// A key event as the input handling reads it.
#[derive(Clone, Copy, Debug, PartialEq, Eq, Structural)]
pub struct KeyPress {
    pub code: KeyCode,
    pub kind: KeyEventKind,
    pub ctrl: bool,
    pub alt: bool,
    pub shift: bool,
}

/// Longest phone number, in bytes, that typing may extend.
pub const PHONE_NUMBER_MAX_LEN: usize = 15;

/// Longest login code, in bytes, that typing may extend.
pub const LOGIN_CODE_MAX_LEN: usize = 5;

/// The event reports that the key went down.
pub open spec fn is_press(key: KeyPress) -> bool {
    key.kind == KeyEventKind::Press
}

/// The key types one of the decimal digits `0` to `9`.
pub open spec fn is_digit_key(code: KeyCode) -> bool {
    code matches KeyCode::Char(c) && '0' <= c <= '9'
}

/// A key that may change a numeric field whose text is `text_len` bytes long and may
/// grow to fewer than `max_len` bytes: a digit while there is room, Backspace or Delete.
pub open spec fn edits_numeric_field(key: KeyPress, text_len: nat, max_len: nat) -> bool {
    &&& is_press(key)
    &&& (is_digit_key(key.code) && text_len < max_len) || key.code == KeyCode::Backspace
        || key.code == KeyCode::Delete
}

/// Whether the event reports that a key went down.
pub fn is_key_event_press(key: &KeyPress) -> (res: bool)
    ensures
        res == is_press(*key),
{
    key.kind == KeyEventKind::Press
}

/// Whether the key asks to close the application: Esc, pressed.
pub fn handle_esc_to_close(key: &KeyPress) -> (res: bool)
    ensures
        res == (is_press(*key) && key.code == KeyCode::Esc),
{
    if key.kind == KeyEventKind::Press && key.code == KeyCode::Esc {
        return true;
    }
    false
}

fn is_digit(code: KeyCode) -> (res: bool)
    ensures
        res == is_digit_key(code),
{
    match code {
        KeyCode::Char(c) => '0' <= c && c <= '9',
        _ => false,
    }
}

/// Whether the key may edit the phone number, whose text is `text_len` bytes long: a digit
/// while the number is shorter than fifteen bytes, Backspace or Delete, pressed.
pub fn is_key_suitable_for_phone_number_editing(key: &KeyPress, text_len: usize) -> (res: bool)
    ensures
        res == edits_numeric_field(*key, text_len as nat, PHONE_NUMBER_MAX_LEN as nat),
{
    is_key_event_press(key) && ((is_digit(key.code) && text_len < PHONE_NUMBER_MAX_LEN)
        || key.code == KeyCode::Backspace || key.code == KeyCode::Delete)
}

/// Whether the key may edit the login code, whose text is `text_len` bytes long: a digit
/// while the code is shorter than five bytes, Backspace or Delete, pressed.
pub fn is_key_suitable_for_code_editing(key: &KeyPress, text_len: usize) -> (res: bool)
    ensures
        res == edits_numeric_field(*key, text_len as nat, LOGIN_CODE_MAX_LEN as nat),
{
    is_key_event_press(key) && ((is_digit(key.code) && text_len < LOGIN_CODE_MAX_LEN)
        || key.code == KeyCode::Backspace || key.code == KeyCode::Delete)
}

} // verus!
