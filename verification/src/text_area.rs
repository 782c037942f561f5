use vstd::prelude::*;
use vstd::string::*;

use crate::keys::{KeyCode, KeyPress, NavigationKey};

verus! {

/// An editable line of text on the screen, backed by a `tui_textarea::TextArea`.
///
/// The text area is held whole and opaque. The library reads and edits it only through the
/// functions of this module, whose contracts speak of its lines, its placeholder and its
/// alignment. The text area is public so that the drawing code can render it.
#[verifier::external_body]
pub struct TextField<'a> {
    pub area: tui_textarea::TextArea<'a>,
}

#[verifier::external_type_specification]
#[verifier::external_body]
pub struct ExTextAreaKey(tui_textarea::Key);

/// Horizontal alignment of the text inside a text area.
#[derive(Clone, Copy, Debug, PartialEq, Eq, Structural)]
pub enum TextAlignment {
    Left,
    Center,
    Right,
}

/// The lines of text that a text area holds, in order.
pub uninterp spec fn text_area_lines(area: TextField) -> Seq<Seq<char>>;

/// The placeholder text that a text area shows while it is empty.
pub uninterp spec fn text_area_placeholder(area: TextField) -> Seq<char>;

/// The alignment that a text area renders its text with.
pub uninterp spec fn text_area_alignment(area: TextField) -> TextAlignment;

/// The lines that a text area holds once it has taken in the key.
pub uninterp spec fn text_area_lines_after_input(area: TextField, key: KeyPress) -> Seq<Seq<char>>;

/// All the characters of some lines, in order.
pub open spec fn text_of(lines: Seq<Seq<char>>) -> Seq<char> {
    lines.flatten_alt()
}

/// `after` comes from `before` by deleting text: no more lines, no more characters, and
/// only characters that were there.
pub open spec fn only_deletes(before: Seq<Seq<char>>, after: Seq<Seq<char>>) -> bool {
    &&& after.len() <= before.len()
    &&& text_of(after).len() <= text_of(before).len()
    &&& forall|k: int|
        0 <= k < text_of(after).len() ==> text_of(before).contains(#[trigger] text_of(after)[k])
}

/// `after` comes from `before` by deleting text and typing `c` once at most: no more
/// lines, at most one character more, and every character was there or is `c`.
pub open spec fn deletes_then_types(before: Seq<Seq<char>>, after: Seq<Seq<char>>, c: char) -> bool {
    &&& after.len() <= before.len()
    &&& text_of(after).len() <= text_of(before).len() + 1
    &&& forall|k: int|
        0 <= k < text_of(after).len() ==> text_of(before).contains(#[trigger] text_of(after)[k])
            || text_of(after)[k] == c
}

/// `TextArea::default()` in `tui-textarea`: it builds the text area from one empty line,
/// with an empty placeholder and left alignment.
#[verifier::external_body]
pub(crate) fn new_text_area<'a>() -> (area: TextField<'a>)
    ensures
        text_area_lines(area) == seq![Seq::<char>::empty()],
        text_area_placeholder(area) == Seq::<char>::empty(),
        text_area_alignment(area) == TextAlignment::Left,
{
    TextField { area: tui_textarea::TextArea::default() }
}

/// `TextArea::set_placeholder_text` in `tui-textarea`: replaces the placeholder and nothing
/// else.
#[verifier::external_body]
pub(crate) fn set_placeholder_text(area: &mut TextField, placeholder: String)
    ensures
        text_area_placeholder(*final(area)) == placeholder@,
        text_area_lines(*final(area)) == text_area_lines(*old(area)),
        text_area_alignment(*final(area)) == text_area_alignment(*old(area)),
{
    area.area.set_placeholder_text(placeholder)
}

/// `TextArea::set_alignment` in `tui-textarea`: replaces the alignment (and, for a centred
/// or right alignment, turns line numbers off, which no name here covers); the lines and
/// the placeholder stay.
#[verifier::external_body]
pub(crate) fn set_alignment(area: &mut TextField, alignment: TextAlignment)
    ensures
        text_area_alignment(*final(area)) == alignment,
        text_area_lines(*final(area)) == text_area_lines(*old(area)),
        text_area_placeholder(*final(area)) == text_area_placeholder(*old(area)),
{
    area.area.set_alignment(match alignment {
        TextAlignment::Left => ratatui::layout::HorizontalAlignment::Left,
        TextAlignment::Center => ratatui::layout::HorizontalAlignment::Center,
        TextAlignment::Right => ratatui::layout::HorizontalAlignment::Right,
    })
}

/// `TextArea::lines()[0]` in `tui-textarea`: the first line of the text area (a `&str`,
/// whose byte length fits in `usize`).
#[verifier::external_body]
pub(crate) fn first_line<'b>(area: &'b TextField) -> (line: &'b str)
    requires
        text_area_lines(*area).len() > 0,
    ensures
        line@ == text_area_lines(*area)[0],
        line.spec_bytes().len() <= usize::MAX,
{
    area.area.lines()[0].as_str()
}

/// The `tui_textarea::Key` for a key code, variant for variant; `Other` is `Key::Null`,
/// which a text area ignores.
#[verifier::external_body]
fn text_area_key(code: KeyCode) -> tui_textarea::Key {
    match code {
        KeyCode::Char(c) => tui_textarea::Key::Char(c),
        KeyCode::F(n) => tui_textarea::Key::F(n),
        KeyCode::Backspace => tui_textarea::Key::Backspace,
        KeyCode::Enter => tui_textarea::Key::Enter,
        KeyCode::Esc => tui_textarea::Key::Esc,
        KeyCode::Delete => tui_textarea::Key::Delete,
        KeyCode::Tab => tui_textarea::Key::Tab,
        KeyCode::Navigation(key) => navigation_key(key),
        KeyCode::Other => tui_textarea::Key::Null,
    }
}

/// The `tui_textarea::Key` for a cursor or paging key, variant for variant.
#[verifier::external_body]
fn navigation_key(key: NavigationKey) -> tui_textarea::Key {
    match key {
        NavigationKey::Left => tui_textarea::Key::Left,
        NavigationKey::Right => tui_textarea::Key::Right,
        NavigationKey::Up => tui_textarea::Key::Up,
        NavigationKey::Down => tui_textarea::Key::Down,
        NavigationKey::Home => tui_textarea::Key::Home,
        NavigationKey::End => tui_textarea::Key::End,
        NavigationKey::PageUp => tui_textarea::Key::PageUp,
        NavigationKey::PageDown => tui_textarea::Key::PageDown,
    }
}

/// `TextArea::input` in `tui-textarea`: hands the key, with its modifiers, to the text
/// area's default key mappings, which edit the lines at the cursor (inserting, deleting,
/// joining and splitting lines, undo and redo) and never leave the text area without a line.
/// What the lines become is a function of the text area and the key, named here and not
/// stated, and so is whether anything changed. The placeholder and the alignment are left
/// as they were. Two facts of `tui-textarea`'s code are stated. A digit key either does
/// nothing (with Ctrl or Alt, no mapping takes a digit) or goes to `insert_char`, which
/// deletes the selection, if any, and inserts the digit within the cursor's line. Backspace
/// and Delete either do nothing or go to `delete_char`, `delete_next_char`, `delete_word` or
/// `delete_next_word`, which only remove characters and join lines. And no mapping takes
/// Esc, a function key or `Key::Null`: those leave the lines as they were.
#[verifier::external_body]
pub(crate) fn text_area_input(area: &mut TextField, key: KeyPress) -> (modified: bool)
    ensures
        text_area_lines(*final(area)) == text_area_lines_after_input(*old(area), key),
        text_area_lines(*final(area)).len() > 0,
        key.code == KeyCode::Esc || key.code is F || key.code is Other ==> text_area_lines(
            *final(area),
        ) == text_area_lines(*old(area)),
        key.code matches KeyCode::Char(c) ==> ('0' <= c <= '9' ==> deletes_then_types(
            text_area_lines(*old(area)),
            text_area_lines(*final(area)),
            c,
        )),
        key.code == KeyCode::Backspace || key.code == KeyCode::Delete ==> only_deletes(
            text_area_lines(*old(area)),
            text_area_lines(*final(area)),
        ),
        text_area_placeholder(*final(area)) == text_area_placeholder(*old(area)),
        text_area_alignment(*final(area)) == text_area_alignment(*old(area)),
{
    let input = tui_textarea::Input {
        key: text_area_key(key.code),
        ctrl: key.ctrl,
        alt: key.alt,
        shift: key.shift,
    };
    area.area.input(input)
}

} // verus!
