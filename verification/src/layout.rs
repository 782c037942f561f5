use vstd::prelude::*;

use crate::app::ActiveMessagingTab;

verus! {

/// How a pane's border is drawn.
#[derive(Clone, Copy, Debug, PartialEq, Eq, Structural)]
pub enum BorderTone {
    /// The pane takes the keyboard: a white border.
    Highlighted,
    /// Another pane takes the keyboard: a dark gray border.
    Dimmed,
}

/// The border of the chat list: highlighted while the chat list takes the keyboard.
pub fn chats_border_tone(tab: ActiveMessagingTab) -> (tone: BorderTone)
    ensures
        tone == (if tab == ActiveMessagingTab::Chats {
            BorderTone::Highlighted
        } else {
            BorderTone::Dimmed
        }),
{
    match tab {
        ActiveMessagingTab::Chats => BorderTone::Highlighted,
        _ => BorderTone::Dimmed,
    }
}

/// The border of the message pane: highlighted while the messages take the keyboard.
pub fn messages_border_tone(tab: ActiveMessagingTab) -> (tone: BorderTone)
    ensures
        tone == (if tab == ActiveMessagingTab::Messages {
            BorderTone::Highlighted
        } else {
            BorderTone::Dimmed
        }),
{
    match tab {
        ActiveMessagingTab::Messages => BorderTone::Highlighted,
        _ => BorderTone::Dimmed,
    }
}

/// The margin around the sign-in field along a side of the screen `extent` cells long: a
/// quarter of the extent, rounded to the nearest whole cell, halves rounded up.
pub fn authorization_margin(extent: u16) -> (margin: u16)
    ensures
        margin as int == (extent as int + 2) / 4,
        4 * margin <= extent + 2 < 4 * margin + 4,
{
    ((extent as u32 + 2) / 4) as u16
}

} // verus!
