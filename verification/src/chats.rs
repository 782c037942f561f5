use vstd::prelude::*;
use vstd::string::*;

use crate::text::{
    grapheme_clusters, law_narrow_text_chars_are_narrow, law_trimmed_is_inner_piece, narrow_text,
    remove_emoji_graphemes, trimmed, without_wide_graphemes,
};

verus! {

/// What kind of conversation a chat is.
#[derive(Clone, Copy, Debug, PartialEq, Eq, Structural)]
pub enum ChatKind {
    /// A conversation with one account; `is_bot` holds when that account is a bot.
    User { is_bot: bool },
    Group,
    Channel,
}

/// A chat as the chat list shows it: its kind and its name (a user's first name, or the
/// title of a group or a channel).
#[derive(Debug)]
pub struct ChatEntry {
    pub kind: ChatKind,
    pub name: String,
}

/// The symbol that marks each kind of chat in the chat list.
pub open spec fn chat_kind_symbol_text(kind: ChatKind) -> Seq<char> {
    match kind {
        ChatKind::User { is_bot } => if is_bot {
            "\u{1F916}"@
        } else {
            "\u{1F464}"@
        },
        ChatKind::Group => "\u{1F465}"@,
        ChatKind::Channel => "\u{1F4E2}"@,
    }
}

/// The symbol that marks a kind of chat in the chat list: a bot, a person, a group or a
/// loudspeaker.
pub fn chat_kind_symbol(kind: ChatKind) -> (symbol: &'static str)
    ensures
        symbol@ == chat_kind_symbol_text(kind),
{
    match kind {
        ChatKind::User { is_bot } => if is_bot {
            "\u{1F916}"
        } else {
            "\u{1F464}"
        },
        ChatKind::Group => "\u{1F465}",
        ChatKind::Channel => "\u{1F4E2}",
    }
}

/// The line of the chat list for a chat.
pub open spec fn chat_label_text(chat: ChatEntry) -> Seq<char> {
    chat_kind_symbol_text(chat.kind) + " "@ + without_wide_graphemes(chat.name@)
}

/// The line that the chat list shows for a chat: the symbol of its kind, a space, and its
/// name without emoji and without white space at either end.
pub fn chat_label(chat: &ChatEntry) -> (label: String)
    ensures
        label@ == chat_label_text(*chat),
        label@ == chat_kind_symbol_text(chat.kind) + " "@ + trimmed(
            narrow_text(grapheme_clusters(chat.name@, true)),
        ),
{
    let name = remove_emoji_graphemes(chat.name.as_str());
    let mut label = String::from_str(chat_kind_symbol(chat.kind));
    label.append(" ");
    label.append(name.as_str());
    label
}

/// The lines of the chat list, one per chat, in order.
pub fn chat_labels(chats: &Vec<ChatEntry>) -> (labels: Vec<String>)
    ensures
        labels@.len() == chats@.len(),
        forall|i: int| 0 <= i < chats@.len() ==> (#[trigger] labels@[i])@ == chat_label_text(chats@[i]),
{
    let mut labels: Vec<String> = Vec::new();
    let mut i: usize = 0;
    while i < chats.len()
        invariant
            i <= chats@.len(),
            labels@.len() == i,
            forall|k: int| 0 <= k < i ==> (#[trigger] labels@[k])@ == chat_label_text(chats@[k]),
        decreases chats.len() - i,
    {
        labels.push(chat_label(&chats[i]));
        i = i + 1;
    }
    labels
}

/// Every line of the chat list, whatever the kind of chat, is the kind's symbol, a space,
/// and the name with its clusters of three or more UTF-8 bytes dropped and its ends
/// trimmed; the name part holds only characters below U+0800.
pub proof fn law_every_chat_name_is_cleaned(chat: ChatEntry)
    ensures
        chat_label_text(chat) == chat_kind_symbol_text(chat.kind) + " "@ + trimmed(
            narrow_text(grapheme_clusters(chat.name@, true)),
        ),
        forall|k: int|
            0 <= k < trimmed(narrow_text(grapheme_clusters(chat.name@, true))).len() ==> (
            #[trigger] trimmed(narrow_text(grapheme_clusters(chat.name@, true)))[k] as u32) < 0x800,
{
    let joined = narrow_text(grapheme_clusters(chat.name@, true));
    law_narrow_text_chars_are_narrow(grapheme_clusters(chat.name@, true));
    law_trimmed_is_inner_piece(joined);
    let (i, j) = choose|i: int, j: int|
        0 <= i <= j <= joined.len() && trimmed(joined) == joined.subrange(i, j);
    assert forall|k: int| 0 <= k < trimmed(joined).len() implies (#[trigger] trimmed(joined)[k] as u32)
        < 0x800 by {
        assert(trimmed(joined)[k] == joined[i + k]);
    }
}

/// The symbol of each kind of chat: a bot, a person, a group of people, a loudspeaker.
pub proof fn law_chat_kind_symbols(is_bot: bool)
    ensures
        chat_kind_symbol_text(ChatKind::User { is_bot }) == if is_bot {
            "\u{1F916}"@
        } else {
            "\u{1F464}"@
        },
        chat_kind_symbol_text(ChatKind::Group) == "\u{1F465}"@,
        chat_kind_symbol_text(ChatKind::Channel) == "\u{1F4E2}"@,
{
}

} // verus!
