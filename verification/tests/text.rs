use unicode_segmentation::UnicodeSegmentation;
use rustgram::chats::{chat_kind_symbol, chat_label, chat_labels, ChatEntry, ChatKind};
use rustgram::text::{char_is_white_space, join_narrow_graphemes, remove_emoji_graphemes, trim};

#[test]
fn white_space_matches_std_for_every_char() {
    for v in 0u32..=0x10FFFF {
        if let Some(c) = char::from_u32(v) {
            assert_eq!(char_is_white_space(c), c.is_whitespace(), "U+{:04X}", v);
        }
    }
}

#[test]
fn trim_matches_std() {
    for s in ["", "   ", "\t hi \n", "a b", "\u{a0}x\u{3000}", "\u{2028}\u{85}y z\u{2009}", "no-space"] {
        assert_eq!(trim(s), s.trim());
    }
}

#[test]
fn emoji_are_removed_and_ends_trimmed() {
    assert_eq!(remove_emoji_graphemes("Alice \u{1F980}"), "Alice");
    assert_eq!(remove_emoji_graphemes("\u{1F525} Fire \u{1F525} news"), "Fire  news");
    assert_eq!(remove_emoji_graphemes("  Bob  "), "Bob");
    assert_eq!(remove_emoji_graphemes(""), "");
    assert_eq!(remove_emoji_graphemes("\u{1F469}\u{200D}\u{1F4BB}"), "");
}

#[test]
fn two_byte_letters_are_kept_three_byte_ones_dropped() {
    assert_eq!(remove_emoji_graphemes("Привет"), "Привет");
    assert_eq!(remove_emoji_graphemes("日本 Tokyo"), "Tokyo");
    // A letter with a combining accent is one cluster of three bytes.
    assert_eq!(remove_emoji_graphemes("Cafe\u{301}!"), "Caf!");
    // CR LF is a single cluster of two bytes.
    assert_eq!(remove_emoji_graphemes("a\r\nb"), "a\r\nb");
}

#[test]
fn removal_matches_the_original_pipeline() {
    for s in ["Mr. \u{1F916} Bot", "\u{1F1F7}\u{1F1FA}Russia", " x\u{308}y ", "über straße"] {
        let expected: String = s
            .graphemes(true)
            .filter(|g| g.len() == 1 || g.len() == 2)
            .collect::<String>()
            .trim()
            .to_string();
        assert_eq!(remove_emoji_graphemes(s), expected);
    }
}

#[test]
fn narrow_clusters_are_joined_in_order() {
    let clusters = vec![" ".to_string(), "a".to_string(), "\u{1F600}".to_string(), "é".to_string(), " ".to_string()];
    assert_eq!(join_narrow_graphemes(&clusters), "aé");
}

#[test]
fn chat_labels_carry_kind_symbols() {
    let bot = ChatEntry { kind: ChatKind::User { is_bot: true }, name: "Helper \u{1F916}".to_string() };
    let person = ChatEntry { kind: ChatKind::User { is_bot: false }, name: " Ann ".to_string() };
    let group = ChatEntry { kind: ChatKind::Group, name: "Team".to_string() };
    let channel = ChatEntry { kind: ChatKind::Channel, name: "\u{1F4F0} News".to_string() };
    assert_eq!(chat_label(&bot), "\u{1F916} Helper");
    assert_eq!(chat_label(&person), "\u{1F464} Ann");
    assert_eq!(chat_label(&group), "\u{1F465} Team");
    assert_eq!(chat_label(&channel), "\u{1F4E2} News");
    assert_eq!(chat_kind_symbol(ChatKind::Group), "\u{1F465}");
    let labels = chat_labels(&vec![group, channel]);
    assert_eq!(labels, vec!["\u{1F465} Team".to_string(), "\u{1F4E2} News".to_string()]);
}

#[test]
fn cleaned_names_are_no_longer_and_keep_no_wide_characters() {
    for s in ["Alice \u{1F980}", "  Bob  ", "日本 Tokyo", "Привет \u{1F600}", "Cafe\u{301}!", ""] {
        let cleaned = remove_emoji_graphemes(s);
        assert!(cleaned.len() <= s.len());
        assert!(cleaned.chars().all(|c| (c as u32) < 0x800));
        assert_eq!(cleaned.trim(), cleaned);
    }
}
