use rustgram::app::ActiveMessagingTab;
use rustgram::layout::{authorization_margin, chats_border_tone, messages_border_tone, BorderTone};

#[test]
fn margin_is_a_rounded_quarter() {
    for extent in 0..=u16::MAX {
        let expected = (extent as f64 * 0.25).round() as u16;
        assert_eq!(authorization_margin(extent), expected, "extent {}", extent);
    }
    assert_eq!(authorization_margin(0), 0);
    assert_eq!(authorization_margin(1), 0);
    assert_eq!(authorization_margin(2), 1);
    assert_eq!(authorization_margin(40), 10);
    assert_eq!(authorization_margin(u16::MAX), 16384);
}

#[test]
fn focused_pane_is_highlighted() {
    assert_eq!(chats_border_tone(ActiveMessagingTab::Chats), BorderTone::Highlighted);
    assert_eq!(chats_border_tone(ActiveMessagingTab::Messages), BorderTone::Dimmed);
    assert_eq!(messages_border_tone(ActiveMessagingTab::Messages), BorderTone::Highlighted);
    assert_eq!(messages_border_tone(ActiveMessagingTab::Chats), BorderTone::Dimmed);
}
