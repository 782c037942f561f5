use rustgram::app::{authorization_key_decision, AuthorizationStep, KeyDecision};
use rustgram::keys::{
    handle_esc_to_close, is_key_event_press, is_key_suitable_for_code_editing,
    is_key_suitable_for_phone_number_editing, KeyCode, KeyEventKind, KeyPress, NavigationKey,
};

fn pressed(code: KeyCode) -> KeyPress {
    KeyPress { code, kind: KeyEventKind::Press, ctrl: false, alt: false, shift: false }
}

fn released(code: KeyCode) -> KeyPress {
    KeyPress { code, kind: KeyEventKind::Release, ctrl: false, alt: false, shift: false }
}

#[test]
fn press_is_recognised() {
    assert!(is_key_event_press(&pressed(KeyCode::Enter)));
    assert!(!is_key_event_press(&released(KeyCode::Enter)));
    let repeated = KeyPress { kind: KeyEventKind::Repeat, ..pressed(KeyCode::Char('1')) };
    assert!(!is_key_event_press(&repeated));
}

#[test]
fn esc_closes_only_when_pressed() {
    assert!(handle_esc_to_close(&pressed(KeyCode::Esc)));
    assert!(!handle_esc_to_close(&released(KeyCode::Esc)));
    assert!(!handle_esc_to_close(&pressed(KeyCode::Enter)));
    assert!(!handle_esc_to_close(&pressed(KeyCode::Char('q'))));
}

#[test]
fn phone_number_takes_digits_below_fifteen_bytes() {
    for c in '0'..='9' {
        assert!(is_key_suitable_for_phone_number_editing(&pressed(KeyCode::Char(c)), 0));
        assert!(is_key_suitable_for_phone_number_editing(&pressed(KeyCode::Char(c)), 14));
        assert!(!is_key_suitable_for_phone_number_editing(&pressed(KeyCode::Char(c)), 15));
    }
    assert!(!is_key_suitable_for_phone_number_editing(&pressed(KeyCode::Char('a')), 0));
    assert!(!is_key_suitable_for_phone_number_editing(&pressed(KeyCode::Char('+')), 0));
    assert!(!is_key_suitable_for_phone_number_editing(&pressed(KeyCode::Char('/')), 0));
    assert!(!is_key_suitable_for_phone_number_editing(&pressed(KeyCode::Char(':')), 0));
    assert!(is_key_suitable_for_phone_number_editing(&pressed(KeyCode::Backspace), 15));
    assert!(is_key_suitable_for_phone_number_editing(&pressed(KeyCode::Delete), 40));
    assert!(!is_key_suitable_for_phone_number_editing(&released(KeyCode::Char('5')), 0));
    assert!(!is_key_suitable_for_phone_number_editing(&released(KeyCode::Backspace), 3));
    assert!(!is_key_suitable_for_phone_number_editing(
        &pressed(KeyCode::Navigation(NavigationKey::Left)),
        3
    ));
}

#[test]
fn login_code_takes_digits_below_five_bytes() {
    assert!(is_key_suitable_for_code_editing(&pressed(KeyCode::Char('7')), 4));
    assert!(!is_key_suitable_for_code_editing(&pressed(KeyCode::Char('7')), 5));
    assert!(is_key_suitable_for_code_editing(&pressed(KeyCode::Backspace), 5));
    assert!(is_key_suitable_for_code_editing(&pressed(KeyCode::Delete), 5));
    assert!(!is_key_suitable_for_code_editing(&pressed(KeyCode::Char('x')), 0));
    assert!(!is_key_suitable_for_code_editing(&pressed(KeyCode::Enter), 2));
}

#[test]
fn key_decisions_per_step() {
    let phone = AuthorizationStep::EnteringPhoneNumber;
    let code = AuthorizationStep::EnteringCode;
    let password = AuthorizationStep::EnteringPassword;
    assert_eq!(authorization_key_decision(phone, &pressed(KeyCode::Char('4')), 3), KeyDecision::EditText);
    assert_eq!(authorization_key_decision(phone, &pressed(KeyCode::Char('4')), 15), KeyDecision::Ignore);
    assert_eq!(authorization_key_decision(phone, &pressed(KeyCode::Enter), 3), KeyDecision::Submit);
    assert_eq!(authorization_key_decision(phone, &pressed(KeyCode::Enter), 0), KeyDecision::Ignore);
    assert_eq!(authorization_key_decision(phone, &released(KeyCode::Enter), 3), KeyDecision::Submit);
    assert_eq!(authorization_key_decision(code, &pressed(KeyCode::Char('4')), 5), KeyDecision::Ignore);
    assert_eq!(authorization_key_decision(code, &pressed(KeyCode::Char('4')), 4), KeyDecision::EditText);
    assert_eq!(authorization_key_decision(code, &pressed(KeyCode::Enter), 5), KeyDecision::Submit);
    assert_eq!(authorization_key_decision(password, &pressed(KeyCode::Char('x')), 0), KeyDecision::EditText);
    assert_eq!(authorization_key_decision(password, &pressed(KeyCode::Esc), 0), KeyDecision::EditText);
    assert_eq!(authorization_key_decision(password, &released(KeyCode::Char('x')), 0), KeyDecision::Ignore);
    assert_eq!(authorization_key_decision(password, &pressed(KeyCode::Enter), 8), KeyDecision::Submit);
    assert_eq!(authorization_key_decision(password, &pressed(KeyCode::Enter), 0), KeyDecision::Ignore);
}

#[test]
fn enter_is_never_typed_into_a_field() {
    for step in [
        AuthorizationStep::EnteringPhoneNumber,
        AuthorizationStep::EnteringCode,
        AuthorizationStep::EnteringPassword,
    ] {
        for len in 0..20 {
            assert_ne!(authorization_key_decision(step, &pressed(KeyCode::Enter), len), KeyDecision::EditText);
        }
    }
}
