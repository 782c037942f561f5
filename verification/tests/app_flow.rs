use rustgram::app::{
    password_prompt, ActiveMessagingTab, App, AppError, ApplicationStage, AuthorizationPhase,
    AuthorizedState, KeyDecision, SignInFollowUp, SignInResult, Submission,
};
use rustgram::chats::{ChatEntry, ChatKind};
use rustgram::keys::{KeyCode, KeyEventKind, KeyPress, NavigationKey};

fn pressed(code: KeyCode) -> KeyPress {
    KeyPress { code, kind: KeyEventKind::Press, ctrl: false, alt: false, shift: false }
}

fn chats() -> Vec<ChatEntry> {
    vec![
        ChatEntry { kind: ChatKind::Group, name: "Team".to_string() },
        ChatEntry { kind: ChatKind::User { is_bot: false }, name: "Ann".to_string() },
    ]
}

fn typed(app: &mut App, keys: &str) {
    for c in keys.chars() {
        let key = pressed(KeyCode::Char(c));
        assert_eq!(app.key_decision(&key), KeyDecision::EditText);
        assert_eq!(app.handle_key(key), KeyDecision::EditText);
    }
}

#[test]
fn unauthorized_app_asks_for_the_phone_number() {
    let app = App::new_unauthorized(42, "hash".to_string());
    assert_eq!(app.telegram_api_id(), 42);
    assert_eq!(app.api_hash(), "hash");
    assert_eq!(app.phone(), "");
    match app.get_application_stagee() {
        ApplicationStage::Authorization(AuthorizationPhase::EnteringPhoneNumber(field)) => {
            assert_eq!(field.area.placeholder_text(), "Enter your phone number (international format)");
            assert_eq!(field.area.alignment(), ratatui::layout::Alignment::Center);
            assert_eq!(field.area.lines(), [""]);
        }
        _ => panic!("expected the phone number step"),
    }
    assert_eq!(app.get_entered_phone_number(), Ok(""));
    assert_eq!(app.get_entered_code(), Err(AppError::NotEnteringCode));
    assert_eq!(app.get_entered_password(), Err(AppError::NotEnteringPassword));
    assert!(matches!(app.get_login_token(), Err(AppError::LoginTokenMissing)));
}

#[test]
fn typing_and_submitting_the_phone_number() {
    let mut app = App::new_unauthorized(1, "h".to_string());
    assert_eq!(app.key_decision(&pressed(KeyCode::Enter)), KeyDecision::Ignore);
    assert_eq!(app.key_decision(&pressed(KeyCode::Char('a'))), KeyDecision::Ignore);
    typed(&mut app, "4912345");
    assert_eq!(app.get_entered_phone_number(), Ok("4912345"));
    assert_eq!(app.key_decision(&pressed(KeyCode::Backspace)), KeyDecision::EditText);
    assert!(app.edit_active_text_area(pressed(KeyCode::Backspace)));
    assert_eq!(app.get_entered_phone_number(), Ok("491234"));
    assert_eq!(app.key_decision(&pressed(KeyCode::Enter)), KeyDecision::Submit);
    match app.submission() {
        Ok(Submission::RequestLoginCode { phone }) => assert_eq!(phone, "491234"),
        _ => panic!("expected a login code request"),
    }
}

#[test]
fn phone_number_stops_at_fifteen_digits() {
    let mut app = App::new_unauthorized(1, "h".to_string());
    typed(&mut app, "123456789012345");
    assert_eq!(app.key_decision(&pressed(KeyCode::Char('6'))), KeyDecision::Ignore);
    assert_eq!(app.get_entered_phone_number(), Ok("123456789012345"));
}

#[test]
fn code_step_after_the_phone_number() {
    let mut app = App::new_unauthorized(1, "h".to_string());
    typed(&mut app, "12");
    app.change_authorization_phase_to_code_entering();
    match app.get_application_stagee() {
        ApplicationStage::Authorization(AuthorizationPhase::EnteringCode(field)) => {
            assert_eq!(field.area.placeholder_text(), "Enter the code you received");
            assert_eq!(field.area.alignment(), ratatui::layout::Alignment::Center);
        }
        _ => panic!("expected the code step"),
    }
    assert_eq!(app.get_entered_code(), Ok(""));
    assert_eq!(app.get_entered_phone_number(), Err(AppError::NotEnteringPhoneNumber));
    typed(&mut app, "54321");
    assert_eq!(app.key_decision(&pressed(KeyCode::Char('0'))), KeyDecision::Ignore);
    assert_eq!(app.key_decision(&pressed(KeyCode::Enter)), KeyDecision::Submit);
    match app.submission() {
        Ok(Submission::SignIn { code }) => assert_eq!(code, "54321"),
        _ => panic!("expected a sign-in request"),
    }
    assert_eq!(app.handle_sign_in_result(SignInResult::Failed), SignInFollowUp::Abort);
    assert_eq!(app.get_entered_code(), Ok("54321"));
    assert_eq!(app.handle_sign_in_result(SignInResult::SignedIn), SignInFollowUp::PersistSession);
    assert_eq!(app.get_entered_code(), Ok("54321"));
}

#[test]
fn missing_tokens_are_reported() {
    let mut app = App::new_unauthorized(1, "h".to_string());
    assert!(matches!(app.get_password_token(), Err(AppError::PasswordTokenMissing)));
    assert!(matches!(app.get_login_token(), Err(AppError::LoginTokenMissing)));
}

#[test]
fn authorized_app_shows_the_chats() {
    let mut app = App::new_authorized(7, "k".to_string(), chats());
    assert_eq!(app.telegram_api_id(), 7);
    assert_eq!(app.get_entered_phone_number(), Err(AppError::NotAtAuthorizationStage));
    assert_eq!(app.get_entered_code(), Err(AppError::NotAtAuthorizationStage));
    assert_eq!(app.key_decision(&pressed(KeyCode::Enter)), KeyDecision::Ignore);
    assert_eq!(app.key_decision(&pressed(KeyCode::Char('1'))), KeyDecision::Ignore);
    assert!(!app.edit_active_text_area(pressed(KeyCode::Char('1'))));
    assert!(matches!(app.submission(), Err(AppError::NotAtAuthorizationStage)));
    match app.get_application_stage() {
        ApplicationStage::Authorized(state) => {
            assert_eq!(state.number_of_chats(), 2);
            assert_eq!(state.selected_chat_index(), 0);
            assert_eq!(*state.active_messaging_tab(), ActiveMessagingTab::Chats);
            assert_eq!(state.chats()[1].name, "Ann");
            state.set_selected_chat_index(1);
        }
        _ => panic!("expected the chat list"),
    }
    match app.get_application_stagee() {
        ApplicationStage::Authorized(state) => assert_eq!(state.selected_chat_index(), 1),
        _ => panic!("expected the chat list"),
    }
}

#[test]
fn signing_in_leads_to_the_chats() {
    let mut app = App::new_unauthorized(3, "x".to_string());
    app.change_authorization_phase_to_code_entering();
    app.change_application_stage_to_authorized(chats());
    match app.get_application_stagee() {
        ApplicationStage::Authorized(state) => {
            assert_eq!(state.number_of_chats(), 2);
            assert_eq!(state.selected_chat_index(), 0);
        }
        _ => panic!("expected the chat list"),
    }
    assert_eq!(app.api_hash(), "x");
}

#[test]
fn selected_chat_is_the_last_selected() {
    let mut state = AuthorizedState::new(chats());
    state.set_selected_chat_index(5);
    assert_eq!(state.selected_chat_index(), 5);
    assert_eq!(state.number_of_chats(), 2);
    let empty = AuthorizedState::new(Vec::new());
    assert_eq!(empty.number_of_chats(), 0);
}

#[test]
fn password_prompt_shows_the_hint() {
    assert_eq!(password_prompt(Some("my cat")), "Enter the password (hint my cat): ");
    assert_eq!(password_prompt(None), "Enter the password (hint None): ");
}

#[test]
fn error_messages() {
    assert_eq!(AppError::NotAtAuthorizationStage.message(), "Application must be at Authorization stage");
    assert_eq!(
        AppError::NotEnteringPhoneNumber.message(),
        "Application must be at entering phone number authorization phase"
    );
    assert_eq!(AppError::NotEnteringCode.message(), "Application must be at entering code authorization phase");
    assert_eq!(
        AppError::NotEnteringPassword.message(),
        "Application must be at entering password authorization phase"
    );
    assert_eq!(AppError::LoginTokenMissing.message(), "Login token is missing");
    assert_eq!(AppError::PasswordTokenMissing.message(), "Password token is missing");
}

#[test]
fn cursor_keys_move_within_the_field() {
    let mut app = App::new_unauthorized(1, "h".to_string());
    typed(&mut app, "12");
    let left = pressed(KeyCode::Navigation(NavigationKey::Left));
    assert_eq!(app.key_decision(&left), KeyDecision::Ignore);
    app.change_authorization_phase_to_code_entering();
    typed(&mut app, "12");
    // Only the password field takes cursor keys; the numeric fields drop them.
    assert_eq!(app.key_decision(&left), KeyDecision::Ignore);
    app.change_application_stage_to_authorized(Vec::new());
    assert_eq!(app.key_decision(&left), KeyDecision::Ignore);
}

#[test]
fn delete_removes_the_character_under_the_cursor() {
    let mut app = App::new_unauthorized(1, "h".to_string());
    typed(&mut app, "123");
    match app.get_application_stage() {
        ApplicationStage::Authorization(AuthorizationPhase::EnteringPhoneNumber(field)) => {
            field.area.move_cursor(tui_textarea::CursorMove::Head);
        }
        _ => panic!("expected the phone number step"),
    }
    assert_eq!(app.key_decision(&pressed(KeyCode::Delete)), KeyDecision::EditText);
    assert!(app.edit_active_text_area(pressed(KeyCode::Delete)));
    assert_eq!(app.get_entered_phone_number(), Ok("23"));
    // With the cursor at the head, Backspace has nothing to delete.
    assert!(!app.edit_active_text_area(pressed(KeyCode::Backspace)));
    assert_eq!(app.get_entered_phone_number(), Ok("23"));
}

#[test]
fn handled_keys_that_are_not_taken_change_nothing() {
    let mut app = App::new_unauthorized(1, "h".to_string());
    typed(&mut app, "12");
    assert_eq!(app.handle_key(pressed(KeyCode::Char('x'))), KeyDecision::Ignore);
    assert_eq!(app.handle_key(pressed(KeyCode::Esc)), KeyDecision::Ignore);
    assert_eq!(app.handle_key(pressed(KeyCode::Navigation(NavigationKey::Left))), KeyDecision::Ignore);
    assert_eq!(app.get_entered_phone_number(), Ok("12"));
    assert_eq!(app.handle_key(pressed(KeyCode::Enter)), KeyDecision::Submit);
    assert_eq!(app.get_entered_phone_number(), Ok("12"));
    assert_eq!(app.handle_key(pressed(KeyCode::Backspace)), KeyDecision::EditText);
    assert_eq!(app.get_entered_phone_number(), Ok("1"));
}
