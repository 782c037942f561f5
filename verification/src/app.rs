use vstd::prelude::*;
use vstd::string::*;

use grammers_client::types::{LoginToken, PasswordToken};

use crate::chats::ChatEntry;
use crate::keys::{
    edits_numeric_field, is_digit_key, is_key_event_press, KeyEventKind, is_key_suitable_for_code_editing,
    is_key_suitable_for_phone_number_editing, is_press, KeyCode, KeyPress, LOGIN_CODE_MAX_LEN,
    PHONE_NUMBER_MAX_LEN,
};
use crate::text::utf8_len;
use crate::text_area::{
    first_line, new_text_area, set_alignment, set_placeholder_text, text_area_alignment,
    text_area_input, text_area_lines, text_area_lines_after_input, text_area_placeholder, TextAlignment, TextField,
};
use crate::tokens::{challenge_hint, PasswordChallenge};
use crate::history::{app_step, edited_text, entered_password_step, is_new_app, AppOp};

verus! {

/// The pane of the messaging screen that takes the keyboard.
#[derive(Clone, Copy, Debug, PartialEq, Eq, Structural)]
pub enum ActiveMessagingTab {
    Chats,
    Messages,
}

/// Why a request to the application could not be answered.
#[derive(Clone, Copy, Debug, PartialEq, Eq, Structural)]
pub enum AppError {
    NotAtAuthorizationStage,
    NotEnteringPhoneNumber,
    NotEnteringCode,
    NotEnteringPassword,
    LoginTokenMissing,
    PasswordTokenMissing,
}

/// The text that reports an error.
pub open spec fn app_error_text(e: AppError) -> Seq<char> {
    match e {
        AppError::NotAtAuthorizationStage => "Application must be at Authorization stage"@,
        AppError::NotEnteringPhoneNumber =>
            "Application must be at entering phone number authorization phase"@,
        AppError::NotEnteringCode => "Application must be at entering code authorization phase"@,
        AppError::NotEnteringPassword =>
            "Application must be at entering password authorization phase"@,
        AppError::LoginTokenMissing => "Login token is missing"@,
        AppError::PasswordTokenMissing => "Password token is missing"@,
    }
}

impl AppError {
    /// The text that reports this error.
    pub fn message(&self) -> (text: &'static str)
        ensures
            text@ == app_error_text(*self),
    {
        match self {
            AppError::NotAtAuthorizationStage => "Application must be at Authorization stage",
            AppError::NotEnteringPhoneNumber =>
                "Application must be at entering phone number authorization phase",
            AppError::NotEnteringCode => "Application must be at entering code authorization phase",
            AppError::NotEnteringPassword =>
                "Application must be at entering password authorization phase",
            AppError::LoginTokenMissing => "Login token is missing",
            AppError::PasswordTokenMissing => "Password token is missing",
        }
    }
}

/// The screen that shows the chats once the account is signed in.
pub struct AuthorizedState {
    selected_chat_index: usize,
    chats: Vec<ChatEntry>,
    active_messaging_tab: ActiveMessagingTab,
}

/// What an [`AuthorizedState`] holds.
pub struct AuthorizedStateView {
    pub selected_chat_index: usize,
    pub chats: Seq<ChatEntry>,
    pub active_messaging_tab: ActiveMessagingTab,
}

impl View for AuthorizedState {
    type V = AuthorizedStateView;

    closed spec fn view(&self) -> AuthorizedStateView {
        AuthorizedStateView {
            selected_chat_index: self.selected_chat_index,
            chats: self.chats@,
            active_messaging_tab: self.active_messaging_tab,
        }
    }
}

/// The screen just after sign-in: the first chat selected and the chat list focused.
pub open spec fn fresh_authorized_view(chats: Seq<ChatEntry>) -> AuthorizedStateView {
    AuthorizedStateView {
        selected_chat_index: 0,
        chats: chats,
        active_messaging_tab: ActiveMessagingTab::Chats,
    }
}

impl AuthorizedState {
    /// The screen for the given chats, with the first chat selected and the chat list focused.
    pub fn new(chats: Vec<ChatEntry>) -> (state: Self)
        ensures
            state@ == fresh_authorized_view(chats@),
    {
        AuthorizedState {
            selected_chat_index: 0,
            chats,
            active_messaging_tab: ActiveMessagingTab::Chats,
        }
    }

    /// The chats, in the order of the list.
    pub fn chats(&self) -> (chats: &Vec<ChatEntry>)
        ensures
            chats@ == self@.chats,
    {
        &self.chats
    }

    /// The position of the selected chat in the list.
    pub fn selected_chat_index(&self) -> (index: usize)
        ensures
            index == self@.selected_chat_index,
    {
        self.selected_chat_index
    }

    /// The pane that takes the keyboard.
    pub fn active_messaging_tab(&self) -> (tab: &ActiveMessagingTab)
        ensures
            *tab == self@.active_messaging_tab,
    {
        &self.active_messaging_tab
    }

    /// Selects the chat at the given position; nothing else changes.
    pub fn set_selected_chat_index(&mut self, selected_chat_index: usize)
        ensures
            final(self)@ == (AuthorizedStateView { selected_chat_index, ..old(self)@ }),
    {
        self.selected_chat_index = selected_chat_index;
    }

    /// How many chats the list holds.
    pub fn number_of_chats(&self) -> (n: usize)
        ensures
            n == self@.chats.len(),
    {
        self.chats.len()
    }
}

/// The steps of signing in.
#[derive(Clone, Copy, Debug, PartialEq, Eq, Structural)]
pub enum AuthorizationStep {
    EnteringPhoneNumber,
    EnteringCode,
    EnteringPassword,
}

/// A step of signing in, with the field that the user types into.
pub enum AuthorizationPhase<'a> {
    EnteringPhoneNumber(TextField<'a>),
    EnteringCode(TextField<'a>),
    EnteringPassword(TextField<'a>),
}

impl<'a> AuthorizationPhase<'a> {
    /// The field that the user types into.
    pub open spec fn text_field(self) -> TextField<'a> {
        match self {
            AuthorizationPhase::EnteringPhoneNumber(f) => f,
            AuthorizationPhase::EnteringCode(f) => f,
            AuthorizationPhase::EnteringPassword(f) => f,
        }
    }

    /// Which step this is.
    pub open spec fn step(self) -> AuthorizationStep {
        match self {
            AuthorizationPhase::EnteringPhoneNumber(_) => AuthorizationStep::EnteringPhoneNumber,
            AuthorizationPhase::EnteringCode(_) => AuthorizationStep::EnteringCode,
            AuthorizationPhase::EnteringPassword(_) => AuthorizationStep::EnteringPassword,
        }
    }

    /// The text typed so far: the first line of the field.
    pub fn get_content_from_text_area(&self) -> (text: &str)
        requires
            text_area_lines(self.text_field()).len() > 0,
        ensures
            text@ == text_area_lines(self.text_field())[0],
            text.spec_bytes().len() <= usize::MAX,
    {
        match self {
            AuthorizationPhase::EnteringPhoneNumber(text_area) => first_line(text_area),
            AuthorizationPhase::EnteringCode(text_area) => first_line(text_area),
            AuthorizationPhase::EnteringPassword(text_area) => first_line(text_area),
        }
    }
}

/// Where the application stands: signing in, or signed in.
pub enum ApplicationStage<'a> {
    Authorization(AuthorizationPhase<'a>),
    Authorized(AuthorizedState),
}

/// A stage whose field, if it has one, holds a line.
pub open spec fn stage_well_formed(stage: ApplicationStage) -> bool {
    stage matches ApplicationStage::Authorization(phase) ==> text_area_lines(
        phase.text_field(),
    ).len() > 0
}

/// A field just set up for a prompt: empty, showing the prompt, centred.
pub open spec fn is_fresh_prompt(field: TextField, prompt: Seq<char>) -> bool {
    &&& text_area_lines(field) == seq![Seq::<char>::empty()]
    &&& text_area_placeholder(field) == prompt
    &&& text_area_alignment(field) == TextAlignment::Center
}

/// The prompt of the phone number field.
pub open spec fn phone_number_prompt() -> Seq<char> {
    "Enter your phone number (international format)"@
}

/// The prompt of the login code field.
pub open spec fn code_prompt() -> Seq<char> {
    "Enter the code you received"@
}

/// The prompt of the password field for the given hint.
pub open spec fn password_prompt_text(hint: Option<Seq<char>>) -> Seq<char> {
    "Enter the password (hint "@ + match hint {
        Some(h) => h,
        None => "None"@,
    } + "): "@
}

/// The prompt of the password field: it shows the password's hint, or `None` when there is
/// none.
pub fn password_prompt(hint: Option<&str>) -> (prompt: String)
    ensures
        prompt@ == password_prompt_text(
            match hint {
                Some(h) => Some(h@),
                None => None,
            },
        ),
{
    let mut prompt = String::from_str("Enter the password (hint ");
    match hint {
        Some(h) => prompt.append(h),
        None => prompt.append("None"),
    }
    prompt.append("): ");
    prompt
}

/// A fresh field with the given prompt, centred.
fn prompt_field<'b>(prompt: String) -> (field: TextField<'b>)
    ensures
        is_fresh_prompt(field, prompt@),
{
    let mut field = new_text_area();
    set_placeholder_text(&mut field, prompt);
    set_alignment(&mut field, TextAlignment::Center);
    field
}

/// The application: the API credentials, where sign-in stands, and the tokens that
/// Telegram handed out on the way.
pub struct App<'a> {
    telegram_api_id: i32,
    phone: String,
    api_hash: String,
    application_stage: ApplicationStage<'a>,
    login_token: Option<LoginToken>,
    password_token: Option<PasswordToken>,
}

/// What an [`App`] holds.
pub struct AppView<'a> {
    pub telegram_api_id: i32,
    pub phone: Seq<char>,
    pub api_hash: Seq<char>,
    pub stage: ApplicationStage<'a>,
    pub login_token: Option<LoginToken>,
    pub password_token: Option<PasswordToken>,
}

impl<'a> View for App<'a> {
    type V = AppView<'a>;

    closed spec fn view(&self) -> AppView<'a> {
        AppView {
            telegram_api_id: self.telegram_api_id,
            phone: self.phone@,
            api_hash: self.api_hash@,
            stage: self.application_stage,
            login_token: self.login_token,
            password_token: self.password_token,
        }
    }
}

/// The text typed at the given step, or why there is none.
pub open spec fn entered_text(stage: ApplicationStage, step: AuthorizationStep) -> Result<
    Seq<char>,
    AppError,
> {
    match stage {
        ApplicationStage::Authorization(phase) => if phase.step() == step {
            Ok(text_area_lines(phase.text_field())[0])
        } else {
            Err(
                match step {
                    AuthorizationStep::EnteringPhoneNumber => AppError::NotEnteringPhoneNumber,
                    AuthorizationStep::EnteringCode => AppError::NotEnteringCode,
                    AuthorizationStep::EnteringPassword => AppError::NotEnteringPassword,
                },
            )
        },
        ApplicationStage::Authorized(_) => Err(AppError::NotAtAuthorizationStage),
    }
}

/// A text answer that carries the expected text or the expected error.
pub open spec fn answers_text(answer: Result<&str, AppError>, expected: Result<Seq<char>, AppError>) -> bool {
    match answer {
        Ok(text) => expected matches Ok(t) && text@ == t,
        Err(e) => expected == Err::<Seq<char>, AppError>(e),
    }
}

/// What asking for the login token answers.
pub open spec fn login_token_answer(app: AppView) -> Result<LoginToken, AppError> {
    match app.login_token {
        Some(token) => Ok(token),
        None => Err(AppError::LoginTokenMissing),
    }
}

/// What asking for the password token answers.
pub open spec fn password_token_answer(app: AppView) -> Result<PasswordToken, AppError> {
    match app.password_token {
        Some(token) => Ok(token),
        None => Err(AppError::PasswordTokenMissing),
    }
}

/// What a key does on a sign-in screen.
#[derive(Clone, Copy, Debug, PartialEq, Eq, Structural)]
pub enum KeyDecision {
    /// The key goes to the field.
    EditText,
    /// The typed text is sent on.
    Submit,
    /// The key is dropped.
    Ignore,
}

/// What a key does at a sign-in step whose field's first line is `text_len` bytes long.
pub open spec fn step_key_decision(step: AuthorizationStep, key: KeyPress, text_len: nat) -> KeyDecision {
    let edits = match step {
        AuthorizationStep::EnteringPhoneNumber => edits_numeric_field(
            key,
            text_len,
            PHONE_NUMBER_MAX_LEN as nat,
        ),
        AuthorizationStep::EnteringCode => edits_numeric_field(
            key,
            text_len,
            LOGIN_CODE_MAX_LEN as nat,
        ),
        AuthorizationStep::EnteringPassword => is_press(key) && key.code != KeyCode::Enter,
    };
    if edits {
        KeyDecision::EditText
    } else if key.code == KeyCode::Enter && text_len > 0 {
        KeyDecision::Submit
    } else {
        KeyDecision::Ignore
    }
}

/// What a key does at the given stage.
pub open spec fn stage_key_decision(stage: ApplicationStage, key: KeyPress) -> KeyDecision {
    match stage {
        ApplicationStage::Authorization(phase) => step_key_decision(
            phase.step(),
            key,
            utf8_len(text_area_lines(phase.text_field())[0]),
        ),
        ApplicationStage::Authorized(_) => KeyDecision::Ignore,
    }
}

/// What a key does at a sign-in step whose field's first line is `text_len` bytes long: the
/// phone number takes digits while shorter than fifteen bytes, the code while shorter than
/// five, both take Backspace and Delete; the password takes every pressed key but Enter.
/// Otherwise Enter submits a field that is not empty, and any other key is dropped.
pub fn authorization_key_decision(step: AuthorizationStep, key: &KeyPress, text_len: usize) -> (decision: KeyDecision)
    ensures
        decision == step_key_decision(step, *key, text_len as nat),
{
    let edits = match step {
        AuthorizationStep::EnteringPhoneNumber => is_key_suitable_for_phone_number_editing(key, text_len),
        AuthorizationStep::EnteringCode => is_key_suitable_for_code_editing(key, text_len),
        AuthorizationStep::EnteringPassword => is_key_event_press(key) && key.code != KeyCode::Enter,
    };
    if edits {
        KeyDecision::EditText
    } else if key.code == KeyCode::Enter && text_len > 0 {
        KeyDecision::Submit
    } else {
        KeyDecision::Ignore
    }
}

/// What a submitted field asks Telegram for.
pub enum Submission {
    /// Send a login code to this phone number.
    RequestLoginCode { phone: String },
    /// Sign in with this login code and the login token that the application keeps.
    SignIn { code: String },
    /// Check this password against the account's password token.
    CheckPassword { token: PasswordToken, password: String },
}

/// How signing in with a login code went.
pub enum SignInResult {
    /// The account is signed in.
    SignedIn,
    /// The account has a password, which must be given next.
    PasswordRequired(PasswordChallenge),
    /// Signing in failed.
    Failed,
}

/// What follows a sign-in attempt.
#[derive(Clone, Copy, Debug, PartialEq, Eq, Structural)]
pub enum SignInFollowUp {
    /// Save the session and show the chats.
    PersistSession,
    /// Wait for the password; the key event is handled.
    AwaitPassword,
    /// Report the failure.
    Abort,
}

/// What submitting the current field does: it leaves the application as `after` and asks
/// for `request`.
pub open spec fn submitted(before: AppView, after: AppView, request: Result<Submission, AppError>) -> bool {
    match before.stage {
        ApplicationStage::Authorization(phase) => match phase.step() {
            AuthorizationStep::EnteringPhoneNumber => {
                &&& after == before
                &&& request matches Ok(Submission::RequestLoginCode { phone })
                    && phone@ == text_area_lines(phase.text_field())[0]
            },
            AuthorizationStep::EnteringCode => {
                &&& after == before
                &&& request matches Ok(Submission::SignIn { code })
                    && code@ == text_area_lines(phase.text_field())[0]
            },
            AuthorizationStep::EnteringPassword => {
                &&& after == (AppView { password_token: None, ..before })
                &&& match before.password_token {
                    Some(t) => request matches Ok(Submission::CheckPassword { token, password })
                        && token == t && password@ == text_area_lines(phase.text_field())[0],
                    None => request matches Err(e) && e == AppError::PasswordTokenMissing,
                }
            },
        },
        ApplicationStage::Authorized(_) => {
            &&& after == before
            &&& request matches Err(e) && e == AppError::NotAtAuthorizationStage
        },
    }
}

/// What taking in a sign-in result does: it leaves the application as `after` and is
/// followed by `follow_up`.
pub open spec fn took_sign_in_result(
    before: AppView,
    after: AppView,
    result: SignInResult,
    follow_up: SignInFollowUp,
) -> bool {
    match result {
        SignInResult::SignedIn => follow_up == SignInFollowUp::PersistSession && after == before,
        SignInResult::Failed => follow_up == SignInFollowUp::Abort && after == before,
        SignInResult::PasswordRequired(challenge) => {
            &&& follow_up == SignInFollowUp::AwaitPassword
            &&& entered_password_step(before, after, challenge)
        },
    }
}

impl<'a> App<'a> {
    /// Every field of the application holds a line.
    pub open spec fn wf(&self) -> bool {
        stage_well_formed(self@.stage)
    }

    /// The application for an account that is signed in already, showing the given chats.
    pub fn new_authorized(telegram_api_id: i32, api_hash: String, chats: Vec<ChatEntry>) -> (app: Self)
        ensures
            app.wf(),
            app@.telegram_api_id == telegram_api_id,
            app@.phone == Seq::<char>::empty(),
            app@.api_hash == api_hash@,
            app@.stage matches ApplicationStage::Authorized(state) && state@ == fresh_authorized_view(chats@),
            app@.login_token is None,
            app@.password_token is None,
            is_new_app(app@, telegram_api_id, api_hash@),
    {
        Self {
            telegram_api_id,
            phone: String::default(),
            api_hash,
            application_stage: ApplicationStage::Authorized(AuthorizedState::new(chats)),
            login_token: None,
            password_token: None,
        }
    }

    /// The application for an account that must sign in: it asks for the phone number.
    pub fn new_unauthorized(telegram_api_id: i32, api_hash: String) -> (app: Self)
        ensures
            app.wf(),
            app@.telegram_api_id == telegram_api_id,
            app@.phone == Seq::<char>::empty(),
            app@.api_hash == api_hash@,
            app@.stage matches ApplicationStage::Authorization(AuthorizationPhase::EnteringPhoneNumber(field))
                && is_fresh_prompt(field, phone_number_prompt()),
            app@.login_token is None,
            app@.password_token is None,
            is_new_app(app@, telegram_api_id, api_hash@),
    {
        let phone_number_text_area = prompt_field(
            String::from_str("Enter your phone number (international format)"),
        );
        Self {
            telegram_api_id,
            phone: String::default(),
            api_hash,
            application_stage: ApplicationStage::Authorization(
                AuthorizationPhase::EnteringPhoneNumber(phone_number_text_area),
            ),
            login_token: None,
            password_token: None,
        }
    }

    /// The stage, to change in place.
    pub fn get_application_stage(&mut self) -> (stage: &mut ApplicationStage<'a>)
        ensures
            *stage == old(self)@.stage,
            final(self)@ == (AppView { stage: *final(stage), ..old(self)@ }),
            app_step(old(self)@, AppOp::ReplaceStage(*final(stage)), final(self)@),
    {
        &mut self.application_stage
    }

    /// The stage.
    pub fn get_application_stagee(&self) -> (stage: &ApplicationStage<'a>)
        ensures
            *stage == self@.stage,
    {
        &self.application_stage
    }

    fn entered_text_at(&self, step: AuthorizationStep) -> (answer: Result<&str, AppError>)
        requires
            self.wf(),
        ensures
            answers_text(answer, entered_text(self@.stage, step)),
            answer matches Ok(text) ==> text.spec_bytes().len() <= usize::MAX,
    {
        match &self.application_stage {
            ApplicationStage::Authorization(phase) => {
                let at_step = match phase {
                    AuthorizationPhase::EnteringPhoneNumber(_) => step == AuthorizationStep::EnteringPhoneNumber,
                    AuthorizationPhase::EnteringCode(_) => step == AuthorizationStep::EnteringCode,
                    AuthorizationPhase::EnteringPassword(_) => step == AuthorizationStep::EnteringPassword,
                };
                if at_step {
                    Ok(phase.get_content_from_text_area())
                } else {
                    Err(
                        match step {
                            AuthorizationStep::EnteringPhoneNumber => AppError::NotEnteringPhoneNumber,
                            AuthorizationStep::EnteringCode => AppError::NotEnteringCode,
                            AuthorizationStep::EnteringPassword => AppError::NotEnteringPassword,
                        },
                    )
                }
            },
            _ => Err(AppError::NotAtAuthorizationStage),
        }
    }

    /// The phone number typed so far; only while it is asked for.
    pub fn get_entered_phone_number(&self) -> (answer: Result<&str, AppError>)
        requires
            self.wf(),
        ensures
            answers_text(answer, entered_text(self@.stage, AuthorizationStep::EnteringPhoneNumber)),
    {
        self.entered_text_at(AuthorizationStep::EnteringPhoneNumber)
    }

    /// The login code typed so far; only while it is asked for.
    pub fn get_entered_code(&self) -> (answer: Result<&str, AppError>)
        requires
            self.wf(),
        ensures
            answers_text(answer, entered_text(self@.stage, AuthorizationStep::EnteringCode)),
    {
        self.entered_text_at(AuthorizationStep::EnteringCode)
    }

    /// The password typed so far; only while it is asked for.
    pub fn get_entered_password(&self) -> (answer: Result<&str, AppError>)
        requires
            self.wf(),
        ensures
            answers_text(answer, entered_text(self@.stage, AuthorizationStep::EnteringPassword)),
    {
        self.entered_text_at(AuthorizationStep::EnteringPassword)
    }

    /// Keeps the token that the request for a login code gave back.
    pub fn set_login_token(&mut self, login_token: LoginToken)
        ensures
            final(self)@ == (AppView { login_token: Some(login_token), ..old(self)@ }),
            app_step(old(self)@, AppOp::SetLoginToken(login_token), final(self)@),
    {
        self.login_token = Some(login_token)
    }

    /// Takes in the token that the request for a login code gave back, and moves on to
    /// asking for the code.
    pub fn login_code_sent(&mut self, login_token: LoginToken)
        ensures
            final(self).wf(),
            app_step(old(self)@, AppOp::LoginCodeSent(login_token), final(self)@),
    {
        self.set_login_token(login_token);
        self.change_authorization_phase_to_code_entering();
    }

    /// The phone number that the application keeps.
    pub fn phone(&self) -> (phone: &str)
        ensures
            phone@ == self@.phone,
    {
        self.phone.as_str()
    }

    /// Moves on to asking for the login code.
    pub fn change_authorization_phase_to_code_entering(&mut self)
        ensures
            final(self).wf(),
            final(self)@ == (AppView { stage: final(self)@.stage, ..old(self)@ }),
            final(self)@.stage matches ApplicationStage::Authorization(AuthorizationPhase::EnteringCode(field))
                && is_fresh_prompt(field, code_prompt()),
            app_step(old(self)@, AppOp::EnterCodeStep, final(self)@),
    {
        let code_text_area = prompt_field(String::from_str("Enter the code you received"));
        self.application_stage = ApplicationStage::Authorization(
            AuthorizationPhase::EnteringCode(code_text_area),
        )
    }

    /// Moves on to asking for the password, and keeps the token that comes with it. The
    /// prompt shows the password's hint, or `None` when there is none.
    pub fn change_authorization_phase_to_password_entering(&mut self, challenge: PasswordChallenge)
        ensures
            final(self).wf(),
            final(self)@ == (AppView {
                stage: final(self)@.stage,
                password_token: Some(challenge.token),
                ..old(self)@
            }),
            final(self)@.stage matches ApplicationStage::Authorization(AuthorizationPhase::EnteringPassword(field))
                && is_fresh_prompt(field, password_prompt_text(challenge_hint(challenge))),
            app_step(old(self)@, AppOp::EnterPasswordStep(challenge), final(self)@),
    {
        let prompt = match &challenge.hint {
            Some(h) => password_prompt(Some(h.as_str())),
            None => password_prompt(None),
        };
        let password_text_area = prompt_field(prompt);
        self.application_stage = ApplicationStage::Authorization(
            AuthorizationPhase::EnteringPassword(password_text_area),
        );
        self.password_token = Some(challenge.token);
    }

    /// Moves on to the chat list, showing the given chats.
    pub fn change_application_stage_to_authorized(&mut self, chats: Vec<ChatEntry>)
        ensures
            final(self).wf(),
            final(self)@ == (AppView { stage: final(self)@.stage, ..old(self)@ }),
            final(self)@.stage matches ApplicationStage::Authorized(state) && state@ == fresh_authorized_view(chats@),
            app_step(old(self)@, AppOp::EnterAuthorizedStage(chats@), final(self)@),
    {
        let authorized_state = AuthorizedState::new(chats);
        self.application_stage = ApplicationStage::Authorized(authorized_state)
    }

    /// The token that the request for a login code gave back.
    pub fn get_login_token(&self) -> (answer: Result<&LoginToken, AppError>)
        ensures
            match answer {
                Ok(token) => login_token_answer(self@) == Ok::<LoginToken, AppError>(*token),
                Err(e) => login_token_answer(self@) == Err::<LoginToken, AppError>(e),
            },
    {
        match &self.login_token {
            None => Err(AppError::LoginTokenMissing),
            Some(token) => Ok(token),
        }
    }

    /// Hands out the password token, which the application then no longer holds.
    pub fn get_password_token(&mut self) -> (answer: Result<PasswordToken, AppError>)
        ensures
            answer == password_token_answer(old(self)@),
            final(self)@ == (AppView { password_token: None, ..old(self)@ }),
            app_step(old(self)@, AppOp::TakePasswordToken, final(self)@),
    {
        let option_password_token = self.password_token.take();
        match option_password_token {
            None => Err(AppError::PasswordTokenMissing),
            Some(token) => Ok(token),
        }
    }

    /// The API id of the application.
    pub fn telegram_api_id(&self) -> (id: i32)
        ensures
            id == self@.telegram_api_id,
    {
        self.telegram_api_id
    }

    /// The API hash of the application.
    pub fn api_hash(&self) -> (hash: &str)
        ensures
            hash@ == self@.api_hash,
    {
        self.api_hash.as_str()
    }

    /// What the key does at the current stage: see [`authorization_key_decision`]; once
    /// signed in, keys are dropped.
    pub fn key_decision(&self, key: &KeyPress) -> (decision: KeyDecision)
        requires
            self.wf(),
        ensures
            decision == stage_key_decision(self@.stage, *key),
    {
        match &self.application_stage {
            ApplicationStage::Authorization(phase) => {
                let text = phase.get_content_from_text_area();
                let step = match phase {
                    AuthorizationPhase::EnteringPhoneNumber(_) => AuthorizationStep::EnteringPhoneNumber,
                    AuthorizationPhase::EnteringCode(_) => AuthorizationStep::EnteringCode,
                    AuthorizationPhase::EnteringPassword(_) => AuthorizationStep::EnteringPassword,
                };
                authorization_key_decision(step, key, text.len())
            },
            ApplicationStage::Authorized(_) => KeyDecision::Ignore,
        }
    }

    /// Hands the key to the field of the current sign-in step. The step, its prompt and
    /// alignment, and everything else stay; once signed in, nothing happens.
    pub fn edit_active_text_area(&mut self, key: KeyPress) -> (modified: bool)
        requires
            old(self).wf(),
        ensures
            final(self).wf(),
            edited_text(old(self)@, key, final(self)@),
            old(self)@.stage is Authorized ==> !modified,
            app_step(old(self)@, AppOp::EditText(key), final(self)@),
    {
        match &mut self.application_stage {
            ApplicationStage::Authorization(phase) => match phase {
                AuthorizationPhase::EnteringPhoneNumber(text_area) => text_area_input(text_area, key),
                AuthorizationPhase::EnteringCode(text_area) => text_area_input(text_area, key),
                AuthorizationPhase::EnteringPassword(text_area) => text_area_input(text_area, key),
            },
            ApplicationStage::Authorized(_) => false,
        }
    }

    /// Takes in a key: it goes to the field of the current sign-in step when that step takes
    /// it (see [`App::key_decision`]); otherwise nothing changes. The decision is returned.
    pub fn handle_key(&mut self, key: KeyPress) -> (decision: KeyDecision)
        requires
            old(self).wf(),
        ensures
            final(self).wf(),
            decision == stage_key_decision(old(self)@.stage, key),
            app_step(old(self)@, AppOp::HandleKey(key), final(self)@),
    {
        let decision = self.key_decision(&key);
        if decision == KeyDecision::EditText {
            self.edit_active_text_area(key);
        }
        decision
    }

    /// What submitting the current field asks for: the phone number asks for a login code,
    /// the login code signs in, and the password, with the password token (which the
    /// application then no longer holds), is checked. Once signed in there is nothing to
    /// submit. Only the password step changes the application.
    pub fn submission(&mut self) -> (request: Result<Submission, AppError>)
        requires
            old(self).wf(),
        ensures
            final(self).wf(),
            submitted(old(self)@, final(self)@, request),
            app_step(old(self)@, AppOp::Submit, final(self)@),
    {
        let request = self.submission_request();
        proof {
            assert(submitted(old(self)@, self@, request));
        }
        request
    }

    /// The request of [`App::submission`], worked out for the current step.
    fn submission_request(&mut self) -> (request: Result<Submission, AppError>)
        requires
            old(self).wf(),
        ensures
            final(self).wf(),
            submitted(old(self)@, final(self)@, request),
    {
        let step = match &self.application_stage {
            ApplicationStage::Authorization(AuthorizationPhase::EnteringPhoneNumber(_)) => AuthorizationStep::EnteringPhoneNumber,
            ApplicationStage::Authorization(AuthorizationPhase::EnteringCode(_)) => AuthorizationStep::EnteringCode,
            ApplicationStage::Authorization(AuthorizationPhase::EnteringPassword(_)) => AuthorizationStep::EnteringPassword,
            ApplicationStage::Authorized(_) => return Err(AppError::NotAtAuthorizationStage),
        };
        match step {
            AuthorizationStep::EnteringPhoneNumber => {
                let phone = self.get_entered_phone_number()?;
                Ok(Submission::RequestLoginCode { phone: String::from_str(phone) })
            },
            AuthorizationStep::EnteringCode => {
                let code = self.get_entered_code()?;
                Ok(Submission::SignIn { code: String::from_str(code) })
            },
            AuthorizationStep::EnteringPassword => {
                let token = self.get_password_token()?;
                let password = self.get_entered_password()?;
                Ok(Submission::CheckPassword { token, password: String::from_str(password) })
            },
        }
    }

    /// Takes in how signing in with the login code went: on success the session is to be
    /// saved; when a password is required, the application asks for it; a failure is
    /// reported. Only the password request changes the application.
    pub fn handle_sign_in_result(&mut self, result: SignInResult) -> (follow_up: SignInFollowUp)
        requires
            old(self).wf(),
        ensures
            final(self).wf(),
            took_sign_in_result(old(self)@, final(self)@, result, follow_up),
            app_step(old(self)@, AppOp::TakeSignInResult(result), final(self)@),
    {
        let ghost before = self@;
        let ghost given = result;
        let follow_up = match result {
            SignInResult::SignedIn => SignInFollowUp::PersistSession,
            SignInResult::PasswordRequired(challenge) => {
                self.change_authorization_phase_to_password_entering(challenge);
                SignInFollowUp::AwaitPassword
            },
            SignInResult::Failed => SignInFollowUp::Abort,
        };
        proof {
            assert(took_sign_in_result(before, self@, given, follow_up));
        }
        follow_up
    }
}

/// The selected chat is the one last selected.
pub proof fn law_selected_chat_read_after_write(state: AuthorizedStateView, index: usize)
    ensures
        (AuthorizedStateView { selected_chat_index: index, ..state }).selected_chat_index == index,
        (AuthorizedStateView { selected_chat_index: index, ..state }).chats == state.chats,
{
}

/// A field's text can be read exactly at its own step of signing in.
pub proof fn law_entered_text_only_at_its_step(stage: ApplicationStage, step: AuthorizationStep)
    ensures
        entered_text(stage, step) is Ok <==> (stage matches ApplicationStage::Authorization(phase)
            && phase.step() == step),
{
}

/// Only Enter submits, and only a field that holds text.
pub proof fn law_submit_only_on_enter_with_text(step: AuthorizationStep, key: KeyPress, text_len: nat)
    ensures
        step_key_decision(step, key, text_len) == KeyDecision::Submit ==> key.code == KeyCode::Enter
            && text_len > 0,
{
}

/// Enter is never typed into a field, and only pressed keys are.
pub proof fn law_enter_is_never_typed(step: AuthorizationStep, key: KeyPress, text_len: nat)
    ensures
        step_key_decision(step, key, text_len) == KeyDecision::EditText ==> is_press(key) && key.code
            != KeyCode::Enter,
{
}

/// The phone number takes a character only while shorter than fifteen bytes, the login code
/// only while shorter than five, and both only digits.
pub proof fn law_numeric_fields_take_bounded_digits(step: AuthorizationStep, key: KeyPress, text_len: nat)
    ensures
        step != AuthorizationStep::EnteringPassword && key.code is Char && step_key_decision(
            step,
            key,
            text_len,
        ) == KeyDecision::EditText ==> is_digit_key(key.code) && text_len < (if step
            == AuthorizationStep::EnteringPhoneNumber {
            PHONE_NUMBER_MAX_LEN
        } else {
            LOGIN_CODE_MAX_LEN
        }),
{
}

/// Once signed in, keys neither edit nor submit anything.
pub proof fn law_signed_in_ignores_keys(state: AuthorizedState, key: KeyPress)
    ensures
        stage_key_decision(ApplicationStage::Authorized(state), key) == KeyDecision::Ignore,
{
}

/// When Telegram asks for the password, the password prompt shows the hint that came with
/// the request, and the next submission checks the typed password with the very token that
/// came with it; the application then lets go of that token.
pub proof fn law_required_password_is_checked_with_its_token(
    signed: AppView,
    asked: AppView,
    submitted_app: AppView,
    challenge: PasswordChallenge,
    follow_up: SignInFollowUp,
    request: Result<Submission, AppError>,
)
    requires
        took_sign_in_result(signed, asked, SignInResult::PasswordRequired(challenge), follow_up),
        submitted(asked, submitted_app, request),
    ensures
        follow_up == SignInFollowUp::AwaitPassword,
        asked.stage matches ApplicationStage::Authorization(AuthorizationPhase::EnteringPassword(field))
            && text_area_placeholder(field) == password_prompt_text(challenge_hint(challenge)),
        request matches Ok(Submission::CheckPassword { token: t, password }) && t == challenge.token,
        submitted_app.password_token is None,
        submitted_app.login_token == signed.login_token,
{
}

/// The decision at a sign-in stage is the decision of that stage's own step, on the byte
/// length of the text in its field; once signed in, every key is dropped.
pub proof fn law_stage_decides_by_its_own_step(stage: ApplicationStage, key: KeyPress)
    ensures
        stage matches ApplicationStage::Authorization(phase) ==> stage_key_decision(stage, key)
            == step_key_decision(phase.step(), key, utf8_len(text_area_lines(phase.text_field())[0])),
        stage is Authorized ==> stage_key_decision(stage, key) == KeyDecision::Ignore,
{
}

/// At the password step every pressed key other than Enter goes to the field, whatever the
/// field holds; Enter submits exactly when the field holds text; other keys are dropped.
pub proof fn law_password_step_takes_every_pressed_key(stage: ApplicationStage, key: KeyPress)
    ensures
        stage matches ApplicationStage::Authorization(AuthorizationPhase::EnteringPassword(field)) ==> ({
            let text = text_area_lines(field)[0];
            &&& (key.kind == KeyEventKind::Press && key.code != KeyCode::Enter) <==> stage_key_decision(
                stage,
                key,
            ) == KeyDecision::EditText
            &&& (key.code == KeyCode::Enter && text.len() > 0) <==> stage_key_decision(stage, key)
                == KeyDecision::Submit
        }),
{
    if let ApplicationStage::Authorization(AuthorizationPhase::EnteringPassword(field)) = stage {
        let text = text_area_lines(field)[0];
        lemma_utf8_len_zero_iff_empty(text);
    }
}

proof fn lemma_utf8_len_zero_iff_empty(s: Seq<char>)
    ensures
        (utf8_len(s) == 0) <==> (s.len() == 0),
{
    if s.len() > 0 {
        assert(vstd::utf8::encode_utf8(s) == vstd::utf8::encode_scalar(s[0] as u32)
            + vstd::utf8::encode_utf8(s.drop_first()));
    } else {
        assert(vstd::utf8::encode_utf8(s).len() == 0);
    }
}

/// What a key does at each sign-in step, given the byte length `n` of the field's text:
/// the phone number takes a pressed digit while shorter than fifteen bytes, the login code
/// while shorter than five, and both take a pressed Backspace or Delete; the password takes
/// every pressed key but Enter. At every step Enter submits exactly a non-empty field.
pub proof fn law_step_decisions(key: KeyPress, n: nat)
    ensures
        ({
            let pressed = key.kind == KeyEventKind::Press;
            let digit = match key.code {
                KeyCode::Char(c) => '0' <= c && c <= '9',
                _ => false,
            };
            let deletes = key.code == KeyCode::Backspace || key.code == KeyCode::Delete;
            &&& (step_key_decision(AuthorizationStep::EnteringPhoneNumber, key, n)
                == KeyDecision::EditText) <==> pressed && ((digit && n < 15) || deletes)
            &&& (step_key_decision(AuthorizationStep::EnteringCode, key, n) == KeyDecision::EditText)
                <==> pressed && ((digit && n < 5) || deletes)
            &&& (step_key_decision(AuthorizationStep::EnteringPassword, key, n)
                == KeyDecision::EditText) <==> pressed && key.code != KeyCode::Enter
            &&& (step_key_decision(AuthorizationStep::EnteringPhoneNumber, key, n)
                == KeyDecision::Submit) <==> key.code == KeyCode::Enter && n > 0
            &&& (step_key_decision(AuthorizationStep::EnteringCode, key, n) == KeyDecision::Submit)
                <==> key.code == KeyCode::Enter && n > 0
            &&& (step_key_decision(AuthorizationStep::EnteringPassword, key, n)
                == KeyDecision::Submit) <==> key.code == KeyCode::Enter && n > 0
        }),
{
}

/// A submission sends the text typed in the field of the step it was made at: the phone
/// number asks for a login code, the code signs in, and the password is checked with the
/// password token the application held. Each step asks only for its own request.
pub proof fn law_submission_sends_the_typed_text(
    before: AppView,
    after: AppView,
    request: Result<Submission, AppError>,
)
    requires
        submitted(before, after, request),
    ensures
        request matches Ok(Submission::RequestLoginCode { phone }) ==> (before.stage matches ApplicationStage::Authorization(
            AuthorizationPhase::EnteringPhoneNumber(field),
        ) && phone@ == text_area_lines(field)[0]),
        request matches Ok(Submission::SignIn { code }) ==> (before.stage matches ApplicationStage::Authorization(
            AuthorizationPhase::EnteringCode(field),
        ) && code@ == text_area_lines(field)[0]),
        request matches Ok(Submission::CheckPassword { token, password }) ==> (before.stage matches ApplicationStage::Authorization(
            AuthorizationPhase::EnteringPassword(field),
        ) && password@ == text_area_lines(field)[0] && before.password_token == Some(token)),
        before.stage matches ApplicationStage::Authorization(AuthorizationPhase::EnteringPassword(field))
            ==> (before.password_token matches Some(t) ==> (request matches Ok(
            Submission::CheckPassword { token, password },
        ) && token == t && password@ == text_area_lines(field)[0])),
        before.stage matches ApplicationStage::Authorization(phase) ==> (request is Err
            ==> phase.step() == AuthorizationStep::EnteringPassword && before.password_token is None),
{
}

} // verus!
