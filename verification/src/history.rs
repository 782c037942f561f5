use vstd::prelude::*;

use grammers_client::types::{LoginToken, PasswordToken};

use crate::app::{
    code_prompt, is_fresh_prompt, fresh_authorized_view, password_prompt_text, password_token_answer,
    stage_key_decision, submitted, took_sign_in_result, login_token_answer, AppError, AppView,
    ApplicationStage, AuthorizationPhase, AuthorizationStep, KeyDecision, SignInResult,
};
use crate::chats::ChatEntry;
use crate::tokens::{challenge_hint, PasswordChallenge};
use crate::keys::{edits_numeric_field, KeyCode, KeyPress, LOGIN_CODE_MAX_LEN, PHONE_NUMBER_MAX_LEN};
use crate::text::utf8_len;
use crate::text_area::{
    deletes_then_types, only_deletes, text_area_alignment, text_area_lines,
    text_area_lines_after_input, text_area_placeholder, text_of,
};

verus! {

/// The calls that change an [`crate::app::App`], with their arguments.
pub enum AppOp<'a> {
    /// `set_login_token`
    SetLoginToken(LoginToken),
    /// `login_code_sent`
    LoginCodeSent(LoginToken),
    /// `change_authorization_phase_to_code_entering`
    EnterCodeStep,
    /// `change_authorization_phase_to_password_entering`
    EnterPasswordStep(PasswordChallenge),
    /// `change_application_stage_to_authorized`
    EnterAuthorizedStage(Seq<ChatEntry>),
    /// `get_application_stage`, the stage then being set to the given one
    ReplaceStage(ApplicationStage<'a>),
    /// `get_password_token`
    TakePasswordToken,
    /// `edit_active_text_area`
    EditText(KeyPress),
    /// `handle_key`
    HandleKey(KeyPress),
    /// `submission`
    Submit,
    /// `handle_sign_in_result`
    TakeSignInResult(SignInResult),
}

/// An application just built with the given API id and hash.
pub open spec fn is_new_app(app: AppView, telegram_api_id: i32, api_hash: Seq<char>) -> bool {
    &&& app.telegram_api_id == telegram_api_id
    &&& app.api_hash == api_hash
    &&& app.phone == Seq::<char>::empty()
    &&& app.login_token is None
    &&& app.password_token is None
}

/// Moving on to the login code: only the stage changes, to an empty field with the code
/// prompt.
pub open spec fn entered_code_step(before: AppView, after: AppView) -> bool {
    &&& after == (AppView { stage: after.stage, ..before })
    &&& after.stage matches ApplicationStage::Authorization(AuthorizationPhase::EnteringCode(field))
        && is_fresh_prompt(field, code_prompt())
}

/// Moving on to the password: the stage changes to an empty field whose prompt shows the
/// challenge's hint, and the challenge's token is kept.
pub open spec fn entered_password_step(before: AppView, after: AppView, challenge: PasswordChallenge) -> bool {
    &&& after == (AppView { stage: after.stage, password_token: Some(challenge.token), ..before })
    &&& after.stage matches ApplicationStage::Authorization(
        AuthorizationPhase::EnteringPassword(field),
    ) && is_fresh_prompt(field, password_prompt_text(challenge_hint(challenge)))
}

/// Moving on to the chat list: only the stage changes, to the list of the given chats.
pub open spec fn entered_authorized_stage(before: AppView, after: AppView, chats: Seq<ChatEntry>) -> bool {
    &&& after == (AppView { stage: after.stage, ..before })
    &&& after.stage matches ApplicationStage::Authorized(state) && state@ == fresh_authorized_view(chats)
}

/// What a key does to the lines of a field, as far as the text area states it.
pub open spec fn key_edit_facts(before: Seq<Seq<char>>, after: Seq<Seq<char>>, key: KeyPress) -> bool {
    &&& after.len() > 0
    &&& key.code == KeyCode::Esc || key.code is F || key.code is Other ==> after == before
    &&& key.code matches KeyCode::Char(c) ==> ('0' <= c <= '9' ==> deletes_then_types(before, after, c))
    &&& key.code == KeyCode::Backspace || key.code == KeyCode::Delete ==> only_deletes(before, after)
}

/// Handing a key to the field of the current sign-in step: only that field changes; once
/// signed in, nothing changes.
pub open spec fn edited_text(before: AppView, key: KeyPress, after: AppView) -> bool {
    &&& after == (AppView { stage: after.stage, ..before })
    &&& match before.stage {
        ApplicationStage::Authorization(b) => after.stage matches ApplicationStage::Authorization(a)
            && a.step() == b.step()
            && text_area_lines(a.text_field()) == text_area_lines_after_input(b.text_field(), key)
            && key_edit_facts(text_area_lines(b.text_field()), text_area_lines(a.text_field()), key)
            && text_area_placeholder(a.text_field()) == text_area_placeholder(b.text_field())
            && text_area_alignment(a.text_field()) == text_area_alignment(b.text_field()),
        ApplicationStage::Authorized(_) => after.stage == before.stage,
    }
}

/// What each call does to the application.
pub open spec fn app_step(before: AppView, op: AppOp, after: AppView) -> bool {
    match op {
        AppOp::SetLoginToken(token) => after == (AppView { login_token: Some(token), ..before }),
        AppOp::LoginCodeSent(token) => entered_code_step(
            AppView { login_token: Some(token), ..before },
            after,
        ),
        AppOp::EnterCodeStep => entered_code_step(before, after),
        AppOp::EnterPasswordStep(challenge) => entered_password_step(before, after, challenge),
        AppOp::EnterAuthorizedStage(chats) => entered_authorized_stage(before, after, chats),
        AppOp::ReplaceStage(stage) => after == (AppView { stage, ..before }),
        AppOp::TakePasswordToken => after == (AppView { password_token: None, ..before }),
        AppOp::EditText(key) => edited_text(before, key, after),
        AppOp::HandleKey(key) => if stage_key_decision(before.stage, key) == KeyDecision::EditText {
            edited_text(before, key, after)
        } else {
            after == before
        },
        AppOp::Submit => exists|request: Result<crate::app::Submission, AppError>| #[trigger]
            submitted(before, after, request),
        AppOp::TakeSignInResult(result) => exists|follow_up: crate::app::SignInFollowUp| #[trigger]
            took_sign_in_result(before, after, result, follow_up),
    }
}

/// `states` are the successive values of an application and `ops` the calls between them.
pub open spec fn is_run(states: Seq<AppView>, ops: Seq<AppOp>) -> bool {
    &&& states.len() == ops.len() + 1
    &&& forall|i: int| 0 <= i < ops.len() ==> app_step(states[i], #[trigger] ops[i], states[i + 1])
}

/// The login token after the calls: the one of the latest call that set one, else the
/// initial one.
pub open spec fn latest_login_token(initial: Option<LoginToken>, ops: Seq<AppOp>) -> Option<LoginToken>
    decreases ops.len(),
{
    if ops.len() == 0 {
        initial
    } else {
        match ops.last() {
            AppOp::SetLoginToken(token) => Some(token),
            AppOp::LoginCodeSent(token) => Some(token),
            _ => latest_login_token(initial, ops.drop_last()),
        }
    }
}

/// The password token that a call hands to the application, if any.
pub open spec fn gives_password_token(op: AppOp) -> Option<PasswordToken> {
    match op {
        AppOp::EnterPasswordStep(challenge) => Some(challenge.token),
        AppOp::TakeSignInResult(SignInResult::PasswordRequired(challenge)) => Some(challenge.token),
        _ => None,
    }
}

/// A call that may take the password token away.
pub open spec fn may_take_password_token(op: AppOp) -> bool {
    op is TakePasswordToken || op is Submit
}

proof fn lemma_step_frame(before: AppView, op: AppOp, after: AppView)
    requires
        app_step(before, op, after),
    ensures
        after.telegram_api_id == before.telegram_api_id,
        after.api_hash == before.api_hash,
        after.phone == before.phone,
        !(op is SetLoginToken) && !(op is LoginCodeSent) ==> after.login_token == before.login_token,
        op matches AppOp::SetLoginToken(t) ==> after.login_token == Some(t),
        op matches AppOp::LoginCodeSent(t) ==> after.login_token == Some(t),
        gives_password_token(op) matches Some(t) ==> after.password_token == Some(t),
        gives_password_token(op) is None && !may_take_password_token(op) ==> after.password_token
            == before.password_token,
        op is TakePasswordToken ==> after.password_token is None,
{
    match op {
        AppOp::Submit => {
            let request = choose|request: Result<crate::app::Submission, AppError>|
                #[trigger] submitted(before, after, request);
        },
        AppOp::TakeSignInResult(result) => {
            let follow_up = choose|follow_up: crate::app::SignInFollowUp|
                #[trigger] took_sign_in_result(before, after, result, follow_up);
        },
        _ => {},
    }
}

proof fn lemma_run_prefix(states: Seq<AppView>, ops: Seq<AppOp>)
    requires
        is_run(states, ops),
        ops.len() > 0,
    ensures
        is_run(states.drop_last(), ops.drop_last()),
        app_step(states[ops.len() - 1], ops.last(), states.last()),
{
    assert(app_step(states[ops.len() - 1], ops[ops.len() - 1], states[ops.len() as int]));
    assert forall|i: int| 0 <= i < ops.drop_last().len() implies app_step(
        states.drop_last()[i],
        #[trigger] ops.drop_last()[i],
        states.drop_last()[i + 1],
    ) by {
        assert(app_step(states[i], ops[i], states[i + 1]));
    }
}

/// The API id, the API hash and the phone number never change, whatever is called.
pub proof fn law_credentials_are_kept(states: Seq<AppView>, ops: Seq<AppOp>)
    requires
        is_run(states, ops),
    ensures
        forall|i: int|
            0 <= i < states.len() ==> (#[trigger] states[i]).telegram_api_id
                == states[0].telegram_api_id && states[i].api_hash == states[0].api_hash
                && states[i].phone == states[0].phone,
    decreases ops.len(),
{
    if ops.len() > 0 {
        lemma_run_prefix(states, ops);
        law_credentials_are_kept(states.drop_last(), ops.drop_last());
        lemma_step_frame(states[ops.len() - 1], ops.last(), states.last());
        assert forall|i: int| 0 <= i < states.len() implies (#[trigger] states[i]).telegram_api_id
            == states[0].telegram_api_id && states[i].api_hash == states[0].api_hash
            && states[i].phone == states[0].phone by {
            let prefix = states.drop_last();
            assert(prefix[0] == states[0]);
            if i < states.len() - 1 {
                assert(states[i] == prefix[i]);
            } else {
                let j = ops.len() - 1;
                assert(prefix[j] == states[j]);
                assert(prefix[j].telegram_api_id == prefix[0].telegram_api_id);
            }
        }
    }
}

/// An application built by `new_authorized` or `new_unauthorized` keeps its API id and hash,
/// and its phone number stays empty, whatever is called.
pub proof fn law_new_app_keeps_its_credentials(
    states: Seq<AppView>,
    ops: Seq<AppOp>,
    telegram_api_id: i32,
    api_hash: Seq<char>,
)
    requires
        is_run(states, ops),
        is_new_app(states[0], telegram_api_id, api_hash),
    ensures
        forall|i: int|
            0 <= i < states.len() ==> (#[trigger] states[i]).telegram_api_id == telegram_api_id
                && states[i].api_hash == api_hash && states[i].phone == Seq::<char>::empty(),
{
    law_credentials_are_kept(states, ops);
}

/// The login token is the one of the latest call that set it; asking for it gives that
/// token, or reports it missing when none was ever set on a new application.
pub proof fn law_login_token_is_latest_write(states: Seq<AppView>, ops: Seq<AppOp>)
    requires
        is_run(states, ops),
    ensures
        states.last().login_token == latest_login_token(states[0].login_token, ops),
        login_token_answer(states.last()) == match latest_login_token(states[0].login_token, ops) {
            Some(token) => Ok::<LoginToken, AppError>(token),
            None => Err(AppError::LoginTokenMissing),
        },
    decreases ops.len(),
{
    if ops.len() > 0 {
        lemma_run_prefix(states, ops);
        law_login_token_is_latest_write(states.drop_last(), ops.drop_last());
        lemma_step_frame(states[ops.len() - 1], ops.last(), states.last());
        assert(states.drop_last().last() == states[ops.len() - 1]);
        assert(states.drop_last()[0] == states[0]);
    }
}

/// A password token, once handed to the application, stays until a call may take it:
/// asking for it then gives that very token, and asking again right after reports it
/// missing.
pub proof fn law_password_token_handed_out_once(
    states: Seq<AppView>,
    ops: Seq<AppOp>,
    given_at: int,
    asked_at: int,
    token: PasswordToken,
)
    requires
        is_run(states, ops),
        0 <= given_at < asked_at <= ops.len(),
        gives_password_token(ops[given_at]) == Some(token),
        forall|m: int|
            given_at < m < asked_at ==> gives_password_token(#[trigger] ops[m]) is None
                && !may_take_password_token(ops[m]),
    ensures
        states[asked_at].password_token == Some(token),
        password_token_answer(states[asked_at]) == Ok::<PasswordToken, AppError>(token),
        asked_at < ops.len() && ops[asked_at] is TakePasswordToken ==> password_token_answer(
            states[asked_at + 1],
        ) == Err::<PasswordToken, AppError>(AppError::PasswordTokenMissing),
    decreases asked_at - given_at,
{
    if asked_at == given_at + 1 {
        assert(app_step(states[given_at], ops[given_at], states[given_at + 1]));
        lemma_step_frame(states[given_at], ops[given_at], states[given_at + 1]);
    } else {
        law_password_token_handed_out_once(states, ops, given_at, asked_at - 1, token);
        let m = asked_at - 1;
        assert(app_step(states[m], ops[m], states[m + 1]));
        lemma_step_frame(states[m], ops[m], states[m + 1]);
    }
    if asked_at < ops.len() && ops[asked_at] is TakePasswordToken {
        assert(app_step(states[asked_at], ops[asked_at], states[asked_at + 1]));
        lemma_step_frame(states[asked_at], ops[asked_at], states[asked_at + 1]);
    }
}

/// Text made only of the digits `0` to `9`.
pub open spec fn is_digits(s: Seq<char>) -> bool {
    forall|k: int| 0 <= k < s.len() ==> '0' <= #[trigger] s[k] <= '9'
}

/// The longest text that typing may make in a numeric field.
pub open spec fn numeric_limit(step: AuthorizationStep) -> nat {
    if step == AuthorizationStep::EnteringPhoneNumber {
        PHONE_NUMBER_MAX_LEN as nat
    } else {
        LOGIN_CODE_MAX_LEN as nat
    }
}

proof fn lemma_digits_utf8_len(s: Seq<char>)
    requires
        is_digits(s),
    ensures
        utf8_len(s) == s.len(),
    decreases s.len(),
{
    if s.len() > 0 {
        let rest = s.drop_first();
        assert(is_digits(rest)) by {
            assert forall|k: int| 0 <= k < rest.len() implies '0' <= #[trigger] rest[k] <= '9' by {
                assert(rest[k] == s[k + 1]);
            }
        }
        lemma_digits_utf8_len(rest);
        assert('0' <= s[0] <= '9');
        assert(vstd::utf8::encode_scalar(s[0] as u32).len() == 1);
    }
}

proof fn lemma_single_line_text(line: Seq<char>)
    ensures
        text_of(seq![line]) == line,
{
    assert(seq![line].drop_last() == Seq::<Seq<char>>::empty());
    assert(Seq::<Seq<char>>::empty().flatten_alt() == Seq::<char>::empty());
    assert(Seq::<char>::empty() + line == line);
}

/// A numeric field that holds one line of digits, no longer than its limit, still does so
/// after any key: only a digit while there is room, Backspace or Delete reach it, and any
/// other key leaves the application as it was.
pub proof fn law_numeric_field_keeps_digits(before: AppView, key: KeyPress, after: AppView, text: Seq<char>)
    requires
        app_step(before, AppOp::HandleKey(key), after),
        before.stage matches ApplicationStage::Authorization(phase) && phase.step()
            != AuthorizationStep::EnteringPassword && text_area_lines(phase.text_field()) == seq![text]
            && text.len() <= numeric_limit(phase.step()),
        is_digits(text),
    ensures
        after.stage matches ApplicationStage::Authorization(phase) && exists|typed: Seq<char>|
            #![trigger is_digits(typed)]
            text_area_lines(phase.text_field()) == seq![typed] && is_digits(typed) && typed.len()
                <= numeric_limit(phase.step()),
        before.stage matches ApplicationStage::Authorization(phase) ==> (after.stage matches ApplicationStage::Authorization(
            phase2,
        ) && phase2.step() == phase.step()),
        before.stage matches ApplicationStage::Authorization(phase) ==> (!edits_numeric_field(
            key,
            text.len(),
            numeric_limit(phase.step()),
        ) ==> after == before),
{
    lemma_digits_utf8_len(text);
    lemma_single_line_text(text);
    if let ApplicationStage::Authorization(b) = before.stage {
        if stage_key_decision(before.stage, key) == KeyDecision::EditText {
            let a = after.stage->Authorization_0;
            let lines = text_area_lines(a.text_field());
            assert(lines.len() == 1);
            let typed = lines[0];
            assert(lines == seq![typed]);
            lemma_single_line_text(typed);
            assert(is_digits(typed)) by {
                assert forall|k: int| 0 <= k < typed.len() implies '0' <= #[trigger] typed[k] <= '9' by {
                    assert(typed[k] == text_of(lines)[k]);
                    if text.contains(typed[k]) {
                        let w = choose|w: int| 0 <= w < text.len() && text[w] == typed[k];
                    }
                }
            }
        } else {
            assert(text_area_lines(b.text_field()) == seq![text]);
            assert(is_digits(text));
        }
    }
}

} // verus!
