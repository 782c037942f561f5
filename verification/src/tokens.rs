use vstd::prelude::*;

verus! {

#[verifier::external_type_specification]
#[verifier::external_body]
pub struct ExLoginToken(grammers_client::types::LoginToken);

#[verifier::external_type_specification]
#[verifier::external_body]
pub struct ExPasswordToken(grammers_client::types::PasswordToken);

/// The hint that the account's owner left for the password, as a password token carries it.
pub uninterp spec fn password_token_hint(token: grammers_client::types::PasswordToken) -> Option<Seq<char>>;

/// `PasswordToken::hint` in `grammers-client`: the hint that the account's owner left for
/// the password, if any, read out of the token.
#[verifier::external_body]
pub(crate) fn password_hint(token: &grammers_client::types::PasswordToken) -> (hint: Option<String>)
    ensures
        match hint {
            Some(h) => password_token_hint(*token) == Some(h@),
            None => password_token_hint(*token) is None,
        },
{
    token.hint().map(String::from)
}

/// What Telegram hands over when an account needs its password: the password token, and
/// the hint read out of it as plain text, so that the prompt can be stated over it.
pub struct PasswordChallenge {
    pub token: grammers_client::types::PasswordToken,
    pub hint: Option<String>,
}

/// The hint of a challenge, as text.
pub open spec fn challenge_hint(challenge: PasswordChallenge) -> Option<Seq<char>> {
    match challenge.hint {
        Some(h) => Some(h@),
        None => None,
    }
}

impl PasswordChallenge {
    /// The challenge for a password token: the token, and the hint that it carries.
    pub fn from_token(token: grammers_client::types::PasswordToken) -> (challenge: Self)
        ensures
            challenge.token == token,
            challenge_hint(challenge) == password_token_hint(token),
    {
        let hint = password_hint(&token);
        PasswordChallenge { token, hint }
    }
}

} // verus!
