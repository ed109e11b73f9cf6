//! The confirmation prompt: one player is asked to accept or decline before
//! a game of two begins.

use crate::random::random_u64;
use crate::text::{decimal, push_decimal, str_eq};
use rand::rngs::StdRng;
use vstd::prelude::*;

verus! {

/// Seconds that the one who is asked has to answer, unless told otherwise.
pub const DEFAULT_TIMEOUT_SECS: u64 = 45;

/// How a prompt ended.
#[derive(Clone, Copy, PartialEq, Eq, Structural, Debug)]
pub enum ConfirmationOutcome {
    Accepted,
    Declined,
    Timeout,
}

/// What a prompt says and how it behaves.
#[derive(Clone, Debug, PartialEq)]
pub struct ConfirmationPromptOptions {
    pub content: String,
    pub timeout_secs: u64,
    pub keep_message_on_accept: bool,
}

/// The message of a prompt.
#[derive(Clone, Copy, PartialEq, Eq, Structural, Debug)]
pub struct ConfirmationMessageHandle {
    pub channel_id: u64,
    pub message_id: u64,
}

/// How a prompt ended, and the message that the game may go on in.
#[derive(Clone, Copy, PartialEq, Eq, Structural, Debug)]
pub struct ConfirmationResult {
    pub outcome: ConfirmationOutcome,
    pub message: Option<ConfirmationMessageHandle>,
}

/// The ids of the two buttons of a prompt.
#[derive(Clone, Debug, PartialEq)]
pub struct ConfirmationButtons {
    pub accept_id: String,
    pub deny_id: String,
}

/// Why someone cannot be challenged.
#[derive(Clone, Copy, PartialEq, Eq, Structural, Debug)]
pub enum OpponentError {
    /// The challenger named itself.
    IsSelf,
    /// The one named is a bot.
    IsBot,
}

/// Custom error messages used when validating PvP opponents.
#[derive(Clone, Copy, Debug)]
pub struct OpponentValidationMessages<'a> {
    pub self_error: &'a str,
    pub bot_error: &'a str,
}

/// The id of the accept button for a given nonce.
pub open spec fn accept_id_spec(nonce: u64) -> Seq<char> {
    "confirm_"@ + decimal(nonce as nat) + "_ok"@
}

/// The id of the decline button for a given nonce.
pub open spec fn deny_id_spec(nonce: u64) -> Seq<char> {
    "confirm_"@ + decimal(nonce as nat) + "_no"@
}

/// How a prompt ends: with no click in time it times out, a click on the
/// accept button accepts, and any other click declines. The message is kept
/// only for a game that was accepted and asked for it.
pub open spec fn resolve_spec(
    clicked: Option<Seq<char>>,
    accept_id: Seq<char>,
    keep_message_on_accept: bool,
    handle: ConfirmationMessageHandle,
) -> ConfirmationResult {
    match clicked {
        None => ConfirmationResult { outcome: ConfirmationOutcome::Timeout, message: None },
        Some(custom_id) => if custom_id == accept_id {
            ConfirmationResult {
                outcome: ConfirmationOutcome::Accepted,
                message: if keep_message_on_accept {
                    Some(handle)
                } else {
                    None
                },
            }
        } else {
            ConfirmationResult { outcome: ConfirmationOutcome::Declined, message: None }
        },
    }
}

/// Whom one can challenge: anyone but oneself and the bots.
pub open spec fn opponent_check(author: u64, opponent: u64, opponent_is_bot: bool) -> Result<
    (),
    OpponentError,
> {
    if opponent == author {
        Err(OpponentError::IsSelf)
    } else if opponent_is_bot {
        Err(OpponentError::IsBot)
    } else {
        Ok(())
    }
}

impl ConfirmationPromptOptions {
    /// A prompt that waits [`DEFAULT_TIMEOUT_SECS`] and deletes its message
    /// whatever the answer.
    pub fn new(content: String) -> (options: ConfirmationPromptOptions)
        ensures
            options.content == content,
            options.timeout_secs == DEFAULT_TIMEOUT_SECS,
            !options.keep_message_on_accept,
    {
        ConfirmationPromptOptions {
            content,
            timeout_secs: DEFAULT_TIMEOUT_SECS,
            keep_message_on_accept: false,
        }
    }
}

impl ConfirmationButtons {
    /// The button ids that `nonce` names.
    pub fn with_nonce(nonce: u64) -> (buttons: ConfirmationButtons)
        ensures
            buttons.accept_id@ == accept_id_spec(nonce),
            buttons.deny_id@ == deny_id_spec(nonce),
    {
        let mut accept_id = String::from_str("confirm_");
        push_decimal(&mut accept_id, nonce);
        let mut deny_id = accept_id.clone();
        accept_id.append("_ok");
        deny_id.append("_no");
        ConfirmationButtons { accept_id, deny_id }
    }

    /// Button ids with a nonce drawn at random.
    pub fn new(rng: &mut StdRng) -> (buttons: ConfirmationButtons)
        ensures
            exists|nonce: u64|
                buttons.accept_id@ == accept_id_spec(nonce) && buttons.deny_id@ == deny_id_spec(
                    nonce,
                ),
    {
        let nonce: u64 = random_u64(rng);
        ConfirmationButtons::with_nonce(nonce)
    }
}

impl<'a> OpponentValidationMessages<'a> {
    /// The two messages.
    pub fn new(self_error: &'a str, bot_error: &'a str) -> (messages: OpponentValidationMessages<'a>)
        ensures
            messages.self_error == self_error,
            messages.bot_error == bot_error,
    {
        OpponentValidationMessages { self_error, bot_error }
    }

    /// The message for an opponent that was turned down.
    pub fn message_for(&self, error: OpponentError) -> (message: &'a str)
        ensures
            message == match error {
                OpponentError::IsSelf => self.self_error,
                OpponentError::IsBot => self.bot_error,
            },
    {
        match error {
            OpponentError::IsSelf => self.self_error,
            OpponentError::IsBot => self.bot_error,
        }
    }
}

/// Decides how a prompt ends, given the button that was clicked in time, if
/// one was.
pub fn resolve(
    clicked: Option<&str>,
    buttons: &ConfirmationButtons,
    options: &ConfirmationPromptOptions,
    handle: ConfirmationMessageHandle,
) -> (result: ConfirmationResult)
    ensures
        result == resolve_spec(
            match clicked {
                Some(custom_id) => Some(custom_id@),
                None => None,
            },
            buttons.accept_id@,
            options.keep_message_on_accept,
            handle,
        ),
        result.message is Some ==> result.outcome == ConfirmationOutcome::Accepted,
{
    match clicked {
        None => ConfirmationResult { outcome: ConfirmationOutcome::Timeout, message: None },
        Some(custom_id) => {
            if str_eq(custom_id, buttons.accept_id.as_str()) {
                ConfirmationResult {
                    outcome: ConfirmationOutcome::Accepted,
                    message: if options.keep_message_on_accept {
                        Some(handle)
                    } else {
                        None
                    },
                }
            } else {
                ConfirmationResult { outcome: ConfirmationOutcome::Declined, message: None }
            }
        },
    }
}

/// Ensures the opponent is not the command author and not a bot.
pub fn ensure_valid_opponent(author: u64, opponent: u64, opponent_is_bot: bool) -> (checked: Result<
    (),
    OpponentError,
>)
    ensures
        checked == opponent_check(author, opponent, opponent_is_bot),
{
    if opponent == author {
        Err(OpponentError::IsSelf)
    } else if opponent_is_bot {
        Err(OpponentError::IsBot)
    } else {
        Ok(())
    }
}

} // verus!
