//! First look at an answer of the weather service: can it be read at all,
//! and does it say that the API key was refused?

use serde_json::Value;
use vstd::prelude::*;

use crate::{file_read_error_message, get_file_read_error_message, ErrorMessageType};

verus! {

/// `serde_json::Error`, the failure to read JSON: carried through unread.
#[verifier::external_type_specification]
#[verifier::external_body]
pub struct ExJsonError(serde_json::Error);

/// The status with which the weather service refuses an API key.
pub const INVALID_KEY_STATUS: i64 = 401;

/// The member of an answer that holds its status.
pub const STATUS_MEMBER: &'static str = "cod";

/// What `serde_json` reads as the member `name` of the JSON text `text`:
/// nothing where the text is no JSON; else the member as a whole number, or
/// none where the text is no object, has no such member, or holds there
/// anything but a whole number that fits 64 bits.
pub uninterp spec fn integer_member(text: Seq<char>, name: Seq<char>) -> Option<Option<i64>>;

/// Reads `text` with `serde_json::from_str` into a `serde_json::Value`,
/// takes the member `name` by indexing and reads it with `Value::as_i64`.
/// Trusted: the outcome depends on the two texts alone, and is an error
/// exactly where the text cannot be read.
#[verifier::external_body]
fn read_integer_member(text: &str, name: &str) -> (member: Result<Option<i64>, serde_json::Error>)
    ensures
        match member {
            Ok(number) => integer_member(text@, name@) == Some(number),
            Err(_) => integer_member(text@, name@) is None,
        },
{
    let value: Value = serde_json::from_str(text)?;
    Ok(value[name].as_i64())
}

/// Why an answer is not read further.
#[derive(Clone, Copy, Debug, PartialEq, Eq, Structural)]
pub enum AnswerError {
    /// The answer is no JSON.
    Unreadable,
    /// The answer says that the API key was refused.
    InvalidApiKey,
}

/// The verdict on an answer, from what was read as its status: nothing where
/// the answer could not be read, else its status, if it has one.
pub open spec fn answer_verdict(status: Option<Option<i64>>) -> Result<(), AnswerError> {
    match status {
        None => Err(AnswerError::Unreadable),
        Some(number) => if number == Some(INVALID_KEY_STATUS) {
            Err(AnswerError::InvalidApiKey)
        } else {
            Ok(())
        },
    }
}

/// Judges an answer from what was read as its status.
pub fn judge_answer(status: Option<Option<i64>>) -> (verdict: Result<(), AnswerError>)
    ensures
        verdict == answer_verdict(status),
{
    match status {
        None => Err(AnswerError::Unreadable),
        Some(Some(number)) => {
            if number == INVALID_KEY_STATUS {
                Err(AnswerError::InvalidApiKey)
            } else {
                Ok(())
            }
        },
        Some(None) => Ok(()),
    }
}

/// Takes a first look at an answer of the weather service: it must be JSON,
/// and its status must not be the one that refuses the API key.
pub fn check_answer(response: &str) -> (verdict: Result<(), AnswerError>)
    ensures
        verdict == answer_verdict(integer_member(response@, STATUS_MEMBER@)),
{
    let status = match read_integer_member(response, STATUS_MEMBER) {
        Ok(number) => Some(number),
        Err(_) => None,
    };
    judge_answer(status)
}

/// What is said of an answer that is not read further. `error_context` names
/// the kind of answer that was expected.
pub open spec fn answer_error_text(error: AnswerError, error_context: Seq<char>) -> Seq<char> {
    match error {
        AnswerError::Unreadable => file_read_error_message(
            ErrorMessageType::ApiResponseRead,
            Some(error_context),
        ),
        AnswerError::InvalidApiKey => file_read_error_message(
            ErrorMessageType::InvalidApiKey,
            None,
        ),
    }
}

/// Words why an answer is not read further.
pub fn answer_error_message(error: AnswerError, error_context: &str) -> (message: String)
    ensures
        message@ == answer_error_text(error, error_context@),
{
    match error {
        AnswerError::Unreadable => get_file_read_error_message(
            ErrorMessageType::ApiResponseRead,
            Some(error_context),
        ),
        AnswerError::InvalidApiKey => get_file_read_error_message(
            ErrorMessageType::InvalidApiKey,
            None,
        ),
    }
}

} // verus!
