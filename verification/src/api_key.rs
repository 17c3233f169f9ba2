//! The key of the weather service: what a well-formed one looks like.

use regex::Regex;
use vstd::prelude::*;
use vstd::string::{StrSliceExecFns, StringExecFns};

verus! {

/// `regex::Error`, the failure to build a pattern: carried through unread.
#[verifier::external_type_specification]
#[verifier::external_body]
pub struct ExRegexError(regex::Error);

/// Length of a key of the weather service.
pub const API_KEY_LENGTH: usize = 32;

/// The regular expression for text made of ASCII letters and digits alone.
pub const ALPHANUMERIC_PATTERN: &'static str = "^[a-zA-Z0-9]+$";

/// An ASCII letter or digit.
pub open spec fn is_ascii_alphanumeric(c: char) -> bool {
    ||| 'a' <= c <= 'z'
    ||| 'A' <= c <= 'Z'
    ||| '0' <= c <= '9'
}

/// Text of at least one character, all of them ASCII letters or digits.
pub open spec fn is_alphanumeric(text: Seq<char>) -> bool {
    &&& text.len() > 0
    &&& forall|i: int| 0 <= i < text.len() ==> is_ascii_alphanumeric(#[trigger] text[i])
}

/// A well-formed key: 32 characters, all of them ASCII letters or digits.
pub open spec fn valid_api_key(key: Seq<char>) -> bool {
    &&& key.len() == API_KEY_LENGTH
    &&& forall|i: int| 0 <= i < key.len() ==> is_ascii_alphanumeric(#[trigger] key[i])
}

/// Why a key was not accepted.
#[derive(Clone, Copy, Debug, PartialEq, Eq, Structural)]
pub enum ApiKeyError {
    /// The key is not well formed.
    InvalidKey,
    /// The pattern that keys are held against could not be built.
    Pattern,
}

impl ApiKeyError {
    /// The failure in words.
    pub open spec fn message_text(self) -> Seq<char> {
        match self {
            ApiKeyError::InvalidKey => "Please enter a valid key!"@,
            ApiKeyError::Pattern => "Failed to build the pattern for API keys."@,
        }
    }

    /// The failure in words.
    pub fn message(&self) -> (text: String)
        ensures
            text@ == self.message_text(),
    {
        match self {
            ApiKeyError::InvalidKey => String::from_str("Please enter a valid key!"),
            ApiKeyError::Pattern => String::from_str("Failed to build the pattern for API keys."),
        }
    }
}

/// Builds `pattern` with `regex::Regex::new` and searches `text` with
/// `Regex::is_match`. Trusted: where the alphanumeric pattern is built, it
/// matches exactly the texts that from start (`^`) to end (`$`) consist of
/// one or more (`+`) characters of the class `[a-zA-Z0-9]`. Nothing is
/// claimed of whether the pattern can be built.
#[verifier::external_body]
fn matches_pattern(pattern: &str, text: &str) -> (found: Result<bool, regex::Error>)
    requires
        pattern@ == ALPHANUMERIC_PATTERN@,
    ensures
        found matches Ok(matched) ==> matched == is_alphanumeric(text@),
{
    Ok(Regex::new(pattern)?.is_match(text))
}

/// The verdict on a key, from its length in characters and from what the search
/// for the alphanumeric pattern gave: `None` where the pattern could not be
/// built, else whether the key matched.
pub open spec fn key_verdict(length: usize, matched: Option<bool>) -> Result<(), ApiKeyError> {
    match matched {
        None => Err(ApiKeyError::Pattern),
        Some(found) => if length != API_KEY_LENGTH || !found {
            Err(ApiKeyError::InvalidKey)
        } else {
            Ok(())
        },
    }
}

/// Judges a key from its length in characters and the outcome of the search for
/// the alphanumeric pattern in it.
pub fn judge_api_key(length: usize, matched: Option<bool>) -> (verdict: Result<
    (),
    ApiKeyError,
>)
    ensures
        verdict == key_verdict(length, matched),
{
    match matched {
        None => Err(ApiKeyError::Pattern),
        Some(found) => {
            if length != API_KEY_LENGTH || !found {
                Err(ApiKeyError::InvalidKey)
            } else {
                Ok(())
            }
        },
    }
}

/// Checks that `key` is a well-formed key of the weather service. A key is
/// accepted only if it is well formed, and turned down as invalid only if it
/// is not; `Pattern` tells that the pattern could not be built, so that
/// nothing was found out. The length is counted in characters, which for
/// letters and digits is the length in bytes.
pub fn check_api_key(key: &str) -> (verdict: Result<(), ApiKeyError>)
    ensures
        verdict is Ok ==> valid_api_key(key@),
        verdict == Err::<(), ApiKeyError>(ApiKeyError::InvalidKey) ==> !valid_api_key(key@),
{
    let matched = match matches_pattern(ALPHANUMERIC_PATTERN, key) {
        Ok(found) => Some(found),
        Err(_) => None,
    };
    judge_api_key(key.unicode_len(), matched)
}

} // verus!
