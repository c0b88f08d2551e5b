//! The error taxonomy of the connector and a helper for discarding errors.
//! Whoever wants the error recorded records it first and discards it then.

use vstd::prelude::*;
use vstd::string::StringExecFns;

verus! {

/// What can go wrong in the connector core.
#[derive(Debug, Clone, PartialEq, Eq)]
pub enum WalleError {
    /// A declared type did not match: expected name, found name.
    DeclareNotMatch(&'static str, String),
    /// The outbound channel's receiver is gone; the action was not delivered.
    ActionSendError,
    /// The deadline passed with no matching response.
    ResponseTimeout,
    /// A response did not have the expected shape.
    RespNotMatch,
    /// The connector is already started.
    AlreadyStarted,
    /// The connector is not started.
    NotStarted,
    /// A map lacks a required key.
    MapMissedKey(String),
    /// A value has another type than expected: expected, got.
    ValueTypeNotMatch(String, String),
    /// A byte container could not be decoded from its text form.
    IllegalBase64(String),
    /// The target bot has no registered channel.
    BotNotExist,
    /// Anything else, with its message.
    Other(String),
}

impl WalleError {
    /// The text of the error message.
    pub open spec fn message_text(self) -> Seq<char> {
        match self {
            WalleError::DeclareNotMatch(expected, found) => "expect "@ + expected@ + " found "@
                + found@,
            WalleError::ActionSendError => "Action send error"@,
            WalleError::ResponseTimeout => "Action Response Timeout"@,
            WalleError::RespNotMatch => "RespMissmatch"@,
            WalleError::AlreadyStarted => "OneBot is already started"@,
            WalleError::NotStarted => "OneBot is not started"@,
            WalleError::MapMissedKey(key) => "ExtendedMap missed key: "@ + key@,
            WalleError::ValueTypeNotMatch(expected, got) => "Type mismatch expect "@ + expected@
                + ", got "@ + got@,
            WalleError::IllegalBase64(_) => "Illegal base64"@,
            WalleError::BotNotExist => "Bot not exist"@,
            WalleError::Other(text) => text@,
        }
    }

    /// The error message as a string.
    pub fn message(&self) -> (text: String)
        ensures
            text@ == self.message_text(),
    {
        match self {
            WalleError::DeclareNotMatch(expected, found) => {
                let mut text = String::from_str("expect ");
                text.append(expected);
                text.append(" found ");
                text.append(found.as_str());
                text
            },
            WalleError::ActionSendError => String::from_str("Action send error"),
            WalleError::ResponseTimeout => String::from_str("Action Response Timeout"),
            WalleError::RespNotMatch => String::from_str("RespMissmatch"),
            WalleError::AlreadyStarted => String::from_str("OneBot is already started"),
            WalleError::NotStarted => String::from_str("OneBot is not started"),
            WalleError::MapMissedKey(key) => {
                let mut text = String::from_str("ExtendedMap missed key: ");
                text.append(key.as_str());
                text
            },
            WalleError::ValueTypeNotMatch(expected, got) => {
                let mut text = String::from_str("Type mismatch expect ");
                text.append(expected.as_str());
                text.append(", got ");
                text.append(got.as_str());
                text
            },
            WalleError::IllegalBase64(_) => String::from_str("Illegal base64"),
            WalleError::BotNotExist => String::from_str("Bot not exist"),
            WalleError::Other(text) => String::from_str(text.as_str()),
        }
    }

    /// An error that carries nothing but a message.
    pub fn custom(msg: String) -> (e: WalleError)
        ensures
            e == WalleError::Other(msg),
    {
        WalleError::Other(msg)
    }
}

/// Turning a `Result` into an `Option` by giving up the error.
pub trait ResultExt<T, E>: Sized {
    /// The value that is kept: that of `Ok`, nothing for `Err`.
    spec fn kept(self) -> Option<T>;

    /// Drops the error silently.
    fn ignore(self) -> (kept: Option<T>)
        ensures
            kept == self.kept(),
    ;
}

impl<T, E> ResultExt<T, E> for Result<T, E> {
    open spec fn kept(self) -> Option<T> {
        match self {
            Ok(v) => Some(v),
            Err(_) => None,
        }
    }

    #[inline(always)]
    fn ignore(self) -> (kept: Option<T>) {
        match self {
            Ok(v) => Some(v),
            Err(_) => None,
        }
    }
}

} // verus!
