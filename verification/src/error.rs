//! The kinds of failure that the indexer tells apart.

use crate::text::{decimal, decimal_text};
use vstd::prelude::*;
use vstd::string::*;

verus! {

/// How a request to the repository failed.
#[derive(Debug, Clone, PartialEq, Eq)]
pub enum HttpFailure {
    /// The request did not get an answer; the text says why.
    Transport(String),
    /// The answer carried a status that the indexer does not accept.
    Status(u16),
    /// The text is no URL that a request could go to.
    InvalidUrl(String),
}

/// A failure of the indexer, with its cause.
#[derive(Debug, PartialEq, Eq)]
pub enum IndexerError {
    /// Reading or writing a file failed.
    GenericIo(String),
    /// The store reported an error.
    DatabaseError(String),
    /// A request to the repository failed.
    HttpClientError(HttpFailure),
    /// A row of the store does not have the expected shape.
    DeserializeError(String),
    /// An answer of the repository is not the expected JSON.
    JsonError(String),
    /// A hash is not valid base64.
    InvalidBase64(base64::DecodeError),
    /// The store has no row for what was asked.
    NotFound,
}

/// The decoder's description of why a text is not valid base64.
pub open spec fn decode_error_text(error: base64::DecodeError) -> Seq<char> {
    match error {
        base64::DecodeError::InvalidByte(index, byte) => "Invalid symbol "@ + decimal(byte as nat)
            + ", offset "@ + decimal(index as nat) + "."@,
        base64::DecodeError::InvalidLength(length) => "Invalid input length: "@ + decimal(
            length as nat,
        ),
        base64::DecodeError::InvalidLastSymbol(index, byte) => "Invalid last symbol "@ + decimal(
            byte as nat,
        ) + ", offset "@ + decimal(index as nat) + "."@,
        base64::DecodeError::InvalidPadding => "Invalid padding"@,
    }
}

/// Describes why a text is not valid base64, in the decoder's words.
pub fn describe_decode_error(error: &base64::DecodeError) -> (text: String)
    ensures
        text@ == decode_error_text(*error),
{
    match error {
        base64::DecodeError::InvalidByte(index, byte) => {
            let symbol = decimal_text(*byte as u64);
            let offset = decimal_text(*index as u64);
            String::from_str("Invalid symbol ").concat(symbol.as_str()).concat(", offset ").concat(
                offset.as_str(),
            ).concat(".")
        },
        base64::DecodeError::InvalidLength(length) => {
            let number = decimal_text(*length as u64);
            String::from_str("Invalid input length: ").concat(number.as_str())
        },
        base64::DecodeError::InvalidLastSymbol(index, byte) => {
            let symbol = decimal_text(*byte as u64);
            let offset = decimal_text(*index as u64);
            String::from_str("Invalid last symbol ").concat(symbol.as_str()).concat(
                ", offset ",
            ).concat(offset.as_str()).concat(".")
        },
        base64::DecodeError::InvalidPadding => String::from_str("Invalid padding"),
    }
}

impl HttpFailure {
    /// The description of the failure.
    pub open spec fn description(self) -> Seq<char> {
        match self {
            HttpFailure::Transport(text) => text@,
            HttpFailure::Status(code) => "unexpected status "@ + decimal(code as nat),
            HttpFailure::InvalidUrl(text) => "invalid URL "@ + text@,
        }
    }

    /// Describes the failure.
    pub fn message(&self) -> (text: String)
        ensures
            text@ == self.description(),
    {
        match self {
            HttpFailure::Transport(text) => text.clone(),
            HttpFailure::Status(code) => {
                let number = decimal_text(*code as u64);
                String::from_str("unexpected status ").concat(number.as_str())
            },
            HttpFailure::InvalidUrl(text) => String::from_str("invalid URL ").concat(text.as_str()),
        }
    }
}

impl IndexerError {
    /// What the message of an error starts with, according to its kind.
    pub open spec fn heading(self) -> Seq<char> {
        match self {
            IndexerError::GenericIo(_) => "an I/O error occurred: "@,
            IndexerError::DatabaseError(_) => "database error: "@,
            IndexerError::HttpClientError(_) => "http client error: "@,
            IndexerError::DeserializeError(_) => "deserialization error: "@,
            IndexerError::JsonError(_) => "deserialization error: "@,
            IndexerError::InvalidBase64(_) => "bad base64 data: "@,
            IndexerError::NotFound => "not found"@,
        }
    }

    /// The description of the cause, which follows the heading.
    pub open spec fn cause(self) -> Seq<char> {
        match self {
            IndexerError::GenericIo(text) => text@,
            IndexerError::DatabaseError(text) => text@,
            IndexerError::HttpClientError(failure) => failure.description(),
            IndexerError::DeserializeError(text) => text@,
            IndexerError::JsonError(text) => text@,
            IndexerError::InvalidBase64(reason) => decode_error_text(reason),
            IndexerError::NotFound => Seq::empty(),
        }
    }

    /// The message of the error: the heading of its kind, then the cause.
    pub fn message(&self) -> (text: String)
        ensures
            text@ == self.heading() + self.cause(),
    {
        match self {
            IndexerError::GenericIo(cause) => String::from_str("an I/O error occurred: ").concat(
                cause.as_str(),
            ),
            IndexerError::DatabaseError(cause) => String::from_str("database error: ").concat(
                cause.as_str(),
            ),
            IndexerError::HttpClientError(failure) => {
                let cause = failure.message();
                String::from_str("http client error: ").concat(cause.as_str())
            },
            IndexerError::DeserializeError(cause) => String::from_str(
                "deserialization error: ",
            ).concat(cause.as_str()),
            IndexerError::JsonError(cause) => String::from_str("deserialization error: ").concat(
                cause.as_str(),
            ),
            IndexerError::InvalidBase64(error) => {
                let cause = describe_decode_error(error);
                String::from_str("bad base64 data: ").concat(cause.as_str())
            },
            IndexerError::NotFound => {
                let text = String::from_str("not found");
                assert(text@ =~= "not found"@ + Seq::<char>::empty());
                text
            },
        }
    }
}

} // verus!
