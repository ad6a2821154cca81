//! The one error that clients see: a message.
use vstd::prelude::*;

use crate::kind::DataFileType;

verus! {

/// An error reported to a client.
#[derive(Debug)]
pub struct ApiError {
    pub message: String,
}

/// The message for a language that has no worker of `kind`.
pub open spec fn no_worker_message(kind: DataFileType, language: Seq<char>) -> Seq<char> {
    "No "@ + kind.label_view() + " available for language "@ + language
}

/// The message for a request that could not be delivered to a worker.
pub open spec fn delivery_message(language: Seq<char>, detail: Seq<char>) -> Seq<char> {
    "Something failed in the message delivery process for language "@ + language + ": "@ + detail
}

/// The message for a request without text.
pub open spec fn empty_text_message() -> Seq<char> {
    "Invalid input: the text is empty"@
}

impl ApiError {
    pub fn new(message: String) -> (r: ApiError)
        ensures
            r.message == message,
    {
        ApiError { message }
    }

    /// The error for a language that has no worker of `kind`.
    pub fn no_worker(kind: DataFileType, language: &str) -> (r: ApiError)
        ensures
            r.message@ == no_worker_message(kind, language@),
    {
        let m = String::from_str("No ").concat(kind.label()).concat(" available for language ").concat(
            language,
        );
        ApiError { message: m }
    }

    /// The error for a request that could not be delivered to the worker of `language`.
    pub fn delivery(language: &str, detail: &str) -> (r: ApiError)
        ensures
            r.message@ == delivery_message(language@, detail@),
    {
        let m = String::from_str("Something failed in the message delivery process for language ").concat(
            language,
        ).concat(": ").concat(detail);
        ApiError { message: m }
    }

    /// The error for a request without text.
    pub fn empty_text() -> (r: ApiError)
        ensures
            r.message@ == empty_text_message(),
    {
        ApiError { message: String::from_str("Invalid input: the text is empty") }
    }
}

} // verus!
