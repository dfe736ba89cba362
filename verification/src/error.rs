//! The errors this gateway answers S3 requests with.
use vstd::prelude::*;

verus! {

/// The S3 error codes the gateway produces.
#[derive(Clone, Copy, Debug, PartialEq, Eq, Structural)]
pub enum ErrorCode {
    InternalError,
    CredentialsNotSupported,
    ServiceUnavailable,
    NotImplemented,
    NoSuchKey,
}

/// An S3 error answer: a code and an optional human-readable message.
#[derive(Debug)]
pub struct S3Failure {
    pub code: ErrorCode,
    pub message: Option<String>,
}

/// A failure as its `Debug` rendering prints it (the form in which error
/// messages report their cause).
#[derive(Debug)]
pub struct ErrorText {
    pub rendering: String,
}

/// The message `"<context>: <detail>"` used for every error that reports its cause.
pub open spec fn detailed_message(context: Seq<char>, detail: Seq<char>) -> Seq<char> {
    context + ": "@ + detail
}

/// Joins a context and the rendering of a cause into an error message.
pub fn describe(context: &str, detail: &str) -> (res: String)
    ensures
        res@ == detailed_message(context@, detail@),
{
    let mut msg = String::from_str(context);
    msg.append(": ");
    msg.append(detail);
    msg
}

impl S3Failure {
    /// An error that carries a code only.
    pub fn new(code: ErrorCode) -> (res: S3Failure)
        ensures
            res.code == code,
            res.message is None,
    {
        S3Failure { code, message: None }
    }

    /// An error with code `code` and message `"<context>: <detail>"`.
    pub fn with_cause(code: ErrorCode, context: &str, detail: &str) -> (res: S3Failure)
        ensures
            res.code == code,
            res.message is Some,
            res.message->Some_0@ == detailed_message(context@, detail@),
    {
        S3Failure { code, message: Some(describe(context, detail)) }
    }

    /// An error with code `code` and message `text`.
    pub fn with_message(code: ErrorCode, text: &str) -> (res: S3Failure)
        ensures
            res.code == code,
            res.message is Some,
            res.message->Some_0@ == text@,
    {
        S3Failure { code, message: Some(String::from_str(text)) }
    }
}

} // verus!
