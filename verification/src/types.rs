//! The error that every request handler reports.
use vstd::prelude::*;

verus! {

/// A refused or failed request: a stable code and a message for people.
#[derive(Debug, PartialEq, Eq)]
pub struct RpcError {
    pub code: String,
    pub message: String,
}

impl View for RpcError {
    type V = (Seq<char>, Seq<char>);

    open spec fn view(&self) -> (Seq<char>, Seq<char>) {
        (self.code@, self.message@)
    }
}

/// How an error reads on one line.
pub open spec fn error_line(e: (Seq<char>, Seq<char>)) -> Seq<char> {
    e.0 + ": "@ + e.1
}

impl RpcError {
    pub fn new(code: &str, message: &str) -> (r: RpcError)
        ensures
            r@ == (code@, message@),
    {
        RpcError { code: code.to_owned(), message: message.to_owned() }
    }

    /// The error with a message that was put together.
    pub fn with_message(code: &str, message: String) -> (r: RpcError)
        ensures
            r@ == (code@, message@),
    {
        RpcError { code: code.to_owned(), message }
    }

    /// `code: message`.
    pub fn line(&self) -> (r: String)
        ensures
            r@ == error_line(self@),
    {
        self.code.clone().concat(": ").concat(self.message.as_str())
    }
}

impl Clone for RpcError {
    fn clone(&self) -> (r: RpcError)
        ensures
            r@ == self@,
    {
        RpcError { code: self.code.clone(), message: self.message.clone() }
    }
}

/// A failure that is reported by its message alone.
#[derive(Debug, PartialEq, Eq)]
pub struct Failure {
    pub message: String,
}

impl View for Failure {
    type V = Seq<char>;

    open spec fn view(&self) -> Seq<char> {
        self.message@
    }
}

impl Failure {
    pub fn new(message: &str) -> (r: Failure)
        ensures
            r@ == message@,
    {
        Failure { message: message.to_owned() }
    }
}

/// An error reads as its code, a colon and its message.
pub proof fn law_error_lines(code: Seq<char>, message: Seq<char>)
    ensures
        error_line((code, message)) == code + (": "@ + message),
{
}

} // verus!
