//! The error that the box reports.

use vstd::prelude::*;
use vstd::string::*;

verus! {

/// TPM Box error.
#[derive(Debug)]
#[non_exhaustive]
pub enum Error {
    /// Error encountered while communicating with the TPM.
    TpmError(String),
}

/// Mathematical value of an [`Error`].
pub enum ErrorView {
    /// A failure of the device, with the message that describes it.
    TpmError(Seq<char>),
}

impl View for Error {
    type V = ErrorView;

    open spec fn view(&self) -> ErrorView {
        match self {
            Error::TpmError(message) => ErrorView::TpmError(message@),
        }
    }
}

impl ErrorView {
    /// The message that the error carries.
    pub open spec fn message(self) -> Seq<char> {
        match self {
            ErrorView::TpmError(message) => message,
        }
    }

    /// The text that [`Error::to_string`] gives: the variant's name, then
    /// the message quoted and escaped, in round brackets.
    pub open spec fn text(self) -> Seq<char> {
        "TpmError("@ + debug_quoted(self.message()) + ")"@
    }
}

/// The text that `core::fmt::Debug` writes for a string: the string between
/// double quotes, with the characters that need it escaped.
pub uninterp spec fn debug_quoted(text: Seq<char>) -> Seq<char>;

/// Calls `<str as core::fmt::Debug>::fmt` through `format!`. The contract
/// only names the result: the same string always gives the same text.
#[verifier::external_body]
fn quote(text: &str) -> (quoted: String)
    ensures
        quoted@ == debug_quoted(text@),
{
    format!("{:?}", text)
}

impl Error {
    /// The message that describes the failure.
    pub fn message(&self) -> (message: &str)
        ensures
            message@ == self@.message(),
    {
        match self {
            Error::TpmError(message) => message.as_str(),
        }
    }

    /// The error as one line of text, such as `TpmError("no device")`.
    pub fn to_string(&self) -> (text: String)
        ensures
            text@ == self@.text(),
    {
        let quoted = quote(self.message());
        let mut text = String::from_str("TpmError(");
        text.append(quoted.as_str());
        text.append(")");
        text
    }
}

} // verus!
