//! The error channel: one owned message per failure, written into a slot
//! that the caller supplies, and only on failure.

use vstd::prelude::*;
use vstd::string::*;
use vstd::utf8::encode_utf8;
use crate::c_text::{has_nul, holds_nul, lemma_nul_is_the_zero_byte};

verus! {

/// Why an operation failed.
#[derive(Clone, Copy, Debug, PartialEq, Eq, Structural)]
pub enum ErrorKind {
    /// A required pointer was null.
    NullArgument,
    /// An array held a null entry.
    NullElement,
    /// Text bytes were not well-formed UTF-8.
    InvalidEncoding,
    /// No engine could be set up for the requested model.
    ModelResolutionFailure,
    /// The engine failed while embedding or reranking.
    InferenceFailure,
}

/// A failure on its way to the caller. A well-formed one has a message that
/// can be handed out as a C string: it holds no NUL.
pub struct FastEmbedError {
    pub kind: ErrorKind,
    pub message: String,
}

/// What a `FastEmbedError` says.
pub struct ErrorView {
    pub kind: ErrorKind,
    pub message: Seq<char>,
}

impl View for FastEmbedError {
    type V = ErrorView;

    open spec fn view(&self) -> ErrorView {
        ErrorView { kind: self.kind, message: self.message@ }
    }
}

/// The message that is sent in place of `text`: `text` itself, unless it
/// could not be a C string.
pub open spec fn checked_message(text: Seq<char>) -> Seq<char> {
    if has_nul(text) {
        "Invalid error message"@
    } else {
        text
    }
}

/// The error of the given kind whose message reads `prefix` followed by
/// `detail`, as far as that text can be a C string.
pub open spec fn failure(kind: ErrorKind, prefix: Seq<char>, detail: Seq<char>) -> ErrorView {
    ErrorView { kind, message: checked_message(prefix + detail) }
}

/// The error for a required pointer that was null.
pub open spec fn null_argument_error() -> ErrorView {
    ErrorView { kind: ErrorKind::NullArgument, message: "Null pointer provided"@ }
}

/// The message that stands in for one with a NUL holds none itself.
pub proof fn lemma_fallback_message_has_no_nul()
    ensures
        !has_nul("Invalid error message"@),
{
    reveal_strlit("Invalid error message");
    let s = "Invalid error message"@;
    assert forall|i: int| 0 <= i < s.len() implies s[i] != '\0' by {}
}

/// The message for a null pointer holds no NUL.
pub proof fn lemma_null_argument_message_has_no_nul()
    ensures
        !has_nul("Null pointer provided"@),
{
    reveal_strlit("Null pointer provided");
    let s = "Null pointer provided"@;
    assert forall|i: int| 0 <= i < s.len() implies s[i] != '\0' by {}
}

impl FastEmbedError {
    /// A message that can be handed out as a C string.
    pub open spec fn wf(&self) -> bool {
        !has_nul(self.message@)
    }

    /// The error of the given kind that carries `text`; where `text` holds a
    /// NUL, a fixed message takes its place.
    pub fn from_string(kind: ErrorKind, text: String) -> (e: Box<FastEmbedError>)
        ensures
            e.kind == kind,
            e.message@ == checked_message(text@),
            e.wf(),
            !encode_utf8(e.message@).contains(0u8),
    {
        proof {
            lemma_fallback_message_has_no_nul();
            lemma_nul_is_the_zero_byte(checked_message(text@));
        }
        if holds_nul(text.as_str()) {
            Box::new(FastEmbedError { kind, message: String::from_str("Invalid error message") })
        } else {
            Box::new(FastEmbedError { kind, message: text })
        }
    }

    /// The error of the given kind whose message is `prefix` followed by
    /// `detail`.
    pub fn with_detail(kind: ErrorKind, prefix: &str, detail: &str) -> (e: Box<FastEmbedError>)
        ensures
            e@ == failure(kind, prefix@, detail@),
            e.wf(),
    {
        let text = String::from_str(prefix).concat(detail);
        FastEmbedError::from_string(kind, text)
    }

    /// The error for a required pointer that was null.
    pub fn null_argument() -> (e: Box<FastEmbedError>)
        ensures
            e@ == null_argument_error(),
            e.wf(),
    {
        proof {
            lemma_null_argument_message_has_no_nul();
        }
        FastEmbedError::from_string(ErrorKind::NullArgument, String::from_str("Null pointer provided"))
    }
}

/// Writes `e` into the caller's slot, if the caller gave one. An error that
/// the slot already held is replaced.
pub fn report(error: Option<&mut Option<Box<FastEmbedError>>>, e: Box<FastEmbedError>)
    ensures
        error matches Some(slot) ==> *final(slot) == Some(e),
{
    match error {
        Some(slot) => {
            *slot = Some(e);
        },
        None => {},
    }
}

/// Releases an error and its message. Nothing happens on `None`.
pub fn fastembed_error_free(error: Option<Box<FastEmbedError>>) -> (released: bool)
    ensures
        released == (error is Some),
{
    match error {
        Some(e) => {
            let FastEmbedError { kind: _, message } = *e;
            let _ = message;
            true
        },
        None => false,
    }
}

} // verus!
