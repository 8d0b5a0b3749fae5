use vstd::prelude::*;

use crate::error::Message;
use crate::span::Span;

verus! {

/// The kinds of failure the tokenizer reports.
#[derive(Clone, Debug, PartialEq, Eq)]
pub enum ErrorKind {
    /// A character that cannot start or continue any token.
    CharUnexpected(String),
}

impl Message for ErrorKind {
    open spec fn spec_message(&self) -> Seq<char> {
        match *self {
            ErrorKind::CharUnexpected(ref c) => "unexpected character: "@ + c@,
        }
    }

    fn message(&self) -> (r: String) {
        match self {
            ErrorKind::CharUnexpected(c) => {
                let mut m = String::from_str("unexpected character: ");
                m.append(c.as_str());
                m
            },
        }
    }
}

/// A single tokenizer failure: a snapshot of the source text at detection
/// time, the kind of failure, and the span it covers.
#[derive(Clone, Debug, PartialEq, Eq)]
pub struct Error {
    kind: ErrorKind,
    text: String,
    span: Span,
}

impl Error {
    pub closed spec fn spec_kind(self) -> ErrorKind {
        self.kind
    }

    pub closed spec fn spec_text(self) -> Seq<char> {
        self.text@
    }

    pub closed spec fn spec_span(self) -> Span {
        self.span
    }

    /// An error is well formed when its span is.
    pub open spec fn wf(self) -> bool {
        self.spec_span().wf()
    }

    pub fn new(kind: ErrorKind, text: String, span: Span) -> (e: Self)
        requires
            span.wf(),
        ensures
            e.spec_kind() == kind,
            e.spec_text() == text@,
            e.spec_span() == span,
            e.wf(),
    {
        Error { kind, text, span }
    }

    /// The kind of this error.
    pub fn kind(&self) -> (k: &ErrorKind)
        ensures
            *k == self.spec_kind(),
    {
        &self.kind
    }

    /// The source text in which this error occurred.
    pub fn text(&self) -> (t: &str)
        ensures
            t@ == self.spec_text(),
    {
        self.text.as_str()
    }

    /// The span at which this error occurred.
    pub fn span(&self) -> (s: &Span)
        ensures
            *s == self.spec_span(),
    {
        &self.span
    }
}

} // verus!
