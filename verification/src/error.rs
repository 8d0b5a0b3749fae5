use vstd::prelude::*;

use crate::lines::spec_lines;
use crate::parser;
use crate::semantics;
use crate::span::Span;
use crate::tokenizer;
use crate::utils::dec_seq;
use crate::utils::repeat_seq;
use crate::utils::repeat_str;
use crate::utils::usize_to_string;

verus! {

/// An error kind with a textual rendering.
///
/// Each pipeline stage's kind implements this so that one renderer can
/// format all of them.
pub trait Message {
    /// The message text, as the renderer sees it.
    spec fn spec_message(&self) -> Seq<char>;

    /// Render the message.
    fn message(&self) -> (r: String)
        ensures
            r@ == self.spec_message(),
    ;
}

/// A helper type for formatting nice error messages.
///
/// A transient view binding a source text, an error kind, and a span for
/// the duration of exactly one render call. It borrows all three and owns
/// nothing.
#[derive(Debug)]
pub struct Formatter<'e, E> {
    /// The original tree text in which the error occurred.
    pub text: &'e str,
    /// The error kind.
    pub err: &'e E,
    /// The span of the error.
    pub span: &'e Span,
}

/// The number of carets under the flagged columns: at least one, and
/// otherwise one per column from start to end, where the difference
/// saturates at zero when the end column lies before the start column.
pub open spec fn spec_note_len(span: Span) -> nat {
    let d: int = if span.end.column >= span.start.column {
        span.end.column - span.start.column
    } else {
        0
    };
    (d + 1) as nat
}

/// The code frame for `span` over `text`: the source line at the span's
/// start line, then a caret underline below the flagged columns. A span
/// that points past the last line of the text produces an empty frame.
pub open spec fn spec_notate(text: Seq<char>, span: Span) -> Seq<char> {
    let ls = spec_lines(text);
    let i = span.start.line - 1;
    if 0 <= i < ls.len() {
        ls[i] + "\n"@ + repeat_seq(" "@, (span.start.column - 1) as nat) + repeat_seq(
            "^"@,
            spec_note_len(span),
        ) + "\n"@
    } else {
        Seq::empty()
    }
}

/// One whole diagnostic block: the divider, the message, and — unless the
/// span is degenerate — the code frame and the location footer.
pub open spec fn spec_block(text: Seq<char>, msg: Seq<char>, span: Span) -> Seq<char> {
    let head = repeat_seq("\u{2022}"@, 79) + "\n"@ + "bulloak error: "@ + msg;
    if span.is_degenerate() {
        head
    } else {
        head + "\n\n"@ + spec_notate(text, span) + "\n"@ + "--- (line "@ + dec_seq(
            span.start.line as nat,
        ) + ", column "@ + dec_seq(span.start.column as nat) + ") ---\n"@
    }
}

/// Notate the text string with carets (`^`) pointing at the span.
pub fn notate<E>(f: &Formatter<'_, E>) -> (r: String)
    requires
        f.span.wf(),
    ensures
        r@ == spec_notate(f.text@, *f.span),
{
    match crate::lines::line_at(f.text, f.span.start.line - 1) {
        Some(line) => {
            let mut notated = String::from_str(line);
            notated.append("\n");
            let pad = repeat_str(" ", f.span.start.column - 1);
            notated.append(pad.as_str());
            // The floor of one caret asked for by the rendering contract is
            // already met: the saturating difference is never negative.
            let note_len: usize = f.span.end.column.saturating_sub(f.span.start.column) + 1;
            let carets = repeat_str("^", note_len);
            notated.append(carets.as_str());
            notated.append("\n");
            proof {
                assert(notated@ =~= spec_notate(f.text@, *f.span));
            }
            notated
        },
        None => String::new(),
    }
}

impl<'e, E: Message> Formatter<'e, E> {
    /// A formatter is well formed when its span is.
    pub open spec fn wf(self) -> bool {
        self.span.wf()
    }

    /// What one render call returns, as a function of the three bound
    /// inputs alone.
    pub open spec fn spec_render(self) -> Seq<char> {
        spec_block(self.text@, self.err.spec_message(), *self.span)
    }

    /// Render one diagnostic block for the bound text, kind, and span.
    /// A degenerate span never reaches the code frame, so it needs no
    /// well-formed line and column numbers.
    pub fn render(&self) -> (r: String)
        requires
            self.span.is_degenerate() || self.wf(),
        ensures
            r@ == self.spec_render(),
    {
        let divider = repeat_str("\u{2022}", 79);
        let mut out = String::new();
        out.append(divider.as_str());
        out.append("\n");
        out.append("bulloak error: ");
        let msg = self.err.message();
        out.append(msg.as_str());

        if self.span.start.offset == self.span.end.offset && self.span.start.offset == 0 {
            proof {
                assert(out@ =~= self.spec_render());
            }
            return out;
        }
        out.append("\n\n");
        let notated = notate(self);
        out.append(notated.as_str());
        out.append("\n");
        out.append("--- (line ");
        let line = usize_to_string(self.span.start.line);
        out.append(line.as_str());
        out.append(", column ");
        let column = usize_to_string(self.span.start.column);
        out.append(column.as_str());
        out.append(") ---\n");
        proof {
            assert(out@ =~= self.spec_render());
        }
        out
    }
}

impl<'e> Formatter<'e, tokenizer::ErrorKind> {
    /// Bind a tokenizer error's text, kind, and span for one render call.
    pub fn from_tokenize(err: &'e tokenizer::Error) -> (f: Self)
        ensures
            f.text@ == err.spec_text(),
            *f.err == err.spec_kind(),
            *f.span == err.spec_span(),
    {
        Formatter { text: err.text(), err: err.kind(), span: err.span() }
    }
}

impl<'e> Formatter<'e, parser::ErrorKind> {
    /// Bind a parser error's text, kind, and span for one render call.
    pub fn from_parse(err: &'e parser::Error) -> (f: Self)
        ensures
            f.text@ == err.spec_text(),
            *f.err == err.spec_kind(),
            *f.span == err.spec_span(),
    {
        Formatter { text: err.text(), err: err.kind(), span: err.span() }
    }
}

impl<'e> Formatter<'e, semantics::ErrorKind> {
    /// Bind a semantic error's text, kind, and span for one render call.
    pub fn from_semantic(err: &'e semantics::Error) -> (f: Self)
        ensures
            f.text@ == err.spec_text(),
            *f.err == err.spec_kind(),
            *f.span == err.spec_span(),
    {
        Formatter { text: err.text(), err: err.kind(), span: err.span() }
    }
}

/// The diagnostic block of one semantic error.
pub open spec fn spec_semantic_block(e: semantics::Error) -> Seq<char> {
    spec_block(e.spec_text(), e.spec_kind().spec_message(), e.spec_span())
}

/// The diagnostic blocks of a sequence of semantic errors, concatenated in
/// order with no extra separator.
pub open spec fn spec_blocks(es: Seq<semantics::Error>) -> Seq<char>
    decreases es.len(),
{
    if es.len() == 0 {
        Seq::empty()
    } else {
        spec_blocks(es.drop_last()) + spec_semantic_block(es.last())
    }
}

/// This error type encompasses any error that can be returned when parsing.
#[derive(Clone, Debug, PartialEq, Eq)]
pub enum Error {
    /// An error that occurred while tokenizing the input text.
    Tokenize(tokenizer::Error),
    /// An error that occurred while translating concrete syntax into
    /// abstract syntax.
    Parse(parser::Error),
    /// The errors that occurred while doing semantic analysis on the
    /// abstract syntax tree, in detection order; never empty.
    Semantic(Vec<semantics::Error>),
    /// Hints that destructuring should not be exhaustive.
    ///
    /// This enum may grow additional variants, so this makes sure clients
    /// don't count on exhaustive matching. It is never constructed by the
    /// pipeline and must never reach rendering.
    __Nonexhaustive,
}

impl Error {
    /// A well-formed aggregate wraps well-formed stage errors, carries at
    /// least one semantic error when it is `Semantic`, and is never the
    /// reserved marker.
    pub open spec fn wf(self) -> bool {
        match self {
            Error::Tokenize(e) => e.wf(),
            Error::Parse(e) => e.wf(),
            Error::Semantic(es) => es@.len() > 0 && forall|i: int|
                0 <= i < es@.len() ==> (#[trigger] es@[i]).wf(),
            Error::__Nonexhaustive => false,
        }
    }

    /// What rendering this aggregate returns: one diagnostic block for a
    /// tokenizer or parser failure, and the blocks of all semantic
    /// failures, concatenated in detection order.
    pub open spec fn spec_render(self) -> Seq<char> {
        match self {
            Error::Tokenize(e) => spec_block(
                e.spec_text(),
                e.spec_kind().spec_message(),
                e.spec_span(),
            ),
            Error::Parse(e) => spec_block(e.spec_text(), e.spec_kind().spec_message(), e.spec_span()),
            Error::Semantic(es) => spec_blocks(es@),
            Error::__Nonexhaustive => Seq::empty(),
        }
    }

    /// Render every contained failure as a diagnostic block.
    pub fn render(&self) -> (r: String)
        requires
            self.wf(),
        ensures
            r@ == self.spec_render(),
    {
        match self {
            Error::Tokenize(e) => {
                let f = Formatter::from_tokenize(e);
                f.render()
            },
            Error::Parse(e) => {
                let f = Formatter::from_parse(e);
                f.render()
            },
            Error::Semantic(errors) => {
                let mut out = String::new();
                let mut i: usize = 0;
                while i < errors.len()
                    invariant
                        i <= errors@.len(),
                        out@ == spec_blocks(errors@.take(i as int)),
                        forall|k: int| 0 <= k < errors@.len() ==> (#[trigger] errors@[k]).wf(),
                    decreases errors@.len() - i,
                {
                    let f = Formatter::from_semantic(&errors[i]);
                    let block = f.render();
                    out.append(block.as_str());
                    proof {
                        assert(errors@.take(i + 1).drop_last() =~= errors@.take(i as int));
                        assert(errors@.take(i + 1).last() == errors@[i as int]);
                    }
                    i = i + 1;
                }
                proof {
                    assert(errors@.take(errors@.len() as int) =~= errors@);
                }
                out
            },
            // The reserved marker never reaches rendering: `wf` rules it
            // out, so this arm is provably dead rather than a silent
            // output path.
            Error::__Nonexhaustive => unreached(),
        }
    }
}

/// A degenerate span renders as the divider and the bare message: no code
/// frame and no footer follow.
pub proof fn lemma_degenerate_block(text: Seq<char>, msg: Seq<char>, span: Span)
    requires
        span.is_degenerate(),
    ensures
        spec_block(text, msg, span) == repeat_seq("\u{2022}"@, 79) + "\n"@ + "bulloak error: "@
            + msg,
{
}

/// A well-formed, non-degenerate span whose start line exists in the text
/// renders as: divider line, header line, blank line, source line, padding
/// and caret line, blank line, footer line — in that order, with the caret
/// count at least one and otherwise one per flagged column.
pub proof fn lemma_in_bounds_block(text: Seq<char>, msg: Seq<char>, span: Span)
    requires
        !span.is_degenerate(),
        span.wf(),
        span.start.line - 1 < spec_lines(text).len(),
    ensures
        spec_block(text, msg, span) == repeat_seq("\u{2022}"@, 79) + "\n"@ + "bulloak error: "@
            + msg + "\n\n"@ + spec_lines(text)[span.start.line - 1] + "\n"@ + repeat_seq(
            " "@,
            (span.start.column - 1) as nat,
        ) + repeat_seq("^"@, spec_note_len(span)) + "\n"@ + "\n"@ + "--- (line "@ + dec_seq(
            span.start.line as nat,
        ) + ", column "@ + dec_seq(span.start.column as nat) + ") ---\n"@,
        spec_note_len(span) == if span.end.column >= span.start.column {
            span.end.column - span.start.column + 1
        } else {
            1int
        },
        spec_note_len(span) >= 1,
{
    assert(spec_block(text, msg, span) =~= repeat_seq("\u{2022}"@, 79) + "\n"@
        + "bulloak error: "@ + msg + "\n\n"@ + spec_lines(text)[span.start.line - 1] + "\n"@
        + repeat_seq(" "@, (span.start.column - 1) as nat) + repeat_seq("^"@, spec_note_len(span))
        + "\n"@ + "\n"@ + "--- (line "@ + dec_seq(span.start.line as nat) + ", column "@ + dec_seq(
        span.start.column as nat,
    ) + ") ---\n"@);
}

/// A well-formed, non-degenerate span whose start line lies past the last
/// line of the text still renders the divider, the header, and the footer,
/// but an empty code frame: no source line and no carets.
pub proof fn lemma_out_of_bounds_block(text: Seq<char>, msg: Seq<char>, span: Span)
    requires
        !span.is_degenerate(),
        span.wf(),
        span.start.line - 1 >= spec_lines(text).len(),
    ensures
        spec_notate(text, span) == Seq::<char>::empty(),
        spec_block(text, msg, span) == repeat_seq("\u{2022}"@, 79) + "\n"@ + "bulloak error: "@
            + msg + "\n\n"@ + "\n"@ + "--- (line "@ + dec_seq(span.start.line as nat)
            + ", column "@ + dec_seq(span.start.column as nat) + ") ---\n"@,
{
    assert(spec_block(text, msg, span) =~= repeat_seq("\u{2022}"@, 79) + "\n"@
        + "bulloak error: "@ + msg + "\n\n"@ + "\n"@ + "--- (line "@ + dec_seq(
        span.start.line as nat,
    ) + ", column "@ + dec_seq(span.start.column as nat) + ") ---\n"@);
}

/// Rendering is deterministic: the rendered text is a function of the
/// aggregate alone, so any two renderings of the same value are identical.
/// (`Error::render` ensures its result equals `spec_render`, so repeated
/// calls can only return equal text.)
pub proof fn lemma_render_deterministic(e: Error, r1: Seq<char>, r2: Seq<char>)
    requires
        r1 == e.spec_render(),
        r2 == e.spec_render(),
    ensures
        r1 == r2,
{
}

/// The blocks of a concatenation of semantic errors are the concatenation
/// of their blocks: rendering neither reorders nor interleaves them.
pub proof fn lemma_blocks_concat(es1: Seq<semantics::Error>, es2: Seq<semantics::Error>)
    ensures
        spec_blocks(es1 + es2) == spec_blocks(es1) + spec_blocks(es2),
    decreases es2.len(),
{
    if es2.len() == 0 {
        assert(es1 + es2 =~= es1);
        assert(spec_blocks(es1 + es2) =~= spec_blocks(es1) + spec_blocks(es2));
    } else {
        lemma_blocks_concat(es1, es2.drop_last());
        assert((es1 + es2).drop_last() =~= es1 + es2.drop_last());
        assert((es1 + es2).last() == es2.last());
        assert(spec_blocks(es1 + es2) =~= spec_blocks(es1) + spec_blocks(es2));
    }
}

/// One semantic error renders as exactly its own block.
pub proof fn lemma_blocks_singleton(e: semantics::Error)
    ensures
        spec_blocks(seq![e]) == spec_semantic_block(e),
{
    assert(seq![e].drop_last() =~= Seq::<semantics::Error>::empty());
    assert(seq![e].last() == e);
    assert(spec_blocks(Seq::<semantics::Error>::empty()) == Seq::<char>::empty());
    assert(spec_blocks(seq![e]) =~= spec_semantic_block(e));
}

/// A `Semantic` aggregate with N atomic errors renders N diagnostic blocks
/// in original detection order: around the i-th error's block stand exactly
/// the blocks of the errors before it and the blocks of the errors after
/// it.
pub proof fn lemma_semantic_renders_in_order(es: Seq<semantics::Error>, i: int)
    requires
        0 <= i < es.len(),
    ensures
        spec_blocks(es) == spec_blocks(es.take(i)) + spec_semantic_block(es[i]) + spec_blocks(
            es.skip(i + 1),
        ),
{
    lemma_blocks_concat(es.take(i), seq![es[i]]);
    lemma_blocks_concat(es.take(i) + seq![es[i]], es.skip(i + 1));
    lemma_blocks_singleton(es[i]);
    assert(es.take(i) + seq![es[i]] + es.skip(i + 1) =~= es);
    assert(spec_blocks(es) =~= spec_blocks(es.take(i)) + spec_semantic_block(es[i]) + spec_blocks(
        es.skip(i + 1),
    ));
}

impl From<tokenizer::Error> for Error {
    fn from(err: tokenizer::Error) -> Self {
        Error::Tokenize(err)
    }
}

impl vstd::std_specs::convert::FromSpecImpl<tokenizer::Error> for Error {
    open spec fn obeys_from_spec() -> bool {
        true
    }

    open spec fn from_spec(err: tokenizer::Error) -> Error {
        Error::Tokenize(err)
    }
}

impl From<parser::Error> for Error {
    fn from(err: parser::Error) -> Self {
        Error::Parse(err)
    }
}

impl vstd::std_specs::convert::FromSpecImpl<parser::Error> for Error {
    open spec fn obeys_from_spec() -> bool {
        true
    }

    open spec fn from_spec(err: parser::Error) -> Error {
        Error::Parse(err)
    }
}

impl From<Vec<semantics::Error>> for Error {
    fn from(errors: Vec<semantics::Error>) -> Self {
        Error::Semantic(errors)
    }
}

impl vstd::std_specs::convert::FromSpecImpl<Vec<semantics::Error>> for Error {
    open spec fn obeys_from_spec() -> bool {
        true
    }

    open spec fn from_spec(errors: Vec<semantics::Error>) -> Error {
        Error::Semantic(errors)
    }
}

} // verus!
