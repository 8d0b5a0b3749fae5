use vstd::prelude::*;

verus! {

/// A precise location in the source text: a byte offset paired with
/// 1-based line and column numbers.
#[derive(Clone, Copy, Debug, PartialEq, Eq, Structural)]
pub struct Position {
    /// 0-based byte offset into the source text.
    pub offset: usize,
    /// 1-based line number.
    pub line: usize,
    /// 1-based column number.
    pub column: usize,
}

impl Position {
    /// A position is well formed when its line and column numbers are 1-based.
    pub open spec fn wf(self) -> bool {
        self.line >= 1 && self.column >= 1
    }

    pub fn new(offset: usize, line: usize, column: usize) -> (p: Self)
        requires
            line >= 1,
            column >= 1,
        ensures
            p == (Position { offset, line, column }),
            p.wf(),
    {
        Position { offset, line, column }
    }
}

/// The source range a diagnostic refers to: a start/end pair of positions.
#[derive(Clone, Copy, Debug, PartialEq, Eq, Structural)]
pub struct Span {
    pub start: Position,
    pub end: Position,
}

impl Span {
    /// A span is well formed when both of its positions are.
    pub open spec fn wf(self) -> bool {
        self.start.wf() && self.end.wf()
    }

    /// A degenerate span signals a file-level error with no precise location.
    pub open spec fn is_degenerate(self) -> bool {
        self.start.offset == 0 && self.end.offset == 0
    }

    pub fn new(start: Position, end: Position) -> (s: Self)
        requires
            start.offset <= end.offset,
        ensures
            s == (Span { start, end }),
    {
        Span { start, end }
    }
}

} // verus!
