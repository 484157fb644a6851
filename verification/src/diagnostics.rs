use vstd::prelude::*;

verus! {

/// A zero-based place in a document: a line and a column on it.
#[derive(Clone, Copy, Debug, PartialEq, Eq, Structural)]
pub struct Position {
    pub line: usize,
    pub character: usize,
}

/// A stretch of a document from `start` up to, and not including, `end`.
#[derive(Clone, Copy, Debug, PartialEq, Eq, Structural)]
pub struct Range {
    pub start: Position,
    pub end: Position,
}

/// Where the grammar engine says a parse failed, in its own one-based
/// lines and columns: a single place, or a span between two places.
#[derive(Clone, Copy, Debug, PartialEq, Eq, Structural)]
pub enum Location {
    Pos(usize, usize),
    Span(usize, usize, usize, usize),
}

impl Location {
    /// Every line and column is at least one.
    pub open spec fn is_one_based(self) -> bool {
        match self {
            Location::Pos(line, column) => line >= 1 && column >= 1,
            Location::Span(line, column, end_line, end_column) => {
                line >= 1 && column >= 1 && end_line >= 1 && end_column >= 1
            },
        }
    }

    /// The zero-based range that a diagnostic for this location covers.
    pub open spec fn range(self) -> Range {
        match self {
            Location::Pos(line, column) => Range {
                start: Position { line: (line - 1) as usize, character: (column - 1) as usize },
                end: Position { line: (line - 1) as usize, character: column },
            },
            Location::Span(line, column, end_line, end_column) => Range {
                start: Position { line: (line - 1) as usize, character: (column - 1) as usize },
                end: Position {
                    line: (end_line - 1) as usize,
                    character: (end_column - 1) as usize,
                },
            },
        }
    }

    /// Turns the engine's one-based location into a zero-based,
    /// end-exclusive range. A single place covers one character.
    pub fn to_range(&self) -> (range: Range)
        requires
            self.is_one_based(),
        ensures
            range == self.range(),
            match *self {
                Location::Pos(line, column) => {
                    &&& range.start.line == line - 1
                    &&& range.start.character == column - 1
                    &&& range.end.line == line - 1
                    &&& range.end.character == column
                },
                Location::Span(line, column, end_line, end_column) => {
                    &&& range.start.line == line - 1
                    &&& range.start.character == column - 1
                    &&& range.end.line == end_line - 1
                    &&& range.end.character == end_column - 1
                },
            },
    {
        match *self {
            Location::Pos(line, column) => Range {
                start: Position { line: line - 1, character: column - 1 },
                end: Position { line: line - 1, character: column },
            },
            Location::Span(line, column, end_line, end_column) => Range {
                start: Position { line: line - 1, character: column - 1 },
                end: Position { line: end_line - 1, character: end_column - 1 },
            },
        }
    }
}

/// What the grammar engine reports of a text that its entry rule rejects:
/// the one place of furthest progress, and why the parse stopped there.
#[derive(Debug)]
pub struct PositionedError {
    pub location: Location,
    pub cause: String,
}

/// How grave a diagnostic is.
#[derive(Clone, Copy, Debug, PartialEq, Eq, Structural)]
pub enum DiagnosticSeverity {
    Error,
    Warning,
    Information,
    Hint,
}

/// One finding on a document: where, how grave, and what.
#[derive(Debug)]
pub struct Diagnostic {
    pub range: Range,
    pub severity: Option<DiagnosticSeverity>,
    pub message: String,
}

impl Clone for Diagnostic {
    fn clone(&self) -> (copy: Self)
        ensures
            copy == *self,
    {
        Diagnostic {
            range: self.range,
            severity: self.severity,
            message: self.message.clone(),
        }
    }
}

impl PartialEq for Diagnostic {
    fn eq(&self, other: &Self) -> (equal: bool) {
        self.range == other.range && self.severity == other.severity && self.message
            == other.message
    }
}

impl vstd::std_specs::cmp::PartialEqSpecImpl for Diagnostic {
    open spec fn obeys_eq_spec() -> bool {
        true
    }

    open spec fn eq_spec(&self, other: &Self) -> bool {
        self.range == other.range && self.severity == other.severity && self.message@
            == other.message@
    }
}

/// The range that anchors a diagnostic at the start of a document: the
/// first character of the first line.
pub open spec fn start_of_document() -> Range {
    Range {
        start: Position { line: 0, character: 0 },
        end: Position { line: 0, character: 1 },
    }
}

impl Diagnostic {
    /// The diagnostic that reports the parse failure `error`.
    pub open spec fn of_failure(error: PositionedError) -> Diagnostic {
        Diagnostic {
            range: error.location.range(),
            severity: Some(DiagnosticSeverity::Error),
            message: error.cause,
        }
    }

    /// The diagnostic that reports a failure of the machinery around the
    /// parse, described by `message`.
    pub open spec fn of_message(message: String) -> Diagnostic {
        Diagnostic {
            range: start_of_document(),
            severity: Some(DiagnosticSeverity::Error),
            message,
        }
    }

    /// Reports a document that its grammar rejects: an error over the range
    /// of the failure, with the engine's cause as its message.
    pub fn from_failure(error: PositionedError) -> (diagnostic: Diagnostic)
        requires
            error.location.is_one_based(),
        ensures
            diagnostic == Self::of_failure(error),
            diagnostic.range == error.location.range(),
            diagnostic.severity == Some(DiagnosticSeverity::Error),
            diagnostic.message == error.cause,
    {
        Diagnostic {
            range: error.location.to_range(),
            severity: Some(DiagnosticSeverity::Error),
            message: error.cause,
        }
    }

    /// Reports that the document could not be checked at all: an error
    /// anchored at the start of the document, carrying `message`.
    pub fn at_start(message: String) -> (diagnostic: Diagnostic)
        ensures
            diagnostic == Self::of_message(message),
            diagnostic.range.start == (Position { line: 0, character: 0 }),
            diagnostic.range.end == (Position { line: 0, character: 1 }),
            diagnostic.severity == Some(DiagnosticSeverity::Error),
            diagnostic.message == message,
    {
        Diagnostic {
            range: Range {
                start: Position { line: 0, character: 0 },
                end: Position { line: 0, character: 1 },
            },
            severity: Some(DiagnosticSeverity::Error),
            message,
        }
    }
}

/// Whether `result` is what a parse that ended in `outcome` comes to for
/// the document: nothing to report after a success, and after a failure
/// the one diagnostic that reports it.
pub open spec fn diagnosed(
    outcome: Result<(), PositionedError>,
    result: Result<(), Vec<Diagnostic>>,
) -> bool {
    match outcome {
        Ok(_) => result is Ok,
        Err(error) => result matches Err(list) && list@ == seq![Diagnostic::of_failure(error)],
    }
}

/// Turns the outcome of a parse into what is to be reported of the
/// document: a failure becomes a list of exactly one diagnostic.
pub fn diagnose(outcome: Result<(), PositionedError>) -> (result: Result<(), Vec<Diagnostic>>)
    requires
        outcome matches Err(error) ==> error.location.is_one_based(),
    ensures
        diagnosed(outcome, result),
{
    match outcome {
        Ok(_) => Ok(()),
        Err(error) => {
            let mut list: Vec<Diagnostic> = Vec::new();
            list.push(Diagnostic::from_failure(error));
            Err(list)
        },
    }
}

} // verus!
