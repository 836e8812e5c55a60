//! Lexer-facing positions and diagnostics: the byte span of the token
//! stream, the lexer's error values, and their rendering as diagnostics
//! with exact messages.

use vstd::prelude::*;
use crate::strutil::{spec_u64_str, u64_to_string};

verus! {

/// A byte range in one source text.
#[derive(Debug, Clone, Copy, PartialEq, Eq, Structural)]
pub struct Span {
    start: usize,
    end: usize,
}

impl Span {
    pub closed spec fn spec_start(&self) -> usize {
        self.start
    }

    pub closed spec fn spec_end(&self) -> usize {
        self.end
    }

    /// A new range from its start and end offsets.
    pub fn new(start: usize, end: usize) -> (r: Self)
        ensures
            r.spec_start() == start,
            r.spec_end() == end,
    {
        Span { start, end }
    }

    /// The starting offset.
    pub fn start(&self) -> (r: usize)
        ensures
            r == self.spec_start(),
    {
        self.start
    }

    /// The ending offset.
    pub fn end(&self) -> (r: usize)
        ensures
            r == self.spec_end(),
    {
        self.end
    }
}

/// The errors the text lexer reports, each carrying the position it was
/// found at.
#[derive(Debug, Clone, Copy)]
pub enum LexerError {
    TabsNotAllowed { line: usize, column: usize, span: Span },
    IndentationMismatch { line: usize, expected: usize, found: usize, span: Span },
    UnterminatedString { line: usize, column: usize, span: Span },
    UnexpectedCharacter { ch: char, line: usize, column: usize, span: Span },
}

/// How severe a diagnostic is.
#[derive(Debug, Clone, Copy, PartialEq, Eq, Structural)]
pub enum DiagnosticSeverity {
    Error,
    Warning,
}

/// One reported diagnostic: a severity, the source it belongs to, the span
/// it points at, and its message.
#[derive(Debug)]
pub struct Diagnostic {
    pub severity: DiagnosticSeverity,
    pub source_id: String,
    pub span: Span,
    pub message: String,
}

impl Diagnostic {
    pub fn new(severity: DiagnosticSeverity, source_id: &str, span: Span, message: String) -> (r:
        Self)
        ensures
            r.severity == severity,
            r.source_id@ == source_id@,
            r.span == span,
            r.message == message,
    {
        Diagnostic { severity, source_id: source_id.to_owned(), span, message }
    }
}

/// Relies on `String::push`: appends exactly one character.
#[verifier::external_body]
fn push_char(s: &mut String, c: char)
    ensures
        final(s)@ == old(s)@ + seq![c],
{
    s.push(c);
}

/// The span a lexer error points at.
pub open spec fn spec_lexer_error_span(e: LexerError) -> Span {
    match e {
        LexerError::TabsNotAllowed { span, .. } => span,
        LexerError::IndentationMismatch { span, .. } => span,
        LexerError::UnterminatedString { span, .. } => span,
        LexerError::UnexpectedCharacter { span, .. } => span,
    }
}

/// The exact message of a lexer error.
pub open spec fn spec_lexer_error_message(e: LexerError) -> Seq<char> {
    match e {
        LexerError::TabsNotAllowed { line, column, .. } => {
            "tabs are not allowed for indentation (line "@ + spec_u64_str(line as int)
                + ", column "@ + spec_u64_str(column as int) + ")"@
        },
        LexerError::IndentationMismatch { line, expected, found, .. } => {
            "indentation mismatch: expected "@ + spec_u64_str(expected as int) + " spaces, found "@
                + spec_u64_str(found as int) + " (line "@ + spec_u64_str(line as int) + ")"@
        },
        LexerError::UnterminatedString { line, column, .. } => {
            "unterminated string literal (line "@ + spec_u64_str(line as int) + ", column "@
                + spec_u64_str(column as int) + ")"@
        },
        LexerError::UnexpectedCharacter { ch, line, column, .. } => {
            "unexpected character `"@ + seq![ch] + "` (line "@ + spec_u64_str(line as int)
                + ", column "@ + spec_u64_str(column as int) + ")"@
        },
    }
}

impl LexerError {
    /// Renders the error's message.
    pub fn message(&self) -> (r: String)
        ensures
            r@ == spec_lexer_error_message(*self),
    {
        match self {
            LexerError::TabsNotAllowed { line, column, .. } => {
                let mut out = "tabs are not allowed for indentation (line ".to_owned();
                out.append(u64_to_string(*line as u64).as_str());
                out.append(", column ");
                out.append(u64_to_string(*column as u64).as_str());
                out.append(")");
                proof {
                    assert(out@ =~= spec_lexer_error_message(*self));
                }
                out
            },
            LexerError::IndentationMismatch { line, expected, found, .. } => {
                let mut out = "indentation mismatch: expected ".to_owned();
                out.append(u64_to_string(*expected as u64).as_str());
                out.append(" spaces, found ");
                out.append(u64_to_string(*found as u64).as_str());
                out.append(" (line ");
                out.append(u64_to_string(*line as u64).as_str());
                out.append(")");
                proof {
                    assert(out@ =~= spec_lexer_error_message(*self));
                }
                out
            },
            LexerError::UnterminatedString { line, column, .. } => {
                let mut out = "unterminated string literal (line ".to_owned();
                out.append(u64_to_string(*line as u64).as_str());
                out.append(", column ");
                out.append(u64_to_string(*column as u64).as_str());
                out.append(")");
                proof {
                    assert(out@ =~= spec_lexer_error_message(*self));
                }
                out
            },
            LexerError::UnexpectedCharacter { ch, line, column, .. } => {
                let mut out = "unexpected character `".to_owned();
                push_char(&mut out, *ch);
                out.append("` (line ");
                out.append(u64_to_string(*line as u64).as_str());
                out.append(", column ");
                out.append(u64_to_string(*column as u64).as_str());
                out.append(")");
                proof {
                    assert(out@ =~= spec_lexer_error_message(*self));
                }
                out
            },
        }
    }

    /// The error as a diagnostic against a source: an error-severity
    /// diagnostic at the error's span, carrying its message.
    pub fn to_diagnostic(&self, source_id: &str) -> (r: Diagnostic)
        ensures
            r.severity == DiagnosticSeverity::Error,
            r.source_id@ == source_id@,
            r.span == spec_lexer_error_span(*self),
            r.message@ == spec_lexer_error_message(*self),
    {
        match self {
            LexerError::TabsNotAllowed { span, .. } => Diagnostic::new(
                DiagnosticSeverity::Error,
                source_id,
                *span,
                self.message(),
            ),
            LexerError::IndentationMismatch { span, .. } => Diagnostic::new(
                DiagnosticSeverity::Error,
                source_id,
                *span,
                self.message(),
            ),
            LexerError::UnterminatedString { span, .. } => Diagnostic::new(
                DiagnosticSeverity::Error,
                source_id,
                *span,
                self.message(),
            ),
            LexerError::UnexpectedCharacter { span, .. } => Diagnostic::new(
                DiagnosticSeverity::Error,
                source_id,
                *span,
                self.message(),
            ),
        }
    }
}

} // verus!
