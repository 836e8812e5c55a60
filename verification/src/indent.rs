//! The indentation tracker of the surface language: lines are structured
//! by leading spaces in whole steps, and a change of depth against the
//! current stack emits an indent or dedent.

use vstd::prelude::*;

verus! {

/// How many spaces one indentation step spans.
pub const INDENT_DEDENT_SIZE: usize = 4;

/// A change in indentation depth, in steps.
#[derive(Clone, Copy, Debug, PartialEq, Eq, Hash, Structural)]
pub enum Indentation {
    Indent(u16),
    Dedent(u16),
}

/// The lexer's carried state: the current indentation depth, in steps.
#[derive(Clone, Copy, Debug, PartialEq, Eq, Hash)]
pub struct LexerExtras {
    pub indent_stack: u16,
}

impl Default for LexerExtras {
    /// Lexing starts at depth zero.
    fn default() -> (r: Self)
        ensures
            r.indent_stack == 0,
    {
        LexerExtras { indent_stack: 0 }
    }
}

/// The errors the indentation-structured lexer reports.
#[derive(Clone, Copy, Debug, PartialEq, Eq, Hash, Structural)]
pub enum Error {
    /// An indentation width that is not a whole number of steps.
    ShortIndentDedent(usize),
    /// A line nested deeper than the indentation stack can hold.
    IndentStackOverflow,
    /// A string whose closing quote is escaped.
    EscapedFinalQuote,
    /// A horizontal whitespace character other than a space.
    UnsupportedHorizontalWhitespace(char),
    /// Anything else that went wrong while lexing.
    Unknown,
}

/// The decision for one line break followed by `ws` horizontal spaces.
pub open spec fn spec_indentation_update(stack: u16, ws: usize) -> Result<
    (u16, Option<Indentation>),
    Error,
> {
    if ws % (INDENT_DEDENT_SIZE as usize) != 0 {
        Err(Error::ShortIndentDedent(ws))
    } else if ws / (INDENT_DEDENT_SIZE as usize) > u16::MAX {
        Err(Error::IndentStackOverflow)
    } else {
        let depth = (ws / (INDENT_DEDENT_SIZE as usize)) as u16;
        if depth == stack {
            Ok((stack, None))
        } else if depth > stack {
            Ok((depth, Some(Indentation::Indent(depth))))
        } else {
            Ok((depth, Some(Indentation::Dedent(depth))))
        }
    }
}

/// Applies one line's leading-space count to the current depth: an equal
/// depth emits nothing, a deeper line indents, a shallower one dedents; a
/// width that is not a whole number of steps, or deeper than the stack can
/// hold, is an error. Yields the new depth beside what is emitted.
pub fn indentation_update(stack: u16, ws: usize) -> (r: Result<(u16, Option<Indentation>), Error>)
    ensures
        r == spec_indentation_update(stack, ws),
{
    if ws % INDENT_DEDENT_SIZE != 0 {
        return Err(Error::ShortIndentDedent(ws));
    }
    let steps = ws / INDENT_DEDENT_SIZE;
    if steps > u16::MAX as usize {
        return Err(Error::IndentStackOverflow);
    }
    let depth = steps as u16;
    if depth == stack {
        Ok((stack, None))
    } else if depth > stack {
        Ok((depth, Some(Indentation::Indent(depth))))
    } else {
        Ok((depth, Some(Indentation::Dedent(depth))))
    }
}

} // verus!
