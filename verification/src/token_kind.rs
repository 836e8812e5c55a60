//! The lexeme kinds of the surface language and their category predicates.
//! The categories partition the kinds: keywords, delimiters, thin and wide
//! symbols, literals (strings, numbers, booleans), comments, identifiers
//! and indentation.

use vstd::prelude::*;

verus! {

/// The errors that can occur while producing lexeme kinds.
#[derive(Clone, Copy, Debug, PartialEq, Eq, Hash, Structural)]
#[non_exhaustive]
pub enum Error {
    /// An unknown, undefined error.
    Undefined,
    /// An unsupported whitespace character: only the space, the line feed
    /// and the carriage-return pair are accepted.
    UnsupportedWhitespace(char),
    /// A string literal left unterminated.
    UnterminatedString,
}

/// The kind of one lexeme.
#[derive(Clone, Copy, Debug, PartialEq, Eq, Hash, Structural)]
#[non_exhaustive]
pub enum Kind {
    As,
    Async,
    Await,
    Break,
    Case,
    Continue,
    Def,
    Elif,
    Else,
    Enum,
    For,
    If,
    In,
    Is,
    Lambda,
    Let,
    Match,
    Not,
    Pub,
    Return,
    Spawn,
    Struct,
    Use,
    While,
    ClosedAngle,
    ClosedBrace,
    ClosedBrack,
    ClosedParen,
    OpenAngle,
    OpenBrace,
    OpenBrack,
    OpenParen,
    Ampersand,
    Bang,
    Colon,
    Comma,
    Dot,
    Equal,
    Minus,
    Percent,
    Pipe,
    Plus,
    Slash,
    Star,
    BangEqual,
    DotDot,
    DotDotEqual,
    EqualEqual,
    GreaterThanEqual,
    LessThanEqual,
    MinusEqual,
    PlusEqual,
    SlashEqual,
    StarEqual,
    ThinRightArrow,
    False,
    Float,
    FormattingString,
    Integer,
    String,
    True,
    Comment,
    Identifier,
    Indentation,
}

/// The keyword kinds.
pub open spec fn spec_is_keyword(k: Kind) -> bool {
    match k {
        Kind::As | Kind::Async | Kind::Await | Kind::Break | Kind::Case | Kind::Continue
            | Kind::Def | Kind::Elif | Kind::Else | Kind::Enum | Kind::For | Kind::If | Kind::In
            | Kind::Is | Kind::Lambda | Kind::Let | Kind::Match | Kind::Not | Kind::Pub
            | Kind::Return | Kind::Spawn | Kind::Struct | Kind::Use | Kind::While => true,
        _ => false,
    }
}

/// The delimiter kinds.
pub open spec fn spec_is_delimiter(k: Kind) -> bool {
    match k {
        Kind::ClosedAngle | Kind::ClosedBrace | Kind::ClosedBrack | Kind::ClosedParen
            | Kind::OpenAngle | Kind::OpenBrace | Kind::OpenBrack | Kind::OpenParen => true,
        _ => false,
    }
}

/// The thin (one-character) symbol kinds.
pub open spec fn spec_is_thin_symbol(k: Kind) -> bool {
    match k {
        Kind::Ampersand | Kind::Bang | Kind::Colon | Kind::Comma | Kind::Dot | Kind::Equal
            | Kind::Minus | Kind::Percent | Kind::Pipe | Kind::Plus | Kind::Slash | Kind::Star =>
            true,
        _ => false,
    }
}

/// The wide (multi-character) symbol kinds.
pub open spec fn spec_is_wide_symbol(k: Kind) -> bool {
    match k {
        Kind::BangEqual | Kind::DotDot | Kind::DotDotEqual | Kind::EqualEqual
            | Kind::GreaterThanEqual | Kind::LessThanEqual | Kind::MinusEqual | Kind::PlusEqual
            | Kind::SlashEqual | Kind::StarEqual | Kind::ThinRightArrow => true,
        _ => false,
    }
}

/// The boolean-literal kinds.
pub open spec fn spec_is_boolean(k: Kind) -> bool {
    k == Kind::True || k == Kind::False
}

/// The numeric-literal kinds.
pub open spec fn spec_is_number(k: Kind) -> bool {
    k == Kind::Integer || k == Kind::Float
}

/// The string-literal kinds, formatted strings included.
pub open spec fn spec_is_string(k: Kind) -> bool {
    k == Kind::String || k == Kind::FormattingString
}

impl Kind {
    /// Whether `self` is a boolean literal.
    pub fn is_boolean(self) -> (r: bool)
        ensures
            r == spec_is_boolean(self),
    {
        matches!(self, Kind::True | Kind::False)
    }

    /// Whether `self` is a delimiter.
    pub fn is_delimiter(self) -> (r: bool)
        ensures
            r == spec_is_delimiter(self),
    {
        matches!(
            self,
            Kind::ClosedAngle | Kind::ClosedBrace | Kind::ClosedBrack | Kind::ClosedParen
                | Kind::OpenAngle | Kind::OpenBrace | Kind::OpenBrack | Kind::OpenParen
        )
    }

    /// Whether `self` is an identifier; keywords are included.
    pub fn is_identifier(self) -> (r: bool)
        ensures
            r == (spec_is_keyword(self) || self == Kind::Identifier),
    {
        self.is_keyword() || matches!(self, Kind::Identifier)
    }

    /// Whether `self` is a keyword.
    pub fn is_keyword(self) -> (r: bool)
        ensures
            r == spec_is_keyword(self),
    {
        matches!(
            self,
            Kind::As | Kind::Async | Kind::Await | Kind::Break | Kind::Case | Kind::Continue
                | Kind::Def | Kind::Elif | Kind::Else | Kind::Enum | Kind::For | Kind::If
                | Kind::In | Kind::Is | Kind::Lambda | Kind::Let | Kind::Match | Kind::Not
                | Kind::Pub | Kind::Return | Kind::Spawn | Kind::Struct | Kind::Use | Kind::While
        )
    }

    /// Whether `self` is a literal: a string, a boolean or a number.
    pub fn is_literal(self) -> (r: bool)
        ensures
            r == (spec_is_string(self) || spec_is_boolean(self) || spec_is_number(self)),
    {
        self.is_string() || self.is_boolean() || self.is_number()
    }

    /// Whether `self` is an integer or float literal.
    pub fn is_number(self) -> (r: bool)
        ensures
            r == spec_is_number(self),
    {
        matches!(self, Kind::Integer | Kind::Float)
    }

    /// Whether `self` is a string or formatted-string literal.
    pub fn is_string(self) -> (r: bool)
        ensures
            r == spec_is_string(self),
    {
        matches!(self, Kind::String | Kind::FormattingString)
    }

    /// Whether `self` is a thin or wide symbol.
    pub fn is_symbol(self) -> (r: bool)
        ensures
            r == (spec_is_thin_symbol(self) || spec_is_wide_symbol(self)),
    {
        self.is_thin_symbol() || self.is_wide_symbol()
    }

    /// Whether `self` is a thin symbol.
    pub fn is_thin_symbol(self) -> (r: bool)
        ensures
            r == spec_is_thin_symbol(self),
    {
        matches!(
            self,
            Kind::Ampersand | Kind::Bang | Kind::Colon | Kind::Comma | Kind::Dot | Kind::Equal
                | Kind::Minus | Kind::Percent | Kind::Pipe | Kind::Plus | Kind::Slash | Kind::Star
        )
    }

    /// Whether `self` is a wide symbol.
    pub fn is_wide_symbol(self) -> (r: bool)
        ensures
            r == spec_is_wide_symbol(self),
    {
        matches!(
            self,
            Kind::BangEqual | Kind::DotDot | Kind::DotDotEqual | Kind::EqualEqual
                | Kind::GreaterThanEqual | Kind::LessThanEqual | Kind::MinusEqual
                | Kind::PlusEqual | Kind::SlashEqual | Kind::StarEqual | Kind::ThinRightArrow
        )
    }
}

} // verus!
