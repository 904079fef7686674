use crate::syntax::diagnostic_text;
use crate::syntax::first_token;
use crate::syntax::parse_literal;
use crate::syntax::LiteralView;
use crate::syntax::StrLiteral;
use vstd::prelude::*;

verus! {

/// What the lexer made of an argument list.
#[derive(Clone, Debug, PartialEq, Eq)]
pub enum Lexed {
    /// The arguments are no tokens; the lexer's message.
    NoTokens(String),
    /// There are no arguments.
    Empty,
    /// There is a first token: the string literal that it is, or `None`
    /// where it is anything else.
    First(Option<StrLiteral>),
}

/// A lexed argument list as the contracts read it.
pub enum LexedView {
    NoTokens(Seq<char>),
    Empty,
    First(Option<LiteralView>),
}

impl View for Lexed {
    type V = LexedView;

    open spec fn view(&self) -> LexedView {
        match self {
            Lexed::NoTokens(why) => LexedView::NoTokens(why@),
            Lexed::Empty => LexedView::Empty,
            Lexed::First(Some(l)) => LexedView::First(Some(l@)),
            Lexed::First(None) => LexedView::First(None),
        }
    }
}

/// What parsing an argument list as exactly one string literal came to: the
/// literal, or the parser's message.
pub open spec fn literal_view(literal: Result<StrLiteral, String>) -> Result<
    LiteralView,
    Seq<char>,
> {
    match literal {
        Ok(l) => Ok(l@),
        Err(said) => Err(said@),
    }
}

/// All that the parser says of one argument list: what it is as one string
/// literal, and how it lexes.
#[derive(Debug, PartialEq, Eq)]
pub struct Reading {
    pub literal: Result<StrLiteral, String>,
    pub lexed: Lexed,
}

/// A reading as the contracts read it.
pub struct ReadingView {
    pub literal: Result<LiteralView, Seq<char>>,
    pub lexed: LexedView,
}

impl View for Reading {
    type V = ReadingView;

    open spec fn view(&self) -> ReadingView {
        ReadingView { literal: literal_view(self.literal), lexed: self.lexed@ }
    }
}

/// Parses `source` as exactly one string literal. The outcome is the
/// parser's, and nothing is known of it here.
pub fn read_literal(source: &str) -> (r: Result<StrLiteral, String>) {
    match parse_literal(source) {
        Ok(literal) => Ok(literal),
        Err(error) => Err(diagnostic_text(&error)),
    }
}

/// Lexes `source` and looks at its first token. The outcome is the
/// parser's, and nothing is known of it here.
pub fn lex(source: &str) -> (r: Lexed) {
    match first_token(source) {
        Err(error) => Lexed::NoTokens(diagnostic_text(&error)),
        Ok(None) => Lexed::Empty,
        Ok(Some(token)) => match parse_literal(token.as_str()) {
            Ok(literal) => Lexed::First(Some(literal)),
            Err(_) => Lexed::First(None),
        },
    }
}

/// Reads the argument list `args` both ways.
pub fn read_arguments(args: &str) -> (r: Reading) {
    Reading { literal: read_literal(args), lexed: lex(args) }
}

} // verus!
