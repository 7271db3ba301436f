use vstd::prelude::*;
use vstd::string::StringExecFns;
use crate::token_type::{kind_name, TokenType};

verus! {

/// The value a token carries beside its text.
///
/// A number carries the numeral exactly as written (digits, with an optional
/// fractional part); its numeric value is the decimal that the numeral denotes.
#[derive(Debug, PartialEq)]
pub enum Literal {
    NumberLiteral(String),
    StringLiteral(String),
    Nil,
}

/// A literal as plain values.
pub enum LiteralModel {
    Number(Seq<char>),
    Text(Seq<char>),
    Nil,
}

/// The text under which a literal is shown: its value, or `nil`.
pub open spec fn literal_text(l: LiteralModel) -> Seq<char> {
    match l {
        LiteralModel::Number(t) => t,
        LiteralModel::Text(t) => t,
        LiteralModel::Nil => "nil"@,
    }
}

impl Literal {
    /// The text under which this literal is shown.
    pub fn text(&self) -> (r: &str)
        ensures
            r@ == literal_text(self@),
    {
        match self {
            Literal::NumberLiteral(t) => t.as_str(),
            Literal::StringLiteral(t) => t.as_str(),
            Literal::Nil => "nil",
        }
    }
}

impl View for Literal {
    type V = LiteralModel;

    open spec fn view(&self) -> LiteralModel {
        match self {
            Literal::NumberLiteral(s) => LiteralModel::Number(s@),
            Literal::StringLiteral(s) => LiteralModel::Text(s@),
            Literal::Nil => LiteralModel::Nil,
        }
    }
}

/// A token: its kind, the exact source text it was recognised from, the
/// literal it carries and the 1-based line of its first character.
#[derive(Debug, PartialEq)]
pub struct Token {
    _type: TokenType,
    lexeme: String,
    literal: Literal,
    line: u32,
}

/// A token as plain values.
pub struct TokenModel {
    pub kind: TokenType,
    pub lexeme: Seq<char>,
    pub literal: LiteralModel,
    pub line: nat,
}

impl View for Token {
    type V = TokenModel;

    closed spec fn view(&self) -> TokenModel {
        TokenModel {
            kind: self._type,
            lexeme: self.lexeme@,
            literal: self.literal@,
            line: self.line as nat,
        }
    }
}

impl Token {
    pub fn new(_type: TokenType, lexeme: String, literal: Literal, line: u32) -> (r: Self)
        ensures
            r@ == (TokenModel { kind: _type, lexeme: lexeme@, literal: literal@, line: line as nat }),
    {
        Token { _type, lexeme, literal, line }
    }

    pub fn kind(&self) -> (r: TokenType)
        ensures
            r == self@.kind,
    {
        self._type
    }

    pub fn lexeme(&self) -> (r: &str)
        ensures
            r@ == self@.lexeme,
    {
        self.lexeme.as_str()
    }

    pub fn literal(&self) -> (r: &Literal)
        ensures
            r@ == self@.literal,
    {
        &self.literal
    }

    /// The token shown as its kind, its lexeme and its literal, separated
    /// by spaces.
    pub fn to_string(&self) -> (r: String)
        ensures
            r@ == kind_name(self@.kind) + " "@ + self@.lexeme + " "@ + literal_text(self@.literal),
    {
        let mut r = String::from_str(self._type.name());
        r.append(" ");
        r.append(self.lexeme.as_str());
        r.append(" ");
        r.append(self.literal.text());
        r
    }

    pub fn line(&self) -> (r: u32)
        ensures
            r as nat == self@.line,
    {
        self.line
    }
}

} // verus!
