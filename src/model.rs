//! The scanner's behaviour as spec functions over the source characters:
//! one scan step at a time, then the whole scan.
use vstd::prelude::*;
use crate::report::ReportModel;
use crate::token::{LiteralModel, TokenModel};
use crate::token_type::TokenType;

verus! {

/// An ASCII digit.
pub open spec fn is_digit_char(c: char) -> bool {
    '0' <= c && c <= '9'
}

/// A character that may start an identifier: an ASCII letter or underscore.
pub open spec fn is_alpha_char(c: char) -> bool {
    ('a' <= c && c <= 'z') || ('A' <= c && c <= 'Z') || c == '_'
}

pub open spec fn is_alpha_numeric_char(c: char) -> bool {
    is_alpha_char(c) || is_digit_char(c)
}

/// The classes of characters that the scanner consumes in runs.
#[derive(Clone, Copy, PartialEq, Eq, Structural)]
pub enum CharClass {
    /// ASCII digits (numerals).
    Digit,
    /// ASCII letters, digits and underscore (identifiers and keywords).
    Word,
    /// Anything but a double quote (the body of a string literal).
    NotQuote,
    /// Anything but a newline (the rest of a line comment).
    NotNewline,
}

pub open spec fn in_class(c: char, k: CharClass) -> bool {
    match k {
        CharClass::Digit => is_digit_char(c),
        CharClass::Word => is_alpha_numeric_char(c),
        CharClass::NotQuote => c != '"',
        CharClass::NotNewline => c != '\n',
    }
}

/// The first position at or after `i` that holds no character of class `k`
/// (the end of the text if there is none): the end of the maximal run of `k`
/// that starts at `i`.
pub open spec fn run_end(s: Seq<char>, i: nat, k: CharClass) -> nat
    decreases s.len() - i,
{
    if i < s.len() && in_class(s[i as int], k) {
        run_end(s, i + 1, k)
    } else {
        i
    }
}

/// The character at position `i`, or `'\0'` past the end.
pub open spec fn char_at(s: Seq<char>, i: int) -> char {
    if 0 <= i < s.len() {
        s[i]
    } else {
        '\0'
    }
}

/// The number of newline characters in `s`.
pub open spec fn newlines(s: Seq<char>) -> nat
    decreases s.len(),
{
    if s.len() == 0 {
        0
    } else {
        newlines(s.drop_last()) + if s.last() == '\n' {
            1nat
        } else {
            0nat
        }
    }
}

/// The end of a numeral whose integer part starts at or before `i`: a run
/// of digits, then a `.` and a further run of digits if a digit follows the
/// `.`.
pub open spec fn number_end(s: Seq<char>, i: nat) -> nat {
    let j = run_end(s, i, CharClass::Digit);
    if char_at(s, j as int) == '.' && is_digit_char(char_at(s, j + 1int)) {
        run_end(s, j + 1, CharClass::Digit)
    } else {
        j
    }
}

/// The kind of a single-character punctuation token.
pub open spec fn punctuation_kind(c: char) -> Option<TokenType> {
    if c == '(' {
        Some(TokenType::LeftParen)
    } else if c == ')' {
        Some(TokenType::RightParen)
    } else if c == '{' {
        Some(TokenType::LeftBrace)
    } else if c == '}' {
        Some(TokenType::RightBrace)
    } else if c == ',' {
        Some(TokenType::Comma)
    } else if c == '.' {
        Some(TokenType::Dot)
    } else if c == '-' {
        Some(TokenType::Minus)
    } else if c == '+' {
        Some(TokenType::Plus)
    } else if c == ';' {
        Some(TokenType::Semicolon)
    } else if c == '*' {
        Some(TokenType::Star)
    } else {
        None
    }
}

/// The kind of an operator that `c` starts, alone or followed by `=`.
pub open spec fn operator_kind(c: char, with_equal: bool) -> Option<TokenType> {
    if c == '!' {
        Some(if with_equal { TokenType::BangEqual } else { TokenType::Bang })
    } else if c == '=' {
        Some(if with_equal { TokenType::EqualEqual } else { TokenType::Equal })
    } else if c == '<' {
        Some(if with_equal { TokenType::LessEqual } else { TokenType::Less })
    } else if c == '>' {
        Some(if with_equal { TokenType::GreaterEqual } else { TokenType::Greater })
    } else {
        None
    }
}

/// The reserved word that `text` is, if any.
pub open spec fn keyword_kind(text: Seq<char>) -> Option<TokenType> {
    if text == "and"@ {
        Some(TokenType::And)
    } else if text == "class"@ {
        Some(TokenType::Class)
    } else if text == "else"@ {
        Some(TokenType::Else)
    } else if text == "false"@ {
        Some(TokenType::False)
    } else if text == "for"@ {
        Some(TokenType::For)
    } else if text == "fun"@ {
        Some(TokenType::Fun)
    } else if text == "if"@ {
        Some(TokenType::If)
    } else if text == "nil"@ {
        Some(TokenType::Nil)
    } else if text == "or"@ {
        Some(TokenType::Or)
    } else if text == "print"@ {
        Some(TokenType::Print)
    } else if text == "return"@ {
        Some(TokenType::Return)
    } else if text == "super"@ {
        Some(TokenType::Super)
    } else if text == "this"@ {
        Some(TokenType::This)
    } else if text == "true"@ {
        Some(TokenType::True)
    } else if text == "var"@ {
        Some(TokenType::Var)
    } else if text == "while"@ {
        Some(TokenType::While)
    } else {
        None
    }
}

pub open spec fn unexpected_character_message() -> Seq<char> {
    "Unexpected character."@
}

pub open spec fn unterminated_string_message() -> Seq<char> {
    "Unterminated string."@
}

/// The report of an error found on `line`.
pub open spec fn report_at(line: nat, message: Seq<char>) -> ReportModel {
    ReportModel { line, location: Seq::empty(), message }
}

/// What one scan step does: where the cursor goes, the line counter after
/// it, and the token or error report it adds, if any.
pub struct Step {
    pub next: nat,
    pub line: nat,
    pub token: Option<TokenModel>,
    pub error: Option<ReportModel>,
}

/// A step that ends at `end` with a token for the text from `start`.
pub open spec fn emit(
    s: Seq<char>,
    start: nat,
    end: nat,
    kind: TokenType,
    literal: LiteralModel,
    line: nat,
) -> Step {
    Step {
        next: end,
        line,
        token: Some(
            TokenModel { kind, lexeme: s.subrange(start as int, end as int), literal, line },
        ),
        error: None,
    }
}

/// A step that ends at `next` with no token and no error.
pub open spec fn skip(next: nat, line: nat) -> Step {
    Step { next, line, token: None, error: None }
}

/// One scan step on the lexeme that starts at `start`, with the line counter
/// at `line`.
pub open spec fn scan_step(s: Seq<char>, start: nat, line: nat) -> Step {
    let c = s[start as int];
    let p = start + 1;
    if punctuation_kind(c) is Some {
        emit(s, start, p, punctuation_kind(c)->0, LiteralModel::Nil, line)
    } else if operator_kind(c, false) is Some {
        if char_at(s, p as int) == '=' {
            emit(s, start, p + 1, operator_kind(c, true)->0, LiteralModel::Nil, line)
        } else {
            emit(s, start, p, operator_kind(c, false)->0, LiteralModel::Nil, line)
        }
    } else if c == '/' {
        if char_at(s, p as int) == '/' {
            skip(run_end(s, p + 1, CharClass::NotNewline), line)
        } else {
            emit(s, start, p, TokenType::Slash, LiteralModel::Nil, line)
        }
    } else if c == ' ' || c == '\r' || c == '\t' {
        skip(p, line)
    } else if c == '\n' {
        skip(p, line + 1)
    } else if c == '"' {
        let e = run_end(s, p, CharClass::NotQuote);
        let l = line + newlines(s.subrange(p as int, e as int));
        if e >= s.len() {
            Step {
                next: e,
                line: l,
                token: None,
                error: Some(report_at(l, unterminated_string_message())),
            }
        } else {
            Step {
                next: e + 1,
                line: l,
                token: Some(
                    TokenModel {
                        kind: TokenType::String,
                        lexeme: s.subrange(start as int, e + 1int),
                        literal: LiteralModel::Text(s.subrange(p as int, e as int)),
                        line,
                    },
                ),
                error: None,
            }
        }
    } else if is_digit_char(c) {
        let e = number_end(s, p);
        emit(s, start, e, TokenType::Number, LiteralModel::Number(s.subrange(start as int, e as int)), line)
    } else if is_alpha_char(c) {
        let e = run_end(s, p, CharClass::Word);
        let kind = match keyword_kind(s.subrange(start as int, e as int)) {
            Some(k) => k,
            None => TokenType::Identifier,
        };
        emit(s, start, e, kind, LiteralModel::Nil, line)
    } else {
        Step { next: p, line, token: None, error: Some(report_at(line, unexpected_character_message())) }
    }
}

pub open spec fn option_seq<T>(o: Option<T>) -> Seq<T> {
    match o {
        Some(x) => seq![x],
        None => Seq::empty(),
    }
}

/// The end-of-input token, on the line the scan ended on.
pub open spec fn end_marker(line: nat) -> TokenModel {
    TokenModel { kind: TokenType::Eof, lexeme: Seq::empty(), literal: LiteralModel::Nil, line }
}

/// The tokens and error reports of a whole scan.
pub struct ScanOutcome {
    pub tokens: Seq<TokenModel>,
    pub errors: Seq<ReportModel>,
}

/// Scanning `s` from position `pos` with the line counter at `line`: one
/// step after another until the end of the text, then the end marker.
pub open spec fn scan_from(s: Seq<char>, pos: nat, line: nat) -> ScanOutcome
    decreases s.len() - pos,
{
    if pos < s.len() {
        let st = scan_step(s, pos, line);
        if pos < st.next <= s.len() {
            let rest = scan_from(s, st.next, st.line);
            ScanOutcome {
                tokens: option_seq(st.token) + rest.tokens,
                errors: option_seq(st.error) + rest.errors,
            }
        } else {
            ScanOutcome { tokens: Seq::empty(), errors: Seq::empty() }
        }
    } else {
        ScanOutcome { tokens: seq![end_marker(line)], errors: Seq::empty() }
    }
}

/// Scanning a whole source text from its start, on line 1.
pub open spec fn scan(s: Seq<char>) -> ScanOutcome {
    scan_from(s, 0, 1)
}

/// The end of the maximal run of class `k` that starts at `i` is the first
/// position at or after `i` that holds no character of the class.
pub proof fn lemma_run_end(s: Seq<char>, i: nat, j: nat, k: CharClass)
    requires
        i <= j <= s.len(),
        forall|m: int| i <= m < j ==> in_class(#[trigger] s[m], k),
        j == s.len() || !in_class(s[j as int], k),
    ensures
        run_end(s, i, k) == j,
    decreases j - i,
{
    if i < j {
        lemma_run_end(s, i + 1, j, k);
    }
}

} // verus!
