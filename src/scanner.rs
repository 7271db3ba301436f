use vstd::prelude::*;
use vstd::string::StrSliceExecFns;
use crate::model::{
    char_at, in_class, is_alpha_char, is_alpha_numeric_char, is_digit_char, keyword_kind,
    lemma_run_end, newlines, option_seq, run_end, scan_from, scan_step, CharClass, ScanOutcome,
};
use crate::report::{error, ErrorReport, ReportModel};
use crate::token::{Literal, Token, TokenModel};
use crate::token_type::TokenType;

verus! {

/// A token sequence as plain values.
pub open spec fn token_models(ts: Seq<Token>) -> Seq<TokenModel> {
    ts.map_values(|t: Token| t@)
}

/// A sequence of error reports as plain values.
pub open spec fn report_models(rs: Seq<ErrorReport>) -> Seq<ReportModel> {
    rs.map_values(|r: ErrorReport| r@)
}

/// Scans a source text into tokens, keeping the reports of the lexical
/// errors it meets.
pub struct Scanner {
    source: String,
    chars: Vec<char>,
    start: usize,
    current: usize,
    line: u32,
    errors: Vec<ErrorReport>,
}

/// A scanner as plain values: its text, its cursor, its line counter and
/// the error reports so far.
pub struct ScannerModel {
    pub source: Seq<char>,
    pub current: nat,
    pub line: nat,
    pub errors: Seq<ReportModel>,
}

impl View for Scanner {
    type V = ScannerModel;

    closed spec fn view(&self) -> ScannerModel {
        ScannerModel {
            source: self.chars@,
            current: self.current as nat,
            line: self.line as nat,
            errors: report_models(self.errors@),
        }
    }
}

/// The characters of `s`, in order.
fn chars_of(s: &str) -> (r: Vec<char>)
    ensures
        r@ == s@,
{
    let n = s.unicode_len();
    let mut out: Vec<char> = Vec::new();
    let mut i: usize = 0;
    while i < n
        invariant
            n == s@.len(),
            i <= n,
            out@ == s@.subrange(0, i as int),
        decreases n - i,
    {
        out.push(s.get_char(i));
        i = i + 1;
    }
    assert(out@ =~= s@);
    out
}

impl Scanner {
    /// The scanner's invariant: its characters are those of its text, the
    /// lexeme under way lies in the text, and the line counter has counted
    /// at most the characters consumed.
    pub closed spec fn wf(&self) -> bool {
        &&& self.chars@ == self.source@
        &&& self.chars@.len() < u32::MAX
        &&& self.start <= self.current <= self.chars@.len()
        &&& 1 <= self.line <= self.current + 1
    }

    spec fn same_text(&self, after: Scanner) -> bool {
        &&& after.source == self.source
        &&& after.chars@ == self.chars@
        &&& after.start == self.start
    }

    /// `after` is this scanner once one scan step has run on the lexeme
    /// that starts at `start`, and the tokens went from `toks` to `toks_after`.
    spec fn stepped(&self, after: Scanner, toks: Seq<Token>, toks_after: Seq<Token>) -> bool {
        let st = scan_step(self.chars@, self.start as nat, self.line as nat);
        &&& after.wf()
        &&& self.same_text(after)
        &&& self.start < after.current
        &&& after.current == st.next
        &&& after.line == st.line
        &&& token_models(toks_after) =~= token_models(toks) + option_seq(st.token)
        &&& report_models(after.errors@) =~= report_models(self.errors@) + option_seq(st.error)
    }

    /// A scanner at the start of `source`, on line 1, with no error yet.
    /// Lines and positions are counted in 32 bits, hence the bound on the
    /// length of the text.
    pub fn new(source: String) -> (r: Self)
        requires
            source@.len() < u32::MAX,
        ensures
            r.wf(),
            r@ == (ScannerModel { source: source@, current: 0, line: 1, errors: Seq::empty() }),
    {
        let chars = chars_of(source.as_str());
        let r = Scanner { source, chars, start: 0, current: 0, line: 1, errors: Vec::new() };
        assert(report_models(r.errors@) =~= Seq::empty());
        r
    }

    /// Scans the rest of the text, then adds the end marker. The tokens are
    /// exactly those of the scan model from the cursor and line counter the
    /// scanner had, and its reports are those of the model added to the ones
    /// it held; on a fresh scanner this is `scan` of the whole text.
    pub fn scan_tokens(&mut self) -> (r: Vec<Token>)
        requires
            old(self).wf(),
        ensures
            final(self).wf(),
            token_models(r@) == scan_from(
                old(self)@.source,
                old(self)@.current,
                old(self)@.line,
            ).tokens,
            final(self)@.errors == old(self)@.errors + scan_from(
                old(self)@.source,
                old(self)@.current,
                old(self)@.line,
            ).errors,
            final(self)@.source == old(self)@.source,
            final(self)@.current == old(self)@.source.len(),
    {
        let ghost s = self.chars@;
        let ghost total = scan_from(s, self.current as nat, self.line as nat);
        let ghost errs0 = report_models(self.errors@);
        let mut tokens: Vec<Token> = Vec::new();
        assert(token_models(tokens@) =~= Seq::empty());
        assert(total.tokens =~= token_models(tokens@) + total.tokens);
        assert(errs0 + total.errors =~= report_models(self.errors@) + total.errors);
        while !self.is_at_end()
            invariant
                self.wf(),
                self.chars@ == s,
                token_models(tokens@) + scan_from(s, self.current as nat, self.line as nat).tokens
                    == total.tokens,
                report_models(self.errors@) + scan_from(
                    s,
                    self.current as nat,
                    self.line as nat,
                ).errors == errs0 + total.errors,
            decreases s.len() - self.current,
        {
            self.start = self.current;
            let ghost before = *self;
            let ghost toks_before = tokens@;
            self.scan_token(&mut tokens);
            proof {
                let st = scan_step(s, before.current as nat, before.line as nat);
                let rest = scan_from(s, st.next, st.line);
                assert(scan_from(s, before.current as nat, before.line as nat) == (ScanOutcome {
                    tokens: option_seq(st.token) + rest.tokens,
                    errors: option_seq(st.error) + rest.errors,
                }));
                assert(token_models(toks_before) + (option_seq(st.token) + rest.tokens)
                    =~= token_models(tokens@) + rest.tokens);
                assert(report_models(before.errors@) + (option_seq(st.error) + rest.errors)
                    =~= report_models(self.errors@) + rest.errors);
            }
        }
        let ghost toks_before = tokens@;
        tokens.push(Token::new(TokenType::Eof, String::new(), Literal::Nil, self.line));
        proof {
            assert(token_models(tokens@) =~= token_models(toks_before) + scan_from(
                s,
                self.current as nat,
                self.line as nat,
            ).tokens);
            assert(report_models(self.errors@) =~= report_models(self.errors@) + scan_from(
                s,
                self.current as nat,
                self.line as nat,
            ).errors);
        }
        tokens
    }

    /// One scan step on the lexeme that starts at the cursor.
    fn scan_token(&mut self, tokens: &mut Vec<Token>)
        requires
            old(self).wf(),
            old(self).start == old(self).current,
            old(self).current < old(self).chars@.len(),
        ensures
            old(self).stepped(*final(self), old(tokens)@, final(tokens)@),
    {
        let c = self.advance();
        match c {
            '(' => self.add_token_nill(tokens, TokenType::LeftParen),
            ')' => self.add_token_nill(tokens, TokenType::RightParen),
            '{' => self.add_token_nill(tokens, TokenType::LeftBrace),
            '}' => self.add_token_nill(tokens, TokenType::RightBrace),
            ',' => self.add_token_nill(tokens, TokenType::Comma),
            '.' => self.add_token_nill(tokens, TokenType::Dot),
            '-' => self.add_token_nill(tokens, TokenType::Minus),
            '+' => self.add_token_nill(tokens, TokenType::Plus),
            ';' => self.add_token_nill(tokens, TokenType::Semicolon),
            '*' => self.add_token_nill(tokens, TokenType::Star),
            '!' => {
                let kind = if self.match_lexeme('=') {
                    TokenType::BangEqual
                } else {
                    TokenType::Bang
                };
                self.add_token_nill(tokens, kind);
            },
            '=' => {
                let kind = if self.match_lexeme('=') {
                    TokenType::EqualEqual
                } else {
                    TokenType::Equal
                };
                self.add_token_nill(tokens, kind);
            },
            '<' => {
                let kind = if self.match_lexeme('=') {
                    TokenType::LessEqual
                } else {
                    TokenType::Less
                };
                self.add_token_nill(tokens, kind);
            },
            '>' => {
                let kind = if self.match_lexeme('=') {
                    TokenType::GreaterEqual
                } else {
                    TokenType::Greater
                };
                self.add_token_nill(tokens, kind);
            },
            '/' => {
                if self.match_lexeme('/') {
                    // A comment runs to the end of the line.
                    self.consume_run(CharClass::NotNewline);
                } else {
                    self.add_token_nill(tokens, TokenType::Slash);
                }
            },
            ' ' => {},
            '\r' => {},
            '\t' => {},
            '\n' => {
                self.line = self.line + 1;
            },
            '"' => self.string(tokens),
            _ => {
                if self.is_digit(c) {
                    self.number(tokens);
                } else if self.is_alpha(c) {
                    self.identifier(tokens);
                } else {
                    let ghost errs = self.errors@;
                    self.errors.push(error(self.line, "Unexpected character."));
                    assert(report_models(self.errors@) =~= report_models(errs).push(
                        self.errors@.last()@,
                    ));
                }
            },
        }
    }

    fn is_alpha(&self, c: char) -> (r: bool)
        ensures
            r == is_alpha_char(c),
    {
        (c >= 'a' && c <= 'z') || (c >= 'A' && c <= 'Z') || c == '_'
    }

    fn is_alpha_numeric(&self, c: char) -> (r: bool)
        ensures
            r == is_alpha_numeric_char(c),
    {
        self.is_alpha(c) || self.is_digit(c)
    }

    fn is_digit(&self, c: char) -> (r: bool)
        ensures
            r == is_digit_char(c),
    {
        c >= '0' && c <= '9'
    }

    fn is_in_class(&self, c: char, k: CharClass) -> (r: bool)
        ensures
            r == in_class(c, k),
    {
        match k {
            CharClass::Digit => self.is_digit(c),
            CharClass::Word => self.is_alpha_numeric(c),
            CharClass::NotQuote => c != '"',
            CharClass::NotNewline => c != '\n',
        }
    }

    /// Consumes the maximal run of characters of class `k` at the cursor.
    fn consume_run(&mut self, k: CharClass)
        requires
            old(self).wf(),
        ensures
            final(self).wf(),
            old(self).same_text(*final(self)),
            final(self).line == old(self).line,
            final(self).errors == old(self).errors,
            old(self).current <= final(self).current,
            final(self).current == run_end(old(self).chars@, old(self).current as nat, k),
    {
        let ghost from = self.current;
        while !self.is_at_end() && self.is_in_class(self.peek(), k)
            invariant
                self.wf(),
                old(self).same_text(*self),
                self.line == old(self).line,
                self.errors == old(self).errors,
                from <= self.current,
                forall|m: int| from <= m < self.current ==> in_class(#[trigger] self.chars@[m], k),
            decreases self.chars@.len() - self.current,
        {
            self.advance();
        }
        proof {
            lemma_run_end(self.chars@, from as nat, self.current as nat, k);
        }
    }

    fn identifier(&mut self, tokens: &mut Vec<Token>)
        requires
            old(self).wf(),
            old(self).start + 1 == old(self).current,
            is_alpha_char(old(self).chars@[old(self).start as int]),
        ensures
            old(self).stepped(*final(self), old(tokens)@, final(tokens)@),
    {
        self.consume_run(CharClass::Word);
        let kind = match self.keyword() {
            Some(k) => k,
            None => TokenType::Identifier,
        };
        self.add_token_nill(tokens, kind);
    }

    /// The reserved word that the lexeme under way is, if any.
    fn keyword(&self) -> (r: Option<TokenType>)
        requires
            self.wf(),
        ensures
            r == keyword_kind(self.chars@.subrange(self.start as int, self.current as int)),
    {
        if self.lexeme_is("and") {
            Some(TokenType::And)
        } else if self.lexeme_is("class") {
            Some(TokenType::Class)
        } else if self.lexeme_is("else") {
            Some(TokenType::Else)
        } else if self.lexeme_is("false") {
            Some(TokenType::False)
        } else if self.lexeme_is("for") {
            Some(TokenType::For)
        } else if self.lexeme_is("fun") {
            Some(TokenType::Fun)
        } else if self.lexeme_is("if") {
            Some(TokenType::If)
        } else if self.lexeme_is("nil") {
            Some(TokenType::Nil)
        } else if self.lexeme_is("or") {
            Some(TokenType::Or)
        } else if self.lexeme_is("print") {
            Some(TokenType::Print)
        } else if self.lexeme_is("return") {
            Some(TokenType::Return)
        } else if self.lexeme_is("super") {
            Some(TokenType::Super)
        } else if self.lexeme_is("this") {
            Some(TokenType::This)
        } else if self.lexeme_is("true") {
            Some(TokenType::True)
        } else if self.lexeme_is("var") {
            Some(TokenType::Var)
        } else if self.lexeme_is("while") {
            Some(TokenType::While)
        } else {
            None
        }
    }

    /// Whether the lexeme under way is exactly `w`.
    fn lexeme_is(&self, w: &str) -> (r: bool)
        requires
            self.wf(),
        ensures
            r == (self.chars@.subrange(self.start as int, self.current as int) == w@),
    {
        let ghost text = self.chars@.subrange(self.start as int, self.current as int);
        let n = w.unicode_len();
        if n != self.current - self.start {
            assert(text.len() != w@.len());
            return false;
        }
        let mut i: usize = 0;
        while i < n
            invariant
                self.wf(),
                n == w@.len(),
                n == self.current - self.start,
                text == self.chars@.subrange(self.start as int, self.current as int),
                i <= n,
                forall|m: int| 0 <= m < i ==> text[m] == w@[m],
            decreases n - i,
        {
            if self.chars[self.start + i] != w.get_char(i) {
                assert(text[i as int] != w@[i as int]);
                return false;
            }
            i = i + 1;
        }
        assert(text =~= w@);
        true
    }

    fn number(&mut self, tokens: &mut Vec<Token>)
        requires
            old(self).wf(),
            old(self).start + 1 == old(self).current,
            is_digit_char(old(self).chars@[old(self).start as int]),
        ensures
            old(self).stepped(*final(self), old(tokens)@, final(tokens)@),
    {
        self.consume_run(CharClass::Digit);
        // A fractional part needs a digit after the dot.
        if self.peek() == '.' && self.is_digit(self.peek_next()) {
            self.advance();
            self.consume_run(CharClass::Digit);
        }
        let text = self.lexeme();
        self.add_token_literal(tokens, TokenType::Number, Literal::NumberLiteral(text), self.line);
    }

    fn is_at_end(&self) -> (r: bool)
        ensures
            r == (self.current >= self.chars@.len()),
    {
        self.current >= self.chars.len()
    }

    /// Consumes the character at the cursor and returns it.
    fn advance(&mut self) -> (r: char)
        requires
            old(self).wf(),
            old(self).current < old(self).chars@.len(),
        ensures
            final(self).wf(),
            old(self).same_text(*final(self)),
            final(self).line == old(self).line,
            final(self).errors == old(self).errors,
            final(self).current == old(self).current + 1,
            r == old(self).chars@[old(self).current as int],
    {
        let c = self.chars[self.current];
        self.current = self.current + 1;
        c
    }

    /// The text of the lexeme under way.
    fn lexeme(&self) -> (r: String)
        requires
            self.wf(),
        ensures
            r@ == self.chars@.subrange(self.start as int, self.current as int),
    {
        self.source.as_str().substring_char(self.start, self.current).to_owned()
    }

    fn add_token_nill(&self, tokens: &mut Vec<Token>, kind: TokenType)
        requires
            self.wf(),
        ensures
            token_models(final(tokens)@) == token_models(old(tokens)@).push(
                TokenModel {
                    kind,
                    lexeme: self.chars@.subrange(self.start as int, self.current as int),
                    literal: Literal::Nil@,
                    line: self.line as nat,
                },
            ),
    {
        self.add_token_literal(tokens, kind, Literal::Nil, self.line)
    }

    /// Adds a token for the lexeme under way, found on `line`.
    fn add_token_literal(&self, tokens: &mut Vec<Token>, kind: TokenType, literal: Literal, line: u32)
        requires
            self.wf(),
        ensures
            token_models(final(tokens)@) == token_models(old(tokens)@).push(
                TokenModel {
                    kind,
                    lexeme: self.chars@.subrange(self.start as int, self.current as int),
                    literal: literal@,
                    line: line as nat,
                },
            ),
    {
        let ghost before = tokens@;
        let text = self.lexeme();
        tokens.push(Token::new(kind, text, literal, line));
        assert(token_models(tokens@) =~= token_models(before).push(tokens@.last()@));
    }

    fn string(&mut self, tokens: &mut Vec<Token>)
        requires
            old(self).wf(),
            old(self).start + 1 == old(self).current,
            old(self).chars@[old(self).start as int] == '"',
        ensures
            old(self).stepped(*final(self), old(tokens)@, final(tokens)@),
    {
        let ghost s = self.chars@;
        let ghost p = self.current;
        let opening_line = self.line;
        while self.peek() != '"' && !self.is_at_end()
            invariant
                self.wf(),
                old(self).same_text(*self),
                self.chars@ == s,
                self.errors == old(self).errors,
                p <= self.current,
                forall|m: int| p <= m < self.current ==> in_class(#[trigger] s[m], CharClass::NotQuote),
                self.line == opening_line + newlines(s.subrange(p as int, self.current as int)),
            decreases s.len() - self.current,
        {
            let ghost at = self.current;
            let c = self.advance();
            if c == '\n' {
                self.line = self.line + 1;
            }
            assert(s.subrange(p as int, self.current as int).drop_last() =~= s.subrange(
                p as int,
                at as int,
            ));
        }
        proof {
            lemma_run_end(s, p as nat, self.current as nat, CharClass::NotQuote);
        }
        if self.is_at_end() {
            let ghost errs = self.errors@;
            self.errors.push(error(self.line, "Unterminated string."));
            assert(report_models(self.errors@) =~= report_models(errs).push(self.errors@.last()@));
            return ;
        }
        // The closing quote.
        self.advance();
        let value = self.source.as_str().substring_char(self.start + 1, self.current - 1).to_owned();
        self.add_token_literal(tokens, TokenType::String, Literal::StringLiteral(value), opening_line);
    }

    /// Consumes the character at the cursor if it is `expected`.
    fn match_lexeme(&mut self, expected: char) -> (r: bool)
        requires
            old(self).wf(),
        ensures
            final(self).wf(),
            old(self).same_text(*final(self)),
            final(self).line == old(self).line,
            final(self).errors == old(self).errors,
            r == (old(self).current < old(self).chars@.len() && old(self).chars@[old(self).current as int] == expected),
            final(self).current == if r {
                old(self).current + 1
            } else {
                old(self).current as int
            },
    {
        if self.is_at_end() {
            return false;
        }
        if self.chars[self.current] != expected {
            return false;
        }
        self.current = self.current + 1;
        true
    }

    /// The character at the cursor, or `'\0'` at the end.
    fn peek(&self) -> (r: char)
        requires
            self.wf(),
        ensures
            r == char_at(self.chars@, self.current as int),
    {
        if self.is_at_end() {
            '\0'
        } else {
            self.chars[self.current]
        }
    }

    /// The character after the one at the cursor, or `'\0'` past the end.
    fn peek_next(&self) -> (r: char)
        requires
            self.wf(),
        ensures
            r == char_at(self.chars@, self.current + 1int),
    {
        if self.current + 1 >= self.chars.len() {
            '\0'
        } else {
            self.chars[self.current + 1]
        }
    }

    /// The reports of the lexical errors found so far.
    pub fn errors(&self) -> (r: &Vec<ErrorReport>)
        ensures
            report_models(r@) == self@.errors,
    {
        &self.errors
    }

    /// Whether any lexical error has been found so far.
    pub fn had_error(&self) -> (r: bool)
        ensures
            r == (self@.errors.len() > 0),
    {
        self.errors.len() > 0
    }
}

} // verus!
