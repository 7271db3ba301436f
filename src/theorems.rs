//! Facts about whole scans, proved from the scan model.
use vstd::prelude::*;
use crate::model::{
    lemma_run_end, newlines, option_seq, scan, scan_from, scan_step, CharClass,
};
use crate::token::{LiteralModel, TokenModel};
use crate::token_type::TokenType;

verus! {

/// Whitespace: space, tab, carriage return or newline.
pub open spec fn is_blank(c: char) -> bool {
    c == ' ' || c == '\r' || c == '\t' || c == '\n'
}

proof fn lemma_blank_from(s: Seq<char>, pos: nat, line: nat)
    requires
        pos <= s.len(),
        forall|i: int| 0 <= i < s.len() ==> is_blank(#[trigger] s[i]),
    ensures
        scan_from(s, pos, line).tokens.len() == 1,
        scan_from(s, pos, line).tokens[0].kind == TokenType::Eof,
        scan_from(s, pos, line).errors.len() == 0,
    decreases s.len() - pos,
{
    if pos < s.len() {
        let st = scan_step(s, pos, line);
        assert(is_blank(s[pos as int]));
        lemma_blank_from(s, pos + 1, st.line);
        let rest = scan_from(s, pos + 1, st.line);
        assert(option_seq(st.token) + rest.tokens =~= rest.tokens);
        assert(option_seq(st.error) + rest.errors =~= rest.errors);
    }
}

/// A text of spaces, tabs, carriage returns and newlines alone scans to the
/// end marker and nothing else, with no error.
pub proof fn lemma_blank_text_scans_to_end_marker(s: Seq<char>)
    requires
        forall|i: int| 0 <= i < s.len() ==> is_blank(#[trigger] s[i]),
    ensures
        scan(s).tokens.len() == 1,
        scan(s).tokens[0].kind == TokenType::Eof,
        scan(s).errors.len() == 0,
{
    lemma_blank_from(s, 0, 1);
}

/// Scanning is a function of the text: two scans of equal texts, each from
/// a fresh scanner, give equal token sequences and equal error reports.
pub proof fn lemma_scan_deterministic(a: Seq<char>, b: Seq<char>)
    requires
        a == b,
    ensures
        scan(a).tokens == scan(b).tokens,
        scan(a).errors == scan(b).errors,
{
}

/// A string literal from the quote at `open` to the quote at `close`: its
/// token carries the line of the opening quote, and the scan goes on after
/// the closing quote with the line counter advanced once for each newline
/// inside the literal.
pub proof fn lemma_string_spans_lines(s: Seq<char>, open: nat, close: nat, line: nat)
    requires
        open < close < s.len(),
        s[open as int] == '"',
        s[close as int] == '"',
        forall|m: int| open < m < close ==> s[m] != '"',
    ensures
        scan_from(s, open, line).tokens == seq![
            TokenModel {
                kind: TokenType::String,
                lexeme: s.subrange(open as int, close + 1int),
                literal: LiteralModel::Text(s.subrange(open + 1int, close as int)),
                line,
            },
        ] + scan_from(
            s,
            close + 1,
            line + newlines(s.subrange(open + 1int, close as int)),
        ).tokens,
{
    lemma_run_end(s, open + 1, close, CharClass::NotQuote);
}

} // verus!
