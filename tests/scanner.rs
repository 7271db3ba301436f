use lox::{error, Literal, Scanner, Token, TokenType};

fn scan(source: &str) -> (Vec<Token>, Scanner) {
    let mut scanner = Scanner::new(source.to_string());
    let tokens = scanner.scan_tokens();
    (tokens, scanner)
}

fn kinds(tokens: &[Token]) -> Vec<TokenType> {
    tokens.iter().map(|t| t.kind()).collect()
}

fn number_value(token: &Token) -> f64 {
    match token.literal() {
        Literal::NumberLiteral(text) => text.parse::<f64>().unwrap(),
        other => panic!("not a number literal: {:?}", other),
    }
}

#[test]
fn empty_source_yields_only_end_marker() {
    let (tokens, scanner) = scan("");
    assert_eq!(kinds(&tokens), vec![TokenType::Eof]);
    assert_eq!(tokens[0].lexeme(), "");
    assert_eq!(tokens[0].literal(), &Literal::Nil);
    assert_eq!(tokens[0].line(), 1);
    assert!(!scanner.had_error());
}

#[test]
fn blank_source_yields_only_end_marker() {
    let (tokens, scanner) = scan("  \t\r\n \n\t");
    assert_eq!(kinds(&tokens), vec![TokenType::Eof]);
    assert_eq!(tokens[0].line(), 3);
    assert!(scanner.errors().is_empty());
}

#[test]
fn punctuation_in_order() {
    let source = "(){},.-+;*";
    let (tokens, scanner) = scan(source);
    assert_eq!(
        kinds(&tokens),
        vec![
            TokenType::LeftParen,
            TokenType::RightParen,
            TokenType::LeftBrace,
            TokenType::RightBrace,
            TokenType::Comma,
            TokenType::Dot,
            TokenType::Minus,
            TokenType::Plus,
            TokenType::Semicolon,
            TokenType::Star,
            TokenType::Eof,
        ]
    );
    for (token, c) in tokens.iter().zip(source.chars()) {
        assert_eq!(token.lexeme(), c.to_string());
        assert_eq!(token.literal(), &Literal::Nil);
        assert_eq!(token.line(), 1);
    }
    assert!(!scanner.had_error());
}

#[test]
fn two_character_operators() {
    let cases = [
        ("!=", TokenType::BangEqual),
        ("==", TokenType::EqualEqual),
        ("<=", TokenType::LessEqual),
        (">=", TokenType::GreaterEqual),
    ];
    for (source, kind) in cases {
        let (tokens, _) = scan(source);
        assert_eq!(kinds(&tokens), vec![kind, TokenType::Eof]);
        assert_eq!(tokens[0].lexeme(), source);
    }
}

#[test]
fn one_character_operators() {
    let cases = [
        ("!", TokenType::Bang),
        ("=", TokenType::Equal),
        ("<", TokenType::Less),
        (">", TokenType::Greater),
    ];
    for (source, kind) in cases {
        let (tokens, _) = scan(source);
        assert_eq!(kinds(&tokens), vec![kind, TokenType::Eof]);
        assert_eq!(tokens[0].lexeme(), source);
    }
}

#[test]
fn operators_take_the_longest_match() {
    let (tokens, _) = scan("!==<>=");
    assert_eq!(
        kinds(&tokens),
        vec![TokenType::BangEqual, TokenType::Equal, TokenType::Less, TokenType::GreaterEqual, TokenType::Eof]
    );
}

#[test]
fn comment_is_skipped() {
    let (tokens, scanner) = scan("// comment\n123");
    assert_eq!(kinds(&tokens), vec![TokenType::Number, TokenType::Eof]);
    assert_eq!(tokens[0].lexeme(), "123");
    assert_eq!(tokens[0].line(), 2);
    assert!(!scanner.had_error());
}

#[test]
fn comment_runs_to_end_of_input() {
    let (tokens, _) = scan("1 // (){} \"x");
    assert_eq!(kinds(&tokens), vec![TokenType::Number, TokenType::Eof]);
    assert_eq!(tokens[1].line(), 1);
}

#[test]
fn lone_slash_is_a_token() {
    let (tokens, _) = scan("a / b");
    assert_eq!(
        kinds(&tokens),
        vec![TokenType::Identifier, TokenType::Slash, TokenType::Identifier, TokenType::Eof]
    );
}

#[test]
fn string_literal() {
    let (tokens, scanner) = scan("\"hello\"");
    assert_eq!(kinds(&tokens), vec![TokenType::String, TokenType::Eof]);
    assert_eq!(tokens[0].lexeme(), "\"hello\"");
    assert_eq!(tokens[0].literal(), &Literal::StringLiteral("hello".to_string()));
    assert!(!scanner.had_error());
}

#[test]
fn empty_string_literal() {
    let (tokens, _) = scan("\"\"");
    assert_eq!(tokens[0].literal(), &Literal::StringLiteral(String::new()));
}

#[test]
fn unterminated_string_is_reported() {
    let (tokens, scanner) = scan("\"unterminated");
    assert_eq!(kinds(&tokens), vec![TokenType::Eof]);
    assert!(scanner.had_error());
    let errors = scanner.errors();
    assert_eq!(errors.len(), 1);
    assert_eq!(errors[0].line, 1);
    assert_eq!(errors[0].message, "Unterminated string.");
    assert_eq!(errors[0].location, "");
}

#[test]
fn unterminated_string_reports_its_last_line() {
    let (tokens, scanner) = scan("\"a\nb\n");
    assert_eq!(kinds(&tokens), vec![TokenType::Eof]);
    assert_eq!(scanner.errors().len(), 1);
    assert_eq!(scanner.errors()[0].line, 3);
    assert_eq!(tokens[0].line(), 3);
}

#[test]
fn integer_number() {
    let (tokens, _) = scan("123");
    assert_eq!(kinds(&tokens), vec![TokenType::Number, TokenType::Eof]);
    assert_eq!(number_value(&tokens[0]), 123.0);
    assert_eq!(tokens[0].literal(), &Literal::NumberLiteral("123".to_string()));
}

#[test]
fn fractional_number() {
    let (tokens, _) = scan("123.45");
    assert_eq!(kinds(&tokens), vec![TokenType::Number, TokenType::Eof]);
    assert_eq!(tokens[0].lexeme(), "123.45");
    assert_eq!(number_value(&tokens[0]), 123.45);
}

#[test]
fn trailing_dot_is_not_part_of_number() {
    let (tokens, _) = scan("123.");
    assert_eq!(kinds(&tokens), vec![TokenType::Number, TokenType::Dot, TokenType::Eof]);
    assert_eq!(tokens[0].lexeme(), "123");
    assert_eq!(number_value(&tokens[0]), 123.0);
    assert_eq!(tokens[1].lexeme(), ".");
}

#[test]
fn number_then_method_call() {
    let (tokens, _) = scan("12.abs");
    assert_eq!(
        kinds(&tokens),
        vec![TokenType::Number, TokenType::Dot, TokenType::Identifier, TokenType::Eof]
    );
}

#[test]
fn keyword_matches_exactly() {
    let (tokens, _) = scan("fun");
    assert_eq!(kinds(&tokens), vec![TokenType::Fun, TokenType::Eof]);
    assert_eq!(tokens[0].literal(), &Literal::Nil);
    let (tokens, _) = scan("function");
    assert_eq!(kinds(&tokens), vec![TokenType::Identifier, TokenType::Eof]);
    assert_eq!(tokens[0].lexeme(), "function");
}

#[test]
fn every_keyword() {
    let (tokens, _) = scan("and class else false for fun if nil or print return super this true var while");
    assert_eq!(
        kinds(&tokens),
        vec![
            TokenType::And,
            TokenType::Class,
            TokenType::Else,
            TokenType::False,
            TokenType::For,
            TokenType::Fun,
            TokenType::If,
            TokenType::Nil,
            TokenType::Or,
            TokenType::Print,
            TokenType::Return,
            TokenType::Super,
            TokenType::This,
            TokenType::True,
            TokenType::Var,
            TokenType::While,
            TokenType::Eof,
        ]
    );
}

#[test]
fn identifiers_with_underscores_and_digits() {
    let (tokens, _) = scan("_a1 orchid x_2");
    assert_eq!(
        kinds(&tokens),
        vec![TokenType::Identifier, TokenType::Identifier, TokenType::Identifier, TokenType::Eof]
    );
    assert_eq!(tokens[0].lexeme(), "_a1");
    assert_eq!(tokens[1].lexeme(), "orchid");
    assert_eq!(tokens[2].lexeme(), "x_2");
}

#[test]
fn fresh_scans_are_equal() {
    let source = "var x = \"a\nb\"; // c\nprint x + 1.5 @";
    let (first, first_scanner) = scan(source);
    let (second, second_scanner) = scan(source);
    assert_eq!(first, second);
    assert_eq!(first_scanner.errors(), second_scanner.errors());
}

#[test]
fn newlines_in_string_advance_following_line() {
    let (tokens, _) = scan("\"a\nb\nc\" x");
    assert_eq!(kinds(&tokens), vec![TokenType::String, TokenType::Identifier, TokenType::Eof]);
    assert_eq!(tokens[0].line(), 1);
    assert_eq!(tokens[0].literal(), &Literal::StringLiteral("a\nb\nc".to_string()));
    assert_eq!(tokens[1].line(), 3);
}

#[test]
fn lines_are_counted() {
    let (tokens, _) = scan("a\nb\n\nc");
    let lines: Vec<u32> = tokens.iter().map(|t| t.line()).collect();
    assert_eq!(lines, vec![1, 2, 4, 4]);
}

#[test]
fn unexpected_character_is_reported_and_scanning_goes_on() {
    let (tokens, scanner) = scan("a\n@ b");
    assert_eq!(kinds(&tokens), vec![TokenType::Identifier, TokenType::Identifier, TokenType::Eof]);
    let errors = scanner.errors();
    assert_eq!(errors.len(), 1);
    assert_eq!(errors[0].line, 2);
    assert_eq!(errors[0].message, "Unexpected character.");
}

#[test]
fn non_ascii_letter_is_unexpected() {
    let (tokens, scanner) = scan("é1");
    assert_eq!(kinds(&tokens), vec![TokenType::Number, TokenType::Eof]);
    assert_eq!(tokens[0].lexeme(), "1");
    assert_eq!(scanner.errors().len(), 1);
}

#[test]
fn error_report_fields() {
    let report = error(7, "Unexpected character.");
    assert_eq!(report.line, 7);
    assert_eq!(report.location, "");
    assert_eq!(report.message, "Unexpected character.");
}

#[test]
fn token_rendering() {
    let (tokens, _) = scan("( 12.5 \"hi\" if");
    let shown: Vec<String> = tokens.iter().map(|t| t.to_string()).collect();
    assert_eq!(
        shown,
        vec![
            "LEFT_PAREN ( nil".to_string(),
            "NUMBER 12.5 12.5".to_string(),
            "STRING \"hi\" hi".to_string(),
            "IF if nil".to_string(),
            "EOF  nil".to_string(),
        ]
    );
}

#[test]
fn token_new_keeps_its_fields() {
    let token = Token::new(TokenType::Identifier, "abc".to_string(), Literal::Nil, 9);
    assert_eq!(token.kind(), TokenType::Identifier);
    assert_eq!(token.lexeme(), "abc");
    assert_eq!(token.literal(), &Literal::Nil);
    assert_eq!(token.line(), 9);
    assert_eq!(TokenType::GreaterEqual.name(), "GREATER_EQUAL");
    assert_eq!(Literal::NumberLiteral("4".to_string()).text(), "4");
}
