use hnm::diag::DiagLevel;
use hnm::syntax::lex::Lexer;
use hnm::syntax::token::{SourceRange, TokenKind};

#[test]
fn test_lex_magic_symbol() {
    let source = "Hello привет English?Русский!";
    let mut lexer = Lexer::new(source);
    for _ in 0..3 {
        lexer.lex_keyword_or_magic_sym();
        lexer.skip_whitespace();
    }
    assert_eq!(lexer.tokens().len(), 3);

    let magic_symbols = ["Hello", "привет", "English?Русский!"];
    for n in 0..3 {
        match &lexer.tokens()[n].token_kind {
            TokenKind::Identifier(id) => {
                assert_eq!(id, magic_symbols[n])
            }
            _ => panic!("unexpected token kind"),
        }
    }
}

#[test]
fn test_lex_keywords() {
    let source =
        "magic mag магия i32 и32 И32 lang приговор letter характер Ja Nein Да да Нет нет";
    let mut lexer = Lexer::new(source);
    for _ in 0..16 {
        lexer.lex_keyword_or_magic_sym();
        lexer.skip_whitespace();
    }
    assert_eq!(lexer.tokens().len(), 16);

    let identifiers = [
        TokenKind::KwdMagic,
        TokenKind::KwdMagic,
        TokenKind::KwdMagic,
        TokenKind::KwdI32,
        TokenKind::KwdI32,
        TokenKind::KwdI32,
        TokenKind::KwdLang,
        TokenKind::KwdLang,
        TokenKind::KwdLetter,
        TokenKind::KwdLetter,
        TokenKind::KwdJa,
        TokenKind::KwdNein,
        TokenKind::KwdJa,
        TokenKind::KwdJa,
        TokenKind::KwdNein,
        TokenKind::KwdNein,
    ];
    for n in 0..16 {
        assert_eq!(lexer.tokens()[n].token_kind, identifiers[n]);
    }
}

#[test]
fn test_lex_number() {
    let source = "114 514 1919810";
    let mut lexer = Lexer::new(source);
    for _ in 0..3 {
        lexer.lex_number();
        lexer.skip_whitespace();
    }
    assert_eq!(lexer.tokens().len(), 3);

    let numbers = [114, 514, 1919810];
    for n in 0..3 {
        if let TokenKind::LitNumber(num) = lexer.tokens()[n].token_kind {
            assert_eq!(num, numbers[n]);
        } else {
            panic!("unexpected token kind");
        }
    }
}

#[test]
fn test_lex_char() {
    let source = "'a' 'b' 'c' '\\t' '\\n' '\\r' '\\0' '\\\\'";
    let mut lexer = Lexer::new(source);
    for _ in 0..8 {
        lexer.lex_char();
        lexer.skip_whitespace();
    }
    assert_eq!(lexer.tokens().len(), 8);

    let chars = "abc\t\n\r\0\\".chars().collect::<Vec<_>>();
    for n in 0..8 {
        if let TokenKind::LitChar(ch) = lexer.tokens()[n].token_kind {
            assert_eq!(ch, chars[n]);
        } else {
            panic!("unexpected token kind");
        }
    }
}

#[test]
fn test_lex_string() {
    let source = r#""alpha" "beta" "gamma\theta" "\n\0\r" ",\",""#;
    let mut lexer = Lexer::new(source);
    for _ in 0..5 {
        lexer.lex_string();
        lexer.skip_whitespace();
    }
    assert_eq!(lexer.tokens().len(), 5);

    let strings = ["alpha", "beta", "gamma\theta", "\n\0\r", ",\","];
    for n in 0..5 {
        if let TokenKind::LitString(str) = &lexer.tokens()[n].token_kind {
            assert_eq!(str, strings[n])
        } else {
            panic!("unexpected token kind");
        }
    }
}

fn lex_all(source: &str) -> (Vec<hnm::syntax::token::Token>, Vec<hnm::diag::Diagnostic>) {
    let mut lexer = Lexer::new(source);
    lexer.tokenize();
    lexer.lex()
}

#[test]
fn magic_kw() {
    for source in ["magic", "mag"] {
        let (tokens, diags) = lex_all(source);
        assert!(diags.is_empty());
        assert_eq!(tokens.len(), 1);
        assert_eq!(tokens[0].token_kind, TokenKind::KwdMagic);
        let width = source.chars().count() as u16;
        assert_eq!(tokens[0].source_range, SourceRange::new(1, 1, 1 + width));
    }
}

#[test]
fn sym() {
    for source in ["center", "foo"] {
        let (tokens, diags) = lex_all(source);
        assert!(diags.is_empty());
        assert_eq!(tokens.len(), 1);
        assert_eq!(tokens[0].token_kind, TokenKind::Identifier(source.to_string()));
        let width = source.chars().count() as u16;
        assert_eq!(tokens[0].source_range, SourceRange::new(1, 1, 1 + width));
    }
}

#[test]
fn unlisted_word_is_identifier() {
    let (tokens, diags) = lex_all("magics Magic logic");
    assert!(diags.is_empty());
    assert_eq!(tokens[0].token_kind, TokenKind::Identifier("magics".to_string()));
    assert_eq!(tokens[1].token_kind, TokenKind::Identifier("Magic".to_string()));
    assert_eq!(tokens[2].token_kind, TokenKind::KwdLogic);
}

#[test]
fn leading_zeros_number_spans_all_digits() {
    let (tokens, diags) = lex_all("0042");
    assert!(diags.is_empty());
    assert_eq!(tokens.len(), 1);
    assert_eq!(tokens[0].token_kind, TokenKind::LitNumber(42));
    assert_eq!(tokens[0].source_range, SourceRange::new(1, 1, 5));
}

#[test]
fn number_too_large_saturates() {
    let (tokens, diags) = lex_all("9223372036854775807 9223372036854775808 99999999999999999999");
    assert!(diags.is_empty());
    assert_eq!(tokens.len(), 3);
    for t in &tokens {
        assert_eq!(t.token_kind, TokenKind::LitNumber(i64::MAX));
    }
}

#[test]
fn number_stops_at_first_non_digit() {
    let (tokens, diags) = lex_all("12ab");
    assert!(diags.is_empty());
    assert_eq!(tokens.len(), 2);
    assert_eq!(tokens[0].token_kind, TokenKind::LitNumber(12));
    assert_eq!(tokens[1].token_kind, TokenKind::Identifier("ab".to_string()));
}

#[test]
fn char_escape_table() {
    let (tokens, diags) = lex_all(r"'\n' '\t' '\r' '\\' '\0' '\'' 'a'");
    assert!(diags.is_empty());
    let expected = ['\n', '\t', '\r', '\\', '\0', '\'', 'a'];
    assert_eq!(tokens.len(), expected.len());
    for (t, c) in tokens.iter().zip(expected.iter()) {
        assert_eq!(t.token_kind, TokenKind::LitChar(*c));
    }
    assert_eq!(tokens[0].source_range, SourceRange::new(1, 1, 5));
    assert_eq!(tokens[6].source_range, SourceRange::new(1, 31, 34));
}

#[test]
fn string_decodes_each_escape() {
    let (tokens, diags) = lex_all(r#""gamma\theta" "a\'b\"c""#);
    assert!(diags.is_empty());
    assert_eq!(tokens.len(), 2);
    assert_eq!(tokens[0].token_kind, TokenKind::LitString("gamma\theta".to_string()));
    assert_eq!(tokens[1].token_kind, TokenKind::LitString("a'b\"c".to_string()));
    assert_eq!(tokens[0].source_range, SourceRange::new(1, 1, 14));
}

#[test]
fn unclosed_char_literal_still_gives_token() {
    let (tokens, diags) = lex_all("'a");
    assert_eq!(tokens.len(), 1);
    assert_eq!(tokens[0].token_kind, TokenKind::LitChar('a'));
    assert_eq!(diags.len(), 1);
    assert_eq!(diags[0].level, DiagLevel::Error);
    assert_eq!(diags[0].info, "unclosed character literal");
    assert_eq!(diags[0].source_range, SourceRange::new(1, 1, 3));
    assert!(diags[0].fix_hint.is_none());
}

#[test]
fn unknown_escape_warns_and_keeps_char() {
    let (tokens, diags) = lex_all(r"'\q'");
    assert_eq!(tokens.len(), 1);
    assert_eq!(tokens[0].token_kind, TokenKind::LitChar('q'));
    assert_eq!(diags.len(), 1);
    assert_eq!(diags[0].level, DiagLevel::Warn);
    assert_eq!(diags[0].info, "unknown escape character: \\q");
    assert_eq!(diags[0].source_range, SourceRange::new(1, 3, 4));
}

#[test]
fn unfinished_escape_in_char_literal() {
    let (tokens, diags) = lex_all("'\\");
    assert_eq!(tokens.len(), 1);
    assert_eq!(tokens[0].token_kind, TokenKind::LitChar('\\'));
    assert_eq!(diags.len(), 2);
    assert_eq!(diags[0].level, DiagLevel::Error);
    assert_eq!(diags[0].info, "unfinished escape character");
    assert_eq!(diags[1].info, "unclosed character literal");
}

#[test]
fn unfinished_char_literal_at_end() {
    let (tokens, diags) = lex_all("'");
    assert_eq!(tokens.len(), 1);
    assert_eq!(tokens[0].token_kind, TokenKind::LitChar('\0'));
    assert_eq!(diags.len(), 2);
    assert_eq!(diags[0].info, "unfinished character literal");
    assert_eq!(diags[0].source_range, SourceRange::new(1, 2, 3));
    assert_eq!(diags[1].info, "unclosed character literal");
}

#[test]
fn unclosed_string_keeps_what_was_read() {
    let (tokens, diags) = lex_all("\"abc");
    assert_eq!(tokens.len(), 1);
    assert_eq!(tokens[0].token_kind, TokenKind::LitString("abc".to_string()));
    assert_eq!(diags.len(), 1);
    assert_eq!(diags[0].level, DiagLevel::Error);
    assert_eq!(diags[0].info, "unclosed string");
    assert_eq!(diags[0].source_range, SourceRange::new(1, 1, 5));
}

#[test]
fn unknown_escape_in_string() {
    let (tokens, diags) = lex_all(r#""a\qb""#);
    assert_eq!(tokens[0].token_kind, TokenKind::LitString("aqb".to_string()));
    assert_eq!(diags.len(), 1);
    assert_eq!(diags[0].level, DiagLevel::Warn);
    assert_eq!(diags[0].info, "unknown escape character: \\q");
    assert_eq!(diags[0].source_range, SourceRange::new(1, 4, 5));
}

#[test]
fn unexpected_character_is_reported_and_skipped() {
    let (tokens, diags) = lex_all("a ( b");
    assert_eq!(tokens.len(), 2);
    assert_eq!(diags.len(), 1);
    assert_eq!(diags[0].level, DiagLevel::Error);
    assert_eq!(diags[0].info, "unexpected character: (");
    assert_eq!(diags[0].source_range, SourceRange::new(1, 3, 4));
}

#[test]
fn line_and_column_after_newline() {
    let (tokens, diags) = lex_all("ab cd\n  ef");
    assert!(diags.is_empty());
    assert_eq!(tokens.len(), 3);
    assert_eq!(tokens[0].source_range, SourceRange::new(1, 1, 3));
    assert_eq!(tokens[1].source_range, SourceRange::new(1, 4, 6));
    assert_eq!(tokens[2].source_range, SourceRange::new(2, 3, 5));
    let (tokens, _) = lex_all("x\ny");
    assert_eq!(tokens[1].source_range, SourceRange::new(2, 1, 2));
}

#[test]
fn multiline_string_range_stays_on_first_line() {
    let (tokens, diags) = lex_all("\"a\nb\"");
    assert!(diags.is_empty());
    assert_eq!(tokens[0].token_kind, TokenKind::LitString("a\nb".to_string()));
    assert_eq!(tokens[0].source_range, SourceRange::new(1, 1, u16::MAX));
}

#[test]
fn whitespace_between_tokens_changes_nothing() {
    let (plain, plain_diags) = lex_all("a+1");
    let (spaced, spaced_diags) = lex_all("a \t\r\n +  \n 1");
    assert!(plain_diags.is_empty());
    assert!(spaced_diags.is_empty());
    assert_eq!(plain.len(), spaced.len());
    for (x, y) in plain.iter().zip(spaced.iter()) {
        assert_eq!(x.token_kind, y.token_kind);
    }

    let mut lexer = Lexer::new("   \n\t x");
    lexer.skip_whitespace();
    assert!(lexer.tokens().is_empty());
    assert!(lexer.diagnostics().is_empty());
}

#[test]
fn end_to_end_magic_declaration() {
    let (tokens, diags) = lex_all("magic qwq [ i: i32 ; j: lang ] {}: i32");
    assert!(diags.is_empty());
    let expected = [
        TokenKind::KwdMagic,
        TokenKind::Identifier("qwq".to_string()),
        TokenKind::SymLeftBracket,
        TokenKind::Identifier("i".to_string()),
        TokenKind::SymColon,
        TokenKind::KwdI32,
        TokenKind::SymSemiColon,
        TokenKind::Identifier("j".to_string()),
        TokenKind::SymColon,
        TokenKind::KwdLang,
        TokenKind::SymRightBracket,
        TokenKind::SymLeftBrace,
        TokenKind::SymRightBrace,
        TokenKind::SymColon,
        TokenKind::KwdI32,
    ];
    assert_eq!(tokens.len(), expected.len());
    for (t, k) in tokens.iter().zip(expected.iter()) {
        assert_eq!(&t.token_kind, k);
    }
}

#[test]
fn two_character_symbols_win() {
    let (tokens, diags) = lex_all("<- -> <= >= != < > - ! = , ; * / % & | ^ . ~ `");
    assert!(diags.is_empty());
    let expected = [
        TokenKind::SymLeftArrow,
        TokenKind::SymRightArrow,
        TokenKind::SymLeq,
        TokenKind::SymGeq,
        TokenKind::SymNeq,
        TokenKind::SymLt,
        TokenKind::SymGt,
        TokenKind::SymMinus,
        TokenKind::SymExclaim,
        TokenKind::SymEq,
        TokenKind::SymComma,
        TokenKind::SymSemiColon,
        TokenKind::SymAsterisk,
        TokenKind::SymSlash,
        TokenKind::SymPercent,
        TokenKind::SymAmp,
        TokenKind::SymPipe,
        TokenKind::SymUpArrow,
        TokenKind::SymDot,
        TokenKind::SymWavyLine,
        TokenKind::SymBackTick,
    ];
    assert_eq!(tokens.len(), expected.len());
    for (t, k) in tokens.iter().zip(expected.iter()) {
        assert_eq!(&t.token_kind, k);
    }
    assert_eq!(tokens[0].source_range, SourceRange::new(1, 1, 3));
}

#[test]
fn lex_drains_once() {
    let mut lexer = Lexer::new("a 'b");
    lexer.tokenize();
    let (tokens, diags) = lexer.lex();
    assert_eq!(tokens.len(), 2);
    assert_eq!(diags.len(), 1);
    let (tokens, diags) = lexer.lex();
    assert!(tokens.is_empty());
    assert!(diags.is_empty());
}

#[test]
fn cyrillic_letters() {
    assert!(hnm::syntax::lex::is_cyrillic('А'));
    assert!(hnm::syntax::lex::is_cyrillic('я'));
    assert!(hnm::syntax::lex::is_cyrillic('ё'));
    assert!(!hnm::syntax::lex::is_cyrillic('Ё'));
    assert!(!hnm::syntax::lex::is_cyrillic('a'));
}
