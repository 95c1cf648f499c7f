use hnm::syntax::token::{lookup_keyword, SourceRange, Token, TokenKind};

#[test]
fn keyword_aliases_look_up_alike() {
    for w in ["mag", "magic", "магия"] {
        assert_eq!(lookup_keyword(w), Some(TokenKind::KwdMagic));
    }
    for w in ["i32", "и32", "И32"] {
        assert_eq!(lookup_keyword(w), Some(TokenKind::KwdI32));
    }
    for w in ["lang", "приговор"] {
        assert_eq!(lookup_keyword(w), Some(TokenKind::KwdLang));
    }
    for w in ["letter", "характер"] {
        assert_eq!(lookup_keyword(w), Some(TokenKind::KwdLetter));
    }
    for w in ["Ja", "Да", "да", "хорошо"] {
        assert_eq!(lookup_keyword(w), Some(TokenKind::KwdJa));
    }
    for w in ["Nein", "Нет", "нет"] {
        assert_eq!(lookup_keyword(w), Some(TokenKind::KwdNein));
    }
    assert_eq!(lookup_keyword("logic"), Some(TokenKind::KwdLogic));
}

#[test]
fn lookup_is_exact() {
    for w in ["", "Mag", "MAGIC", "ja", "i33", "приговоры", "magic!", "I32"] {
        assert_eq!(lookup_keyword(w), None);
    }
}

#[test]
fn source_ranges_order_by_line_then_columns() {
    let a = SourceRange::new(1, 5, 9);
    let b = SourceRange::new(2, 1, 2);
    let c = SourceRange::new(1, 5, 10);
    let d = SourceRange::new(1, 6, 6);
    assert!(a < b);
    assert!(a < c);
    assert!(c < d);
    assert_eq!(a, SourceRange::new(1, 5, 9));
    assert_eq!(a.line, 1);
    assert_eq!(a.start_column, 5);
    assert_eq!(a.end_column, 9);
}

#[test]
fn token_keeps_kind_and_range() {
    let t = Token::new(TokenKind::LitNumber(7), SourceRange::new(3, 2, 3));
    assert_eq!(t.token_kind, TokenKind::LitNumber(7));
    assert_eq!(t.source_range, SourceRange::new(3, 2, 3));
}
