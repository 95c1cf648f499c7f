//! Token kinds, the keyword table, source ranges and tokens.

use vstd::prelude::*;
use vstd::string::StrSliceExecFns;

verus! {

/// The lexical categories of HNM.
#[derive(PartialEq, Eq, Debug)]
pub enum TokenKind {
    /// `magic` or `mag`
    KwdMagic,
    /// `logic`
    KwdLogic,
    /// `i32`
    KwdI32,
    /// `lang`
    KwdLang,
    /// `letter`
    KwdLetter,
    /// `Ja`
    KwdJa,
    /// `Nein`
    KwdNein,
    /// Identifier
    Identifier(String),
    /// Numeric literal (integral)
    LitNumber(i64),
    /// String literal
    LitString(String),
    /// Character literal
    LitChar(char),
    /// Comma `,`
    SymComma,
    /// Colon `:`
    SymColon,
    /// Semicolon `;`
    SymSemiColon,
    /// Left arrow `<-`
    SymLeftArrow,
    /// Right arrow `->`
    SymRightArrow,
    /// Minus `-`
    SymMinus,
    /// Plus `+`
    SymPlus,
    /// Asterisk `*`
    SymAsterisk,
    /// Slash `/`
    SymSlash,
    /// Percentage `%`
    SymPercent,
    /// Less than `<`
    SymLt,
    /// Greater than `>`
    SymGt,
    /// Equal to `=`
    SymEq,
    /// Less than or equal to `<=`
    SymLeq,
    /// Greater than or equal to `>=`
    SymGeq,
    /// Not equal to `!=`
    SymNeq,
    /// Amp `&`
    SymAmp,
    /// Pipe `|`
    SymPipe,
    /// Up arrow `^`
    SymUpArrow,
    /// Exclaim `!`
    SymExclaim,
    /// Left bracket `[`
    SymLeftBracket,
    /// Right bracket `]`
    SymRightBracket,
    /// Left brace `{`
    SymLeftBrace,
    /// Right brace `}`
    SymRightBrace,
    /// Dot `.`
    SymDot,
    /// Wavy line `~`
    SymWavyLine,
    /// Backtick
    SymBackTick,
}

/// What a token kind denotes: the kinds that carry text are seen through
/// their characters, all others stand for themselves.
pub enum Lexeme {
    Fixed(TokenKind),
    Identifier(Seq<char>),
    Number(i64),
    Str(Seq<char>),
    Char(char),
}

impl View for TokenKind {
    type V = Lexeme;

    open spec fn view(&self) -> Lexeme {
        match self {
            TokenKind::Identifier(s) => Lexeme::Identifier(s@),
            TokenKind::LitNumber(n) => Lexeme::Number(*n),
            TokenKind::LitString(s) => Lexeme::Str(s@),
            TokenKind::LitChar(c) => Lexeme::Char(*c),
            _ => Lexeme::Fixed(*self),
        }
    }
}

/// The keyword table: every accepted spelling, Latin and Cyrillic, of each keyword.
pub open spec fn keyword_of(w: Seq<char>) -> Option<TokenKind> {
    if w == seq!['m', 'a', 'g'] || w == seq!['m', 'a', 'g', 'i', 'c']
        || w == seq!['м', 'а', 'г', 'и', 'я'] {
        Some(TokenKind::KwdMagic)
    } else if w == seq!['l', 'o', 'g', 'i', 'c'] {
        Some(TokenKind::KwdLogic)
    } else if w == seq!['i', '3', '2'] || w == seq!['и', '3', '2'] || w == seq!['И', '3', '2'] {
        Some(TokenKind::KwdI32)
    } else if w == seq!['l', 'a', 'n', 'g'] || w == seq!['п', 'р', 'и', 'г', 'о', 'в', 'о', 'р'] {
        Some(TokenKind::KwdLang)
    } else if w == seq!['l', 'e', 't', 't', 'e', 'r']
        || w == seq!['х', 'а', 'р', 'а', 'к', 'т', 'е', 'р'] {
        Some(TokenKind::KwdLetter)
    } else if w == seq!['J', 'a'] || w == seq!['Д', 'а'] || w == seq!['д', 'а']
        || w == seq!['х', 'о', 'р', 'о', 'ш', 'о'] {
        Some(TokenKind::KwdJa)
    } else if w == seq!['N', 'e', 'i', 'n'] || w == seq!['Н', 'е', 'т'] || w == seq!['н', 'е', 'т'] {
        Some(TokenKind::KwdNein)
    } else {
        None
    }
}

/// No spelling in the keyword table is longer than this many characters.
pub const LONGEST_KEYWORD: usize = 8;

/// What a scanned word stands for: its keyword, or else an identifier of exactly that text.
pub open spec fn word_lexeme(w: Seq<char>) -> Lexeme {
    match keyword_of(w) {
        Some(k) => Lexeme::Fixed(k),
        None => Lexeme::Identifier(w),
    }
}

fn spells(cs: &Vec<char>, w: &[char]) -> (r: bool)
    ensures
        r == (cs@ == w@),
{
    if cs.len() != w.len() {
        return false;
    }
    let mut i: usize = 0;
    while i < cs.len()
        invariant
            cs@.len() == w@.len(),
            i <= cs@.len(),
            cs@.subrange(0, i as int) == w@.subrange(0, i as int),
        decreases cs@.len() - i,
    {
        if cs[i] != w[i] {
            return false;
        }
        assert(cs@.subrange(0, i + 1) == cs@.subrange(0, i as int).push(cs@[i as int]));
        assert(w@.subrange(0, i + 1) == w@.subrange(0, i as int).push(w@[i as int]));
        i = i + 1;
    }
    assert(cs@ == cs@.subrange(0, cs@.len() as int));
    assert(w@ == w@.subrange(0, w@.len() as int));
    true
}

fn keyword_in(cs: &Vec<char>) -> (r: Option<TokenKind>)
    ensures
        r == keyword_of(cs@),
{
    if spells(cs, &['m', 'a', 'g']) || spells(cs, &['m', 'a', 'g', 'i', 'c']) || spells(
        cs,
        &['м', 'а', 'г', 'и', 'я'],
    ) {
        Some(TokenKind::KwdMagic)
    } else if spells(cs, &['l', 'o', 'g', 'i', 'c']) {
        Some(TokenKind::KwdLogic)
    } else if spells(cs, &['i', '3', '2']) || spells(cs, &['и', '3', '2']) || spells(
        cs,
        &['И', '3', '2'],
    ) {
        Some(TokenKind::KwdI32)
    } else if spells(cs, &['l', 'a', 'n', 'g']) || spells(
        cs,
        &['п', 'р', 'и', 'г', 'о', 'в', 'о', 'р'],
    ) {
        Some(TokenKind::KwdLang)
    } else if spells(cs, &['l', 'e', 't', 't', 'e', 'r']) || spells(
        cs,
        &['х', 'а', 'р', 'а', 'к', 'т', 'е', 'р'],
    ) {
        Some(TokenKind::KwdLetter)
    } else if spells(cs, &['J', 'a']) || spells(cs, &['Д', 'а']) || spells(cs, &['д', 'а'])
        || spells(cs, &['х', 'о', 'р', 'о', 'ш', 'о']) {
        Some(TokenKind::KwdJa)
    } else if spells(cs, &['N', 'e', 'i', 'n']) || spells(cs, &['Н', 'е', 'т']) || spells(
        cs,
        &['н', 'е', 'т'],
    ) {
        Some(TokenKind::KwdNein)
    } else {
        None
    }
}

/// Looks a scanned word up in the keyword table; matching is exact, character by character.
pub fn lookup_keyword(maybe_keyword: &str) -> (r: Option<TokenKind>)
    ensures
        r == keyword_of(maybe_keyword@),
{
    let n = maybe_keyword.unicode_len();
    if n > LONGEST_KEYWORD {
        return None;
    }
    let mut cs: Vec<char> = Vec::new();
    let mut i: usize = 0;
    while i < n
        invariant
            n == maybe_keyword@.len(),
            i <= n,
            cs@ == maybe_keyword@.subrange(0, i as int),
        decreases n - i,
    {
        cs.push(maybe_keyword.get_char(i));
        i = i + 1;
    }
    assert(cs@ == maybe_keyword@);
    keyword_in(&cs)
}

/// Each keyword answers to all its spellings, Latin and Cyrillic alike.
pub proof fn lemma_keyword_aliases()
    ensures
        keyword_of(seq!['m', 'a', 'g']) == Some(TokenKind::KwdMagic),
        keyword_of(seq!['m', 'a', 'g', 'i', 'c']) == Some(TokenKind::KwdMagic),
        keyword_of(seq!['м', 'а', 'г', 'и', 'я']) == Some(TokenKind::KwdMagic),
        keyword_of(seq!['l', 'o', 'g', 'i', 'c']) == Some(TokenKind::KwdLogic),
        keyword_of(seq!['i', '3', '2']) == Some(TokenKind::KwdI32),
        keyword_of(seq!['и', '3', '2']) == Some(TokenKind::KwdI32),
        keyword_of(seq!['И', '3', '2']) == Some(TokenKind::KwdI32),
        keyword_of(seq!['l', 'a', 'n', 'g']) == Some(TokenKind::KwdLang),
        keyword_of(seq!['п', 'р', 'и', 'г', 'о', 'в', 'о', 'р']) == Some(TokenKind::KwdLang),
        keyword_of(seq!['l', 'e', 't', 't', 'e', 'r']) == Some(TokenKind::KwdLetter),
        keyword_of(seq!['х', 'а', 'р', 'а', 'к', 'т', 'е', 'р']) == Some(TokenKind::KwdLetter),
        keyword_of(seq!['J', 'a']) == Some(TokenKind::KwdJa),
        keyword_of(seq!['Д', 'а']) == Some(TokenKind::KwdJa),
        keyword_of(seq!['д', 'а']) == Some(TokenKind::KwdJa),
        keyword_of(seq!['х', 'о', 'р', 'о', 'ш', 'о']) == Some(TokenKind::KwdJa),
        keyword_of(seq!['N', 'e', 'i', 'n']) == Some(TokenKind::KwdNein),
        keyword_of(seq!['Н', 'е', 'т']) == Some(TokenKind::KwdNein),
        keyword_of(seq!['н', 'е', 'т']) == Some(TokenKind::KwdNein),
{
}

/// A word that is no spelling of a keyword stands for an identifier of exactly its text.
pub proof fn lemma_unlisted_word_is_identifier(w: Seq<char>)
    requires
        keyword_of(w) is None,
    ensures
        word_lexeme(w) == Lexeme::Identifier(w),
{
}

/// A span of columns on one line of the source. Columns count characters from 1;
/// the end column is the one just after the span.
#[derive(Copy, Clone, PartialEq, Eq, Structural, PartialOrd, Ord, Debug)]
pub struct SourceRange {
    pub line: u32,
    pub start_column: u16,
    pub end_column: u16,
}

impl SourceRange {
    pub open spec fn wf(&self) -> bool {
        self.line >= 1 && self.start_column <= self.end_column
    }

    pub fn new(line: u32, start_column: u16, end_column: u16) -> (r: Self)
        requires
            line >= 1,
            start_column <= end_column,
        ensures
            r == (SourceRange { line, start_column, end_column }),
            r.wf(),
    {
        SourceRange { line, start_column, end_column }
    }
}

/// A classified piece of the source with the place it was read from.
#[derive(Debug)]
pub struct Token {
    pub token_kind: TokenKind,
    pub source_range: SourceRange,
}

impl View for Token {
    type V = (Lexeme, SourceRange);

    open spec fn view(&self) -> (Lexeme, SourceRange) {
        (self.token_kind@, self.source_range)
    }
}

impl Token {
    pub fn new(token_kind: TokenKind, source_range: SourceRange) -> (r: Self)
        ensures
            r.token_kind == token_kind,
            r.source_range == source_range,
    {
        Token { token_kind, source_range }
    }
}

} // verus!
