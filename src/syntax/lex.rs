//! The lexer. What it produces is stated over the characters of the source: each
//! scanner pushes the token that a spec function of the text names, with the range
//! that `span` gives, and the reports that malformed input calls for; `tokenize`
//! produces what `scan` gives for the rest of the text. Lines and columns count from 1
//! and stop at the largest `u32` and `u16`.

use vstd::prelude::*;
use vstd::string::StringExecFns;
use crate::diag::{DiagLevel, Diagnostic, DiagnosticView, plain_report};
use crate::strcached::{StrCached, char_at};
use crate::syntax::token::{Lexeme, SourceRange, Token, TokenKind, lookup_keyword, word_lexeme};

verus! {

/// The line on which the character at index `i` of `s` stands; lines count from 1,
/// and the count stops at the largest `u32`.
pub open spec fn line_at(s: Seq<char>, i: int) -> int
    decreases i,
{
    if i <= 0 || i > s.len() {
        1
    } else if s[i - 1] == '\n' {
        if line_at(s, i - 1) < u32::MAX {
            line_at(s, i - 1) + 1
        } else {
            u32::MAX as int
        }
    } else {
        line_at(s, i - 1)
    }
}

/// The column of the character at index `i` of `s`; columns count from 1 on each line,
/// and the count stops at the largest `u16`.
pub open spec fn column_at(s: Seq<char>, i: int) -> int
    decreases i,
{
    if i <= 0 || i > s.len() {
        1
    } else if s[i - 1] == '\n' {
        1
    } else if column_at(s, i - 1) < u16::MAX {
        column_at(s, i - 1) + 1
    } else {
        u16::MAX as int
    }
}

/// The one-column range at index `i` of `s`.
pub open spec fn point(s: Seq<char>, i: int) -> SourceRange {
    SourceRange {
        line: line_at(s, i) as u32,
        start_column: column_at(s, i) as u16,
        end_column: if column_at(s, i) < u16::MAX {
            (column_at(s, i) + 1) as u16
        } else {
            u16::MAX
        },
    }
}

/// The range of the text from index `p` up to `q`, on the line where it starts; a text
/// that ends on a later line is taken to the end of its first line.
pub open spec fn span(s: Seq<char>, p: int, q: int) -> SourceRange {
    SourceRange {
        line: line_at(s, p) as u32,
        start_column: column_at(s, p) as u16,
        end_column: if line_at(s, q) == line_at(s, p) && column_at(s, q) >= column_at(s, p) {
            column_at(s, q) as u16
        } else {
            u16::MAX
        },
    }
}

/// Whitespace: space, tab, carriage return and line feed.
pub open spec fn is_space(c: char) -> bool {
    c == ' ' || c == '\t' || c == '\r' || c == '\n'
}

/// Where the run of whitespace that starts at index `i` of `s` ends.
pub open spec fn space_end(s: Seq<char>, i: int) -> int
    decreases s.len() - i,
{
    if 0 <= i < s.len() && is_space(s[i]) {
        space_end(s, i + 1)
    } else {
        i
    }
}

/// Whether `char::is_alphanumeric` holds of `c`, as Unicode's tables decide.
pub uninterp spec fn alphanumeric(c: char) -> bool;

/// Relies on char::is_alphanumeric, whose answer depends on the character alone.
#[verifier::external_body]
fn is_alphanumeric(c: char) -> (r: bool)
    ensures
        r == alphanumeric(c),
{
    c.is_alphanumeric()
}

/// Relies on String::push: the character is appended at the end.
#[verifier::external_body]
fn push_char(s: &mut String, c: char)
    ensures
        final(s)@ == old(s)@.push(c),
{
    s.push(c)
}

/// The Russian letters: `А` to `я`, and `ё`.
pub open spec fn cyrillic(c: char) -> bool {
    ('А' <= c && c <= 'я') || c == 'ё'
}

pub fn is_cyrillic(ch: char) -> (r: bool)
    ensures
        r == cyrillic(ch),
{
    ('А' <= ch && ch <= 'я') || ch == 'ё'
}

/// A character that may begin a keyword or a magic symbol.
pub open spec fn is_word_start(c: char) -> bool {
    alphanumeric(c) || cyrillic(c)
}

/// A character that may stand in a keyword or a magic symbol.
pub open spec fn is_word_char(c: char) -> bool {
    alphanumeric(c) || cyrillic(c) || c == '!' || c == '?'
}

/// Where the word that starts at index `i` of `s` ends.
pub open spec fn word_end(s: Seq<char>, i: int) -> int
    decreases s.len() - i,
{
    if 0 <= i < s.len() && is_word_char(s[i]) {
        word_end(s, i + 1)
    } else {
        i
    }
}

/// The token for the word that starts at index `p` of `s`.
pub open spec fn word_token(s: Seq<char>, p: int) -> (Lexeme, SourceRange) {
    (word_lexeme(s.subrange(p, word_end(s, p))), span(s, p, word_end(s, p)))
}

pub open spec fn is_digit(c: char) -> bool {
    '0' <= c && c <= '9'
}

pub open spec fn digit_value(c: char) -> int {
    (c as u32) - ('0' as u32)
}

/// Where the run of decimal digits that starts at index `i` of `s` ends.
pub open spec fn digits_end(s: Seq<char>, i: int) -> int
    decreases s.len() - i,
{
    if 0 <= i < s.len() && is_digit(s[i]) {
        digits_end(s, i + 1)
    } else {
        i
    }
}

/// The number that a run of decimal digits spells.
pub open spec fn decimal(ds: Seq<char>) -> int
    decreases ds.len(),
{
    if ds.len() == 0 {
        0
    } else {
        decimal(ds.drop_last()) * 10 + digit_value(ds.last())
    }
}

/// A number literal too large for an `i64` is read as the largest `i64`.
pub open spec fn clamp_i64(v: int) -> i64 {
    if v > i64::MAX {
        i64::MAX
    } else {
        v as i64
    }
}

/// The token for the number literal that starts at index `p` of `s`.
pub open spec fn number_token(s: Seq<char>, p: int) -> (Lexeme, SourceRange) {
    let q = digits_end(s, p);
    (Lexeme::Number(clamp_i64(decimal(s.subrange(p, q)))), span(s, p, q))
}

/// What the escape `\e` stands for in a character literal.
pub open spec fn char_escape(e: char) -> Option<char> {
    if e == 'n' {
        Some('\n')
    } else if e == 't' {
        Some('\t')
    } else if e == 'r' {
        Some('\r')
    } else if e == '\'' {
        Some('\'')
    } else if e == '\\' {
        Some('\\')
    } else if e == '0' {
        Some('\0')
    } else {
        None
    }
}

/// What the escape `\e` stands for in a string literal: as in a character literal,
/// and `\"` stands for a double quote.
pub open spec fn string_escape(e: char) -> Option<char> {
    if e == '"' {
        Some('"')
    } else {
        char_escape(e)
    }
}

/// The warning for an escape `\e` that stands for nothing.
pub open spec fn unknown_escape(e: char, r: SourceRange) -> DiagnosticView {
    plain_report(DiagLevel::Warn, "unknown escape character: \\"@.push(e), r)
}

/// The character literal whose opening quote stands at index `p` of `s`: the character
/// it stands for, where it ends, and what is reported on it.
pub open spec fn char_literal(s: Seq<char>, p: int) -> (char, int, Seq<DiagnosticView>) {
    let i = p + 1;
    let body: (char, int, Seq<DiagnosticView>) = if i < s.len() && s[i] == '\\' {
        if i + 1 < s.len() {
            match char_escape(s[i + 1]) {
                Some(d) => (d, i + 2, seq![]),
                None => (s[i + 1], i + 2, seq![unknown_escape(s[i + 1], point(s, i + 1))]),
            }
        } else {
            (
                '\\',
                i + 1,
                seq![plain_report(DiagLevel::Error, "unfinished escape character"@, point(s, i + 1))],
            )
        }
    } else if i < s.len() {
        (s[i], i + 1, seq![])
    } else {
        ('\0', i, seq![plain_report(DiagLevel::Error, "unfinished character literal"@, point(s, i))])
    };
    let j = body.1;
    if j < s.len() && s[j] == '\'' {
        (body.0, j + 1, body.2)
    } else {
        (
            body.0,
            j,
            body.2.push(plain_report(DiagLevel::Error, "unclosed character literal"@, span(s, p, j))),
        )
    }
}

/// The token for the character literal whose opening quote stands at index `p` of `s`.
pub open spec fn char_token(s: Seq<char>, p: int) -> (Lexeme, SourceRange) {
    (Lexeme::Char(char_literal(s, p).0), span(s, p, char_literal(s, p).1))
}

/// The body of a string literal from index `i` of `s` on: the characters it stands for,
/// where the literal ends, whether a closing quote ends it, and what is reported on it.
pub open spec fn string_body(s: Seq<char>, i: int) -> (Seq<char>, int, bool, Seq<DiagnosticView>)
    decreases s.len() - i,
{
    if i < 0 || i >= s.len() {
        (seq![], i, false, seq![])
    } else if s[i] == '"' {
        (seq![], i + 1, true, seq![])
    } else if s[i] == '\\' {
        if i + 1 < s.len() {
            let e = s[i + 1];
            let rest = string_body(s, i + 2);
            match string_escape(e) {
                Some(d) => (seq![d] + rest.0, rest.1, rest.2, rest.3),
                None => (
                    seq![e] + rest.0,
                    rest.1,
                    rest.2,
                    seq![unknown_escape(e, point(s, i + 1))] + rest.3,
                ),
            }
        } else {
            let rest = string_body(s, i + 1);
            (
                seq!['\\'] + rest.0,
                rest.1,
                rest.2,
                seq![plain_report(DiagLevel::Error, "unfinished escape character"@, point(s, i + 1))]
                    + rest.3,
            )
        }
    } else {
        let rest = string_body(s, i + 1);
        (seq![s[i]] + rest.0, rest.1, rest.2, rest.3)
    }
}

/// Where the string literal whose opening quote stands at index `p` of `s` ends.
pub open spec fn string_end(s: Seq<char>, p: int) -> int {
    string_body(s, p + 1).1
}

/// What is reported on the string literal whose opening quote stands at index `p` of `s`.
pub open spec fn string_reports(s: Seq<char>, p: int) -> Seq<DiagnosticView> {
    let b = string_body(s, p + 1);
    if b.2 {
        b.3
    } else {
        b.3.push(plain_report(DiagLevel::Error, "unclosed string"@, span(s, p, b.1)))
    }
}

/// The token for the string literal whose opening quote stands at index `p` of `s`.
pub open spec fn string_token(s: Seq<char>, p: int) -> (Lexeme, SourceRange) {
    (Lexeme::Str(string_body(s, p + 1).0), span(s, p, string_end(s, p)))
}

/// The punctuation made of the one character `c`, where `c` begins no longer symbol.
pub open spec fn single_symbol(c: char) -> Option<TokenKind> {
    if c == ',' {
        Some(TokenKind::SymComma)
    } else if c == ':' {
        Some(TokenKind::SymColon)
    } else if c == ';' {
        Some(TokenKind::SymSemiColon)
    } else if c == '+' {
        Some(TokenKind::SymPlus)
    } else if c == '*' {
        Some(TokenKind::SymAsterisk)
    } else if c == '/' {
        Some(TokenKind::SymSlash)
    } else if c == '%' {
        Some(TokenKind::SymPercent)
    } else if c == '=' {
        Some(TokenKind::SymEq)
    } else if c == '&' {
        Some(TokenKind::SymAmp)
    } else if c == '|' {
        Some(TokenKind::SymPipe)
    } else if c == '^' {
        Some(TokenKind::SymUpArrow)
    } else if c == '[' {
        Some(TokenKind::SymLeftBracket)
    } else if c == ']' {
        Some(TokenKind::SymRightBracket)
    } else if c == '{' {
        Some(TokenKind::SymLeftBrace)
    } else if c == '}' {
        Some(TokenKind::SymRightBrace)
    } else if c == '.' {
        Some(TokenKind::SymDot)
    } else if c == '~' {
        Some(TokenKind::SymWavyLine)
    } else if c == '`' {
        Some(TokenKind::SymBackTick)
    } else {
        None
    }
}

/// The punctuation symbol at index `i` of `s`, with how many characters it takes; the
/// longer symbol wins.
pub open spec fn symbol_at(s: Seq<char>, i: int) -> Option<(TokenKind, int)> {
    if !(0 <= i < s.len()) {
        None
    } else {
        let c = s[i];
        let n = char_at(s, i + 1);
        if c == '<' {
            if n == Some('-') {
                Some((TokenKind::SymLeftArrow, 2))
            } else if n == Some('=') {
                Some((TokenKind::SymLeq, 2))
            } else {
                Some((TokenKind::SymLt, 1))
            }
        } else if c == '-' {
            if n == Some('>') {
                Some((TokenKind::SymRightArrow, 2))
            } else {
                Some((TokenKind::SymMinus, 1))
            }
        } else if c == '>' {
            if n == Some('=') {
                Some((TokenKind::SymGeq, 2))
            } else {
                Some((TokenKind::SymGt, 1))
            }
        } else if c == '!' {
            if n == Some('=') {
                Some((TokenKind::SymNeq, 2))
            } else {
                Some((TokenKind::SymExclaim, 1))
            }
        } else {
            match single_symbol(c) {
                Some(k) => Some((k, 1)),
                None => None,
            }
        }
    }
}

/// The token for the punctuation symbol at index `p` of `s`.
pub open spec fn symbol_token(s: Seq<char>, p: int) -> (Lexeme, SourceRange) {
    let k = symbol_at(s, p)->Some_0;
    (Lexeme::Fixed(k.0), span(s, p, p + k.1))
}

fn escaped_char(e: char) -> (r: Option<char>)
    ensures
        r == char_escape(e),
{
    if e == 'n' {
        Some('\n')
    } else if e == 't' {
        Some('\t')
    } else if e == 'r' {
        Some('\r')
    } else if e == '\'' {
        Some('\'')
    } else if e == '\\' {
        Some('\\')
    } else if e == '0' {
        Some('\0')
    } else {
        None
    }
}

fn escaped_in_string(e: char) -> (r: Option<char>)
    ensures
        r == string_escape(e),
{
    if e == '"' {
        Some('"')
    } else {
        escaped_char(e)
    }
}

fn unknown_escape_message(e: char) -> (r: String)
    ensures
        r@ == "unknown escape character: \\"@.push(e),
{
    let mut m = String::from_str("unknown escape character: \\");
    push_char(&mut m, e);
    m
}

fn single_symbol_kind(c: char) -> (r: Option<TokenKind>)
    ensures
        r == single_symbol(c),
{
    if c == ',' {
        Some(TokenKind::SymComma)
    } else if c == ':' {
        Some(TokenKind::SymColon)
    } else if c == ';' {
        Some(TokenKind::SymSemiColon)
    } else if c == '+' {
        Some(TokenKind::SymPlus)
    } else if c == '*' {
        Some(TokenKind::SymAsterisk)
    } else if c == '/' {
        Some(TokenKind::SymSlash)
    } else if c == '%' {
        Some(TokenKind::SymPercent)
    } else if c == '=' {
        Some(TokenKind::SymEq)
    } else if c == '&' {
        Some(TokenKind::SymAmp)
    } else if c == '|' {
        Some(TokenKind::SymPipe)
    } else if c == '^' {
        Some(TokenKind::SymUpArrow)
    } else if c == '[' {
        Some(TokenKind::SymLeftBracket)
    } else if c == ']' {
        Some(TokenKind::SymRightBracket)
    } else if c == '{' {
        Some(TokenKind::SymLeftBrace)
    } else if c == '}' {
        Some(TokenKind::SymRightBrace)
    } else if c == '.' {
        Some(TokenKind::SymDot)
    } else if c == '~' {
        Some(TokenKind::SymWavyLine)
    } else if c == '`' {
        Some(TokenKind::SymBackTick)
    } else {
        None
    }
}

/// The error for a character that begins no token.
pub open spec fn unexpected(c: char, r: SourceRange) -> DiagnosticView {
    plain_report(DiagLevel::Error, "unexpected character: "@.push(c), r)
}

/// Scanning one token at index `j` of `s`, where no whitespace stands: the tokens and
/// reports it gives, and where it ends. A character that begins no token is reported
/// and skipped.
pub open spec fn step(s: Seq<char>, j: int) -> (
    Seq<(Lexeme, SourceRange)>,
    Seq<DiagnosticView>,
    int,
) {
    let c = s[j];
    if is_digit(c) {
        (seq![number_token(s, j)], seq![], digits_end(s, j))
    } else if is_word_start(c) {
        (seq![word_token(s, j)], seq![], word_end(s, j))
    } else if c == '\'' {
        (seq![char_token(s, j)], char_literal(s, j).2, char_literal(s, j).1)
    } else if c == '"' {
        (seq![string_token(s, j)], string_reports(s, j), string_end(s, j))
    } else if symbol_at(s, j) is Some {
        (seq![symbol_token(s, j)], seq![], j + symbol_at(s, j)->Some_0.1)
    } else {
        (seq![], seq![unexpected(c, point(s, j))], j + 1)
    }
}

/// The tokens and reports that scanning `s` from index `i` to its end gives.
pub open spec fn scan(s: Seq<char>, i: int) -> (Seq<(Lexeme, SourceRange)>, Seq<DiagnosticView>)
    decreases s.len() - i,
{
    let j = space_end(s, i);
    if i < 0 || j < i || j >= s.len() {
        (seq![], seq![])
    } else {
        let st = step(s, j);
        if st.2 <= j || st.2 > s.len() {
            (st.0, st.1)
        } else {
            let rest = scan(s, st.2);
            (st.0 + rest.0, st.1 + rest.1)
        }
    }
}

pub proof fn lemma_space_end(s: Seq<char>, i: int)
    requires
        0 <= i <= s.len(),
    ensures
        i <= space_end(s, i) <= s.len(),
        space_end(s, space_end(s, i)) == space_end(s, i),
    decreases s.len() - i,
{
    if i < s.len() && is_space(s[i]) {
        lemma_space_end(s, i + 1);
    }
}

proof fn lemma_digits_end(s: Seq<char>, i: int)
    requires
        0 <= i <= s.len(),
    ensures
        i <= digits_end(s, i) <= s.len(),
    decreases s.len() - i,
{
    if i < s.len() && is_digit(s[i]) {
        lemma_digits_end(s, i + 1);
    }
}

proof fn lemma_word_end(s: Seq<char>, i: int)
    requires
        0 <= i <= s.len(),
    ensures
        i <= word_end(s, i) <= s.len(),
    decreases s.len() - i,
{
    if i < s.len() && is_word_char(s[i]) {
        lemma_word_end(s, i + 1);
    }
}

proof fn lemma_string_end(s: Seq<char>, i: int)
    requires
        0 <= i <= s.len(),
    ensures
        i <= string_body(s, i).1 <= s.len(),
    decreases s.len() - i,
{
    if i < s.len() && s[i] != '"' {
        if s[i] == '\\' && i + 1 < s.len() {
            lemma_string_end(s, i + 2);
        } else {
            lemma_string_end(s, i + 1);
        }
    }
}

/// A line feed moves the position to column 1 of the next line; any other character
/// keeps the line and moves one column on.
pub proof fn lemma_line_break(s: Seq<char>, k: int)
    requires
        0 <= k < s.len(),
    ensures
        s[k] == '\n' ==> column_at(s, k + 1) == 1,
        s[k] == '\n' && line_at(s, k) < u32::MAX ==> line_at(s, k + 1) == line_at(s, k) + 1,
        s[k] != '\n' ==> line_at(s, k + 1) == line_at(s, k),
        s[k] != '\n' && column_at(s, k) < u16::MAX ==> column_at(s, k + 1) == column_at(s, k)
            + 1,
{
}

/// Along text without a line feed the line stays the same and the column moves on by
/// one per character, as long as it stays below the largest `u16`; so a token read there
/// spans exactly its characters on its first line.
pub proof fn lemma_columns_on_line(s: Seq<char>, p: int, q: int)
    requires
        0 <= p <= q <= s.len(),
        forall|k: int| p <= k < q ==> s[k] != '\n',
        column_at(s, p) + (q - p) <= u16::MAX,
    ensures
        line_at(s, q) == line_at(s, p),
        column_at(s, q) == column_at(s, p) + (q - p),
        span(s, p, q) == (SourceRange {
            line: line_at(s, p) as u32,
            start_column: column_at(s, p) as u16,
            end_column: (column_at(s, p) + (q - p)) as u16,
        }),
    decreases q - p,
{
    if q > p {
        lemma_columns_on_line(s, p, q - 1);
    }
}

/// Whitespace before the next token changes neither the tokens nor the reports.
pub proof fn lemma_leading_whitespace(s: Seq<char>, i: int)
    requires
        0 <= i <= s.len(),
    ensures
        scan(s, i) == scan(s, space_end(s, i)),
{
    lemma_space_end(s, i);
    lemma_space_end(s, space_end(s, i));
}

/// Whether `b` can stand between the quotes of a string literal with nothing to report:
/// no bare double quote, and every backslash begins an escape of the table.
pub open spec fn well_escaped(b: Seq<char>) -> bool
    decreases b.len(),
{
    if b.len() == 0 {
        true
    } else if b[0] == '"' {
        false
    } else if b[0] == '\\' {
        b.len() >= 2 && string_escape(b[1]) is Some && well_escaped(b.subrange(2, b.len() as int))
    } else {
        well_escaped(b.subrange(1, b.len() as int))
    }
}

/// The text `b` with each escape replaced by the one character it stands for.
pub open spec fn decoded(b: Seq<char>) -> Seq<char>
    decreases b.len(),
{
    if b.len() == 0 {
        seq![]
    } else if b[0] == '\\' && b.len() >= 2 {
        seq![string_escape(b[1])->Some_0] + decoded(b.subrange(2, b.len() as int))
    } else {
        seq![b[0]] + decoded(b.subrange(1, b.len() as int))
    }
}

/// A well-escaped string body followed by a double quote decodes to the body with each
/// escape replaced by its character; the quote closes the literal and nothing is reported.
pub proof fn lemma_escaped_string(s: Seq<char>, i: int, q: int)
    requires
        0 <= i <= q < s.len(),
        s[q] == '"',
        well_escaped(s.subrange(i, q)),
    ensures
        string_body(s, i) == (
            decoded(s.subrange(i, q)),
            q + 1,
            true,
            Seq::<DiagnosticView>::empty(),
        ),
    decreases q - i,
{
    let b = s.subrange(i, q);
    if i == q {
        assert(b =~= seq![]);
        assert(Seq::<DiagnosticView>::empty() =~= seq![]);
    } else if s[i] == '\\' {
        assert(b[0] == s[i] && b[1] == s[i + 1]);
        assert(b.subrange(2, b.len() as int) =~= s.subrange(i + 2, q));
        lemma_escaped_string(s, i + 2, q);
        assert(Seq::<DiagnosticView>::empty() =~= seq![]);
    } else {
        assert(b[0] == s[i]);
        assert(b.subrange(1, b.len() as int) =~= s.subrange(i + 1, q));
        lemma_escaped_string(s, i + 1, q);
        assert(Seq::<DiagnosticView>::empty() =~= seq![]);
    }
}

/// Leading zeros leave the value of a run of digits unchanged.
pub proof fn lemma_leading_zeros(z: Seq<char>, ds: Seq<char>)
    requires
        forall|k: int| 0 <= k < z.len() ==> z[k] == '0',
    ensures
        decimal(z + ds) == decimal(ds),
    decreases ds.len(),
{
    if ds.len() == 0 {
        assert(z + ds =~= z);
        lemma_zeros(z);
    } else {
        assert((z + ds).drop_last() =~= z + ds.drop_last());
        lemma_leading_zeros(z, ds.drop_last());
    }
}

proof fn lemma_zeros(z: Seq<char>)
    requires
        forall|k: int| 0 <= k < z.len() ==> z[k] == '0',
    ensures
        decimal(z) == 0,
    decreases z.len(),
{
    if z.len() > 0 {
        lemma_zeros(z.drop_last());
    }
}

fn unexpected_message(c: char) -> (r: String)
    ensures
        r@ == "unexpected character: "@.push(c),
{
    let mut m = String::from_str("unexpected character: ");
    push_char(&mut m, c);
    m
}

/// Scans HNM source text into tokens and diagnostics.
pub struct Lexer {
    intern: StrCached,
    token_stream: Vec<Token>,
    diags: Vec<Diagnostic>,
    line: u32,
    column: u16,
}

impl Lexer {
    /// The whole source text.
    pub closed spec fn input(&self) -> Seq<char> {
        self.intern.text()
    }

    /// How many characters of the source have been consumed.
    pub closed spec fn offset(&self) -> int {
        self.intern.offset()
    }

    /// The tokens produced and not yet taken by `lex`.
    pub closed spec fn emitted(&self) -> Seq<(Lexeme, SourceRange)> {
        self.token_stream@.map_values(|t: Token| t@)
    }

    /// The diagnostics produced and not yet taken by `lex`.
    pub closed spec fn reported(&self) -> Seq<DiagnosticView> {
        self.diags@.map_values(|d: Diagnostic| d@)
    }

    pub closed spec fn wf(&self) -> bool {
        &&& self.intern.wf()
        &&& self.line == line_at(self.input(), self.offset())
        &&& self.column == column_at(self.input(), self.offset())
        &&& self.line >= 1
        &&& self.column >= 1
    }

    /// The character under the cursor.
    pub open spec fn current(&self) -> Option<char> {
        char_at(self.input(), self.offset())
    }

    /// A well-formed lexer's cursor stands within its source.
    pub proof fn lemma_cursor_bounds(&self)
        requires
            self.wf(),
        ensures
            0 <= self.offset() <= self.input().len(),
    {
    }

    pub fn new(source: &str) -> (r: Self)
        ensures
            r.wf(),
            r.input() == source@,
            r.offset() == 0,
            r.emitted() == Seq::<(Lexeme, SourceRange)>::empty(),
            r.reported() == Seq::<DiagnosticView>::empty(),
    {
        let r = Lexer {
            intern: StrCached::new(source),
            token_stream: Vec::new(),
            diags: Vec::new(),
            line: 1,
            column: 1,
        };
        assert(r.emitted() =~= Seq::<(Lexeme, SourceRange)>::empty());
        assert(r.reported() =~= Seq::<DiagnosticView>::empty());
        r
    }

    /// Consumes the character under the cursor, keeping line and column up to date.
    fn next_char(&mut self) -> (r: Option<char>)
        requires
            old(self).wf(),
        ensures
            final(self).wf(),
            r == old(self).current(),
            final(self).input() == old(self).input(),
            final(self).offset() == if r is Some {
                old(self).offset() + 1
            } else {
                old(self).offset()
            },
            final(self).token_stream == old(self).token_stream,
            final(self).diags == old(self).diags,
    {
        let c = self.intern.cur_char();
        if let Some(ch) = c {
            self.intern.next_char();
            if ch == '\n' {
                if self.line < u32::MAX {
                    self.line = self.line + 1;
                }
                self.column = 1;
            } else if self.column < u16::MAX {
                self.column = self.column + 1;
            }
        }
        c
    }

    fn peek_char(&mut self) -> (r: Option<char>)
        requires
            old(self).wf(),
        ensures
            *final(self) == *old(self),
            r == old(self).current(),
    {
        self.intern.cur_char()
    }

    fn cur_char_pos(&self) -> (r: SourceRange)
        requires
            self.wf(),
        ensures
            r == point(self.input(), self.offset()),
            r.wf(),
    {
        let end = if self.column < u16::MAX {
            self.column + 1
        } else {
            self.column
        };
        SourceRange::new(self.line, self.column, end)
    }

    /// Skips spaces, tabs, carriage returns and line feeds; never reports anything.
    pub fn skip_whitespace(&mut self)
        requires
            old(self).wf(),
        ensures
            final(self).wf(),
            final(self).input() == old(self).input(),
            final(self).offset() == space_end(old(self).input(), old(self).offset()),
            final(self).emitted() == old(self).emitted(),
            final(self).reported() == old(self).reported(),
    {
        loop
            invariant
                self.wf(),
                self.input() == old(self).input(),
                space_end(self.input(), self.offset()) == space_end(
                    old(self).input(),
                    old(self).offset(),
                ),
                self.token_stream == old(self).token_stream,
                self.diags == old(self).diags,
            ensures
                self.offset() == space_end(self.input(), self.offset()),
            decreases self.input().len() - self.offset(),
        {
            match self.peek_char() {
                Some(ch) if ch == ' ' || ch == '\t' || ch == '\r' || ch == '\n' => {
                    self.next_char();
                },
                _ => {
                    break;
                },
            }
        }
    }

    /// The range from where the cursor stood at `p`, on line `start_line` and column
    /// `start_column`, up to the cursor.
    fn span_from(&self, Ghost(p): Ghost<int>, start_line: u32, start_column: u16) -> (r:
        SourceRange)
        requires
            self.wf(),
            0 <= p <= self.offset(),
            start_line == line_at(self.input(), p),
            start_column == column_at(self.input(), p),
            start_line >= 1,
        ensures
            r == span(self.input(), p, self.offset()),
            r.wf(),
    {
        if self.line == start_line && self.column >= start_column {
            SourceRange::new(start_line, start_column, self.column)
        } else {
            SourceRange::new(start_line, start_column, u16::MAX)
        }
    }

    fn push_token(&mut self, t: Token)
        requires
            old(self).wf(),
        ensures
            final(self).wf(),
            final(self).input() == old(self).input(),
            final(self).offset() == old(self).offset(),
            final(self).emitted() == old(self).emitted().push(t@),
            final(self).diags == old(self).diags,
    {
        self.token_stream.push(t);
        assert(self.emitted() =~= old(self).emitted().push(t@));
    }

    /// Scans a keyword or a magic symbol: letters, digits and Russian letters, with `!`
    /// and `?` allowed among them.
    pub fn lex_keyword_or_magic_sym(&mut self)
        requires
            old(self).wf(),
            old(self).current() matches Some(c) && is_word_start(c),
        ensures
            final(self).wf(),
            final(self).input() == old(self).input(),
            final(self).offset() == word_end(old(self).input(), old(self).offset()),
            final(self).emitted() == old(self).emitted().push(
                word_token(old(self).input(), old(self).offset()),
            ),
            final(self).reported() == old(self).reported(),
    {
        let ghost p = self.offset();
        let start_line = self.line;
        let start_column = self.column;
        let mut s = String::new();
        loop
            invariant
                self.wf(),
                self.input() == old(self).input(),
                0 <= p <= self.offset(),
                word_end(self.input(), self.offset()) == word_end(self.input(), p),
                s@ == self.input().subrange(p, self.offset()),
                self.token_stream == old(self).token_stream,
                self.diags == old(self).diags,
            ensures
                self.offset() == word_end(self.input(), self.offset()),
            decreases self.input().len() - self.offset(),
        {
            match self.peek_char() {
                Some(ch) => {
                    if is_alphanumeric(ch) || is_cyrillic(ch) || ch == '!' || ch == '?' {
                        self.next_char();
                        push_char(&mut s, ch);
                        assert(s@ =~= self.input().subrange(p, self.offset()));
                    } else {
                        break;
                    }
                },
                None => {
                    break;
                },
            }
        }
        let kind = match lookup_keyword(s.as_str()) {
            Some(k) => k,
            None => TokenKind::Identifier(s),
        };
        let range = self.span_from(Ghost(p), start_line, start_column);
        self.push_token(Token::new(kind, range));
    }

    /// Scans a decimal number literal; one too large for an `i64` is read as the largest
    /// `i64`.
    pub fn lex_number(&mut self)
        requires
            old(self).wf(),
            old(self).current() matches Some(c) && is_digit(c),
        ensures
            final(self).wf(),
            final(self).input() == old(self).input(),
            final(self).offset() == digits_end(old(self).input(), old(self).offset()),
            final(self).emitted() == old(self).emitted().push(
                number_token(old(self).input(), old(self).offset()),
            ),
            final(self).reported() == old(self).reported(),
    {
        let ghost p = self.offset();
        let start_line = self.line;
        let start_column = self.column;
        let mut num: i64 = 0;
        proof {
            assert(self.input().subrange(p, p) =~= Seq::<char>::empty());
        }
        loop
            invariant
                self.wf(),
                self.input() == old(self).input(),
                0 <= p <= self.offset(),
                digits_end(self.input(), self.offset()) == digits_end(self.input(), p),
                decimal(self.input().subrange(p, self.offset())) >= 0,
                num == clamp_i64(decimal(self.input().subrange(p, self.offset()))),
                self.token_stream == old(self).token_stream,
                self.diags == old(self).diags,
            ensures
                self.offset() == digits_end(self.input(), self.offset()),
            decreases self.input().len() - self.offset(),
        {
            match self.peek_char() {
                Some(ch) => {
                    if '0' <= ch && ch <= '9' {
                        let ghost before = self.input().subrange(p, self.offset());
                        let ghost v = decimal(before);
                        self.next_char();
                        let d = ((ch as u32) - ('0' as u32)) as i64;
                        let ghost after = self.input().subrange(p, self.offset());
                        assert(after.drop_last() =~= before);
                        assert(decimal(after) == v * 10 + d);
                        if num > (i64::MAX - d) / 10 {
                            assert(v * 10 + d > i64::MAX) by (nonlinear_arith)
                                requires
                                    num == clamp_i64(v),
                                    v >= 0,
                                    0 <= d <= 9,
                                    num > (i64::MAX - d) / 10,
                            ;
                            num = i64::MAX;
                        } else {
                            assert(v * 10 + d <= i64::MAX) by (nonlinear_arith)
                                requires
                                    num == clamp_i64(v),
                                    v >= 0,
                                    0 <= d <= 9,
                                    num <= (i64::MAX - d) / 10,
                            ;
                            num = num * 10 + d;
                        }
                    } else {
                        break;
                    }
                },
                None => {
                    break;
                },
            }
        }
        let range = self.span_from(Ghost(p), start_line, start_column);
        self.push_token(Token::new(TokenKind::LitNumber(num), range));
    }

    fn push_diag(&mut self, d: Diagnostic)
        requires
            old(self).wf(),
        ensures
            final(self).wf(),
            final(self).input() == old(self).input(),
            final(self).offset() == old(self).offset(),
            final(self).reported() == old(self).reported().push(d@),
            final(self).token_stream == old(self).token_stream,
    {
        self.diags.push(d);
        assert(self.reported() =~= old(self).reported().push(d@));
    }

    /// Scans a character literal. A malformed one is reported and still gives a token.
    pub fn lex_char(&mut self)
        requires
            old(self).wf(),
            old(self).current() == Some('\''),
        ensures
            final(self).wf(),
            final(self).input() == old(self).input(),
            final(self).offset() == char_literal(old(self).input(), old(self).offset()).1,
            final(self).emitted() == old(self).emitted().push(
                char_token(old(self).input(), old(self).offset()),
            ),
            final(self).reported() == old(self).reported() + char_literal(
                old(self).input(),
                old(self).offset(),
            ).2,
    {
        let ghost p = self.offset();
        let ghost s = self.input();
        let start_line = self.line;
        let start_column = self.column;
        self.next_char();
        let ch = match self.peek_char() {
            Some(c) => {
                if c == '\\' {
                    self.next_char();
                    match self.peek_char() {
                        Some(e) => match escaped_char(e) {
                            Some(d) => d,
                            None => {
                                let r = self.cur_char_pos();
                                self.push_diag(
                                    Diagnostic::new(DiagLevel::Warn, unknown_escape_message(e), r),
                                );
                                e
                            },
                        },
                        None => {
                            let r = self.cur_char_pos();
                            self.push_diag(
                                Diagnostic::new(
                                    DiagLevel::Error,
                                    String::from_str("unfinished escape character"),
                                    r,
                                ),
                            );
                            '\\'
                        },
                    }
                } else {
                    c
                }
            },
            None => {
                let r = self.cur_char_pos();
                self.push_diag(
                    Diagnostic::new(
                        DiagLevel::Error,
                        String::from_str("unfinished character literal"),
                        r,
                    ),
                );
                '\0'
            },
        };
        self.next_char();
        let ghost body_reports = self.reported().subrange(
            old(self).reported().len() as int,
            self.reported().len() as int,
        );
        assert(self.reported() =~= old(self).reported() + body_reports);
        match self.peek_char() {
            Some(c) if c == '\'' => {
                self.next_char();
            },
            _ => {
                let r = self.span_from(Ghost(p), start_line, start_column);
                self.push_diag(
                    Diagnostic::new(
                        DiagLevel::Error,
                        String::from_str("unclosed character literal"),
                        r,
                    ),
                );
            },
        }
        assert(self.reported() =~= old(self).reported() + char_literal(s, p).2);
        let range = self.span_from(Ghost(p), start_line, start_column);
        self.push_token(Token::new(TokenKind::LitChar(ch), range));
    }

    /// Scans a string literal. An unclosed one is reported and still gives a token with
    /// the characters read.
    pub fn lex_string(&mut self)
        requires
            old(self).wf(),
            old(self).current() == Some('"'),
        ensures
            final(self).wf(),
            final(self).input() == old(self).input(),
            final(self).offset() == string_end(old(self).input(), old(self).offset()),
            final(self).emitted() == old(self).emitted().push(
                string_token(old(self).input(), old(self).offset()),
            ),
            final(self).reported() == old(self).reported() + string_reports(
                old(self).input(),
                old(self).offset(),
            ),
    {
        let ghost p = self.offset();
        let ghost s = self.input();
        let start_line = self.line;
        let start_column = self.column;
        self.next_char();
        let mut acc = String::new();
        let mut closed = false;
        assert(old(self).reported() + string_body(s, p + 1).3 =~= self.reported() + string_body(
            s,
            p + 1,
        ).3);
        loop
            invariant_except_break
                !closed,
                string_body(s, p + 1).0 == acc@ + string_body(s, self.offset()).0,
                string_body(s, p + 1).1 == string_body(s, self.offset()).1,
                string_body(s, p + 1).2 == string_body(s, self.offset()).2,
                old(self).reported() + string_body(s, p + 1).3 == self.reported() + string_body(
                    s,
                    self.offset(),
                ).3,
            invariant
                self.wf(),
                self.input() == s,
                p + 1 <= self.offset(),
                self.token_stream == old(self).token_stream,
            ensures
                string_body(s, p + 1).0 == acc@,
                string_body(s, p + 1).1 == self.offset(),
                string_body(s, p + 1).2 == closed,
                old(self).reported() + string_body(s, p + 1).3 == self.reported(),
            decreases s.len() - self.offset(),
        {
            let ghost i = self.offset();
            let ghost acc0 = acc@;
            let ghost rep0 = self.reported();
            match self.peek_char() {
                None => {
                    assert(acc@ + string_body(s, i).0 =~= acc@);
                    assert(self.reported() + string_body(s, i).3 =~= self.reported());
                    break;
                },
                Some(ch) => {
                    if ch == '"' {
                        self.next_char();
                        closed = true;
                        assert(acc@ + string_body(s, i).0 =~= acc@);
                        assert(self.reported() + string_body(s, i).3 =~= self.reported());
                        break;
                    }
                    let this_char = if ch == '\\' {
                        self.next_char();
                        match self.peek_char() {
                            Some(e) => match escaped_in_string(e) {
                                Some(d) => d,
                                None => {
                                    let r = self.cur_char_pos();
                                    self.push_diag(
                                        Diagnostic::new(
                                            DiagLevel::Warn,
                                            unknown_escape_message(e),
                                            r,
                                        ),
                                    );
                                    e
                                },
                            },
                            None => {
                                let r = self.cur_char_pos();
                                self.push_diag(
                                    Diagnostic::new(
                                        DiagLevel::Error,
                                        String::from_str("unfinished escape character"),
                                        r,
                                    ),
                                );
                                '\\'
                            },
                        }
                    } else {
                        ch
                    };
                    push_char(&mut acc, this_char);
                    self.next_char();
                    proof {
                        let rest = string_body(s, self.offset());
                        let here = string_body(s, i);
                        let reps = self.reported().subrange(rep0.len() as int, self.reported().len() as int);
                        assert(self.reported() =~= rep0 + reps);
                        assert(here.0 == seq![this_char] + rest.0);
                        assert(here.3 == reps + rest.3);
                        assert(acc0 + here.0 =~= acc@ + rest.0);
                        assert(rep0 + here.3 =~= self.reported() + rest.3);
                    }
                },
            }
        }
        if !closed {
            let r = self.span_from(Ghost(p), start_line, start_column);
            self.push_diag(Diagnostic::new(DiagLevel::Error, String::from_str("unclosed string"), r));
        }
        assert(self.reported() =~= old(self).reported() + string_reports(s, p));
        let range = self.span_from(Ghost(p), start_line, start_column);
        self.push_token(Token::new(TokenKind::LitString(acc), range));
    }

    /// Scans a punctuation symbol, taking the longer symbol where two begin alike.
    pub fn lex_symbol(&mut self)
        requires
            old(self).wf(),
            symbol_at(old(self).input(), old(self).offset()) is Some,
        ensures
            final(self).wf(),
            final(self).input() == old(self).input(),
            final(self).offset() == old(self).offset() + symbol_at(
                old(self).input(),
                old(self).offset(),
            )->Some_0.1,
            final(self).emitted() == old(self).emitted().push(
                symbol_token(old(self).input(), old(self).offset()),
            ),
            final(self).reported() == old(self).reported(),
    {
        let ghost p = self.offset();
        let start_line = self.line;
        let start_column = self.column;
        let c = match self.peek_char() {
            Some(c) => c,
            None => {
                return;
            },
        };
        let n = self.intern.peek_char();
        let (kind, two) = if c == '<' {
            if n == Some('-') {
                (TokenKind::SymLeftArrow, true)
            } else if n == Some('=') {
                (TokenKind::SymLeq, true)
            } else {
                (TokenKind::SymLt, false)
            }
        } else if c == '-' {
            if n == Some('>') {
                (TokenKind::SymRightArrow, true)
            } else {
                (TokenKind::SymMinus, false)
            }
        } else if c == '>' {
            if n == Some('=') {
                (TokenKind::SymGeq, true)
            } else {
                (TokenKind::SymGt, false)
            }
        } else if c == '!' {
            if n == Some('=') {
                (TokenKind::SymNeq, true)
            } else {
                (TokenKind::SymExclaim, false)
            }
        } else {
            match single_symbol_kind(c) {
                Some(k) => (k, false),
                None => {
                    return;
                },
            }
        };
        self.next_char();
        if two {
            self.next_char();
        }
        let range = self.span_from(Ghost(p), start_line, start_column);
        self.push_token(Token::new(kind, range));
    }

    fn at_symbol(&mut self) -> (r: bool)
        requires
            old(self).wf(),
        ensures
            *final(self) == *old(self),
            r == symbol_at(old(self).input(), old(self).offset()) is Some,
    {
        match self.peek_char() {
            Some(c) => c == '<' || c == '-' || c == '>' || c == '!' || match single_symbol_kind(c) {
                Some(_) => true,
                None => false,
            },
            None => false,
        }
    }

    /// Reports the character under the cursor as one that begins no token, and skips it.
    fn skip_unexpected(&mut self, c: char)
        requires
            old(self).wf(),
            old(self).current() == Some(c),
        ensures
            final(self).wf(),
            final(self).input() == old(self).input(),
            final(self).offset() == old(self).offset() + 1,
            final(self).emitted() == old(self).emitted(),
            final(self).reported() == old(self).reported().push(
                unexpected(c, point(old(self).input(), old(self).offset())),
            ),
    {
        let r = self.cur_char_pos();
        self.push_diag(Diagnostic::new(DiagLevel::Error, unexpected_message(c), r));
        self.next_char();
    }

    /// Scans the rest of the source to its end, token after token, skipping whitespace.
    pub fn tokenize(&mut self)
        requires
            old(self).wf(),
        ensures
            final(self).wf(),
            final(self).input() == old(self).input(),
            final(self).offset() == old(self).input().len(),
            final(self).emitted() == old(self).emitted() + scan(
                old(self).input(),
                old(self).offset(),
            ).0,
            final(self).reported() == old(self).reported() + scan(
                old(self).input(),
                old(self).offset(),
            ).1,
    {
        let ghost s = self.input();
        loop
            invariant_except_break
                old(self).emitted() + scan(s, old(self).offset()).0 == self.emitted() + scan(
                    s,
                    self.offset(),
                ).0,
                old(self).reported() + scan(s, old(self).offset()).1 == self.reported() + scan(
                    s,
                    self.offset(),
                ).1,
            invariant
                self.wf(),
                self.input() == s,
            ensures
                self.offset() == s.len(),
                old(self).emitted() + scan(s, old(self).offset()).0 == self.emitted(),
                old(self).reported() + scan(s, old(self).offset()).1 == self.reported(),
            decreases s.len() - self.offset(),
        {
            let ghost i = self.offset();
            let ghost toks0 = self.emitted();
            let ghost reps0 = self.reported();
            proof {
                lemma_space_end(s, i);
            }
            self.skip_whitespace();
            let ghost j = self.offset();
            match self.peek_char() {
                None => {
                    assert(self.emitted() + scan(s, i).0 =~= self.emitted());
                    assert(self.reported() + scan(s, i).1 =~= self.reported());
                    break;
                },
                Some(c) => {
                    if '0' <= c && c <= '9' {
                        proof {
                            lemma_digits_end(s, j + 1);
                        }
                        self.lex_number();
                    } else if is_alphanumeric(c) || is_cyrillic(c) {
                        proof {
                            lemma_word_end(s, j + 1);
                        }
                        self.lex_keyword_or_magic_sym();
                    } else if c == '\'' {
                        self.lex_char();
                    } else if c == '"' {
                        proof {
                            lemma_string_end(s, j + 1);
                        }
                        self.lex_string();
                    } else if self.at_symbol() {
                        self.lex_symbol();
                    } else {
                        self.skip_unexpected(c);
                    }
                    proof {
                        let st = step(s, j);
                        let k = self.offset();
                        assert(k == st.2);
                        assert(j < k <= s.len());
                        assert(self.emitted() =~= toks0 + st.0);
                        assert(self.reported() =~= reps0 + st.1);
                        assert(scan(s, i) == (st.0 + scan(s, k).0, st.1 + scan(s, k).1));
                        assert(toks0 + scan(s, i).0 =~= self.emitted() + scan(s, k).0);
                        assert(reps0 + scan(s, i).1 =~= self.reported() + scan(s, k).1);
                    }
                },
            }
        }
    }

    /// The tokens produced so far.
    pub fn tokens(&self) -> (r: &Vec<Token>)
        ensures
            r@.map_values(|t: Token| t@) == self.emitted(),
    {
        &self.token_stream
    }

    /// The diagnostics produced so far.
    pub fn diagnostics(&self) -> (r: &Vec<Diagnostic>)
        ensures
            r@.map_values(|d: Diagnostic| d@) == self.reported(),
    {
        &self.diags
    }

    /// Hands over the tokens and diagnostics produced so far, leaving none behind.
    pub fn lex(&mut self) -> (r: (Vec<Token>, Vec<Diagnostic>))
        requires
            old(self).wf(),
        ensures
            final(self).wf(),
            final(self).input() == old(self).input(),
            final(self).offset() == old(self).offset(),
            r.0@.map_values(|t: Token| t@) == old(self).emitted(),
            r.1@.map_values(|d: Diagnostic| d@) == old(self).reported(),
            final(self).emitted() == Seq::<(Lexeme, SourceRange)>::empty(),
            final(self).reported() == Seq::<DiagnosticView>::empty(),
    {
        let mut ret_tokens: Vec<Token> = Vec::new();
        let mut ret_diags: Vec<Diagnostic> = Vec::new();
        ret_tokens.append(&mut self.token_stream);
        ret_diags.append(&mut self.diags);
        assert(ret_tokens@ =~= old(self).token_stream@);
        assert(ret_diags@ =~= old(self).diags@);
        assert(self.emitted() =~= Seq::<(Lexeme, SourceRange)>::empty());
        assert(self.reported() =~= Seq::<DiagnosticView>::empty());
        (ret_tokens, ret_diags)
    }
}

} // verus!
