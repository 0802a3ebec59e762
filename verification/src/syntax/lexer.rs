//! Lexer for iCalendar text as defined in RFC 5545.
//!
//! The token classes are decided byte by byte: runs of ASCII symbol bytes,
//! runs of word bytes (`0-9A-Za-z_-`) and runs of non-ASCII bytes form one
//! token each; the five delimiters `"` `,` `:` `;` `=` are single tokens;
//! CRLF is a newline, and CRLF followed by a space or a tab is a line fold,
//! which produces no token. Every other byte is an error token of its own.

use vstd::prelude::*;
use vstd::string::StringSliceAdditionalSpecFns;
use vstd::utf8::*;

use crate::string_storage::Span;

verus! {

broadcast use vstd::utf8::encode_utf8_valid_utf8;

/// Token emitted by the iCalendar lexer
#[derive(PartialEq, Eq, Clone, Copy, Debug)]
pub enum Token<'a> {
    /// Double Quote ("), decimal codepoint 34
    DQuote,
    /// Comma (,), decimal codepoint 44
    Comma,
    /// Colon (:), decimal codepoint 58
    Colon,
    /// Semicolon (;), decimal codepoint 59
    Semicolon,
    /// Equal sign (=), decimal codepoint 61
    Equal,
    /// ASCII symbols: sequences of printable ASCII characters
    Symbol(&'a str),
    /// Carriage Return followed by Line Feed
    Newline,
    /// ASCII word characters: 0-9, A-Z, a-z, underscore, hyphen
    Word(&'a str),
    /// Non-ASCII text (UTF-8 multi-byte characters)
    UnicodeText(&'a str),
    /// Error token for bytes that belong to no token
    Error,
}

/// The kind of a token, without its text.
#[derive(PartialEq, Eq, Clone, Copy, Debug)]
pub enum TokenKind {
    /// `"`
    DQuote,
    /// `,`
    Comma,
    /// `:`
    Colon,
    /// `;`
    Semicolon,
    /// `=`
    Equal,
    /// run of ASCII symbol bytes
    Symbol,
    /// CRLF
    Newline,
    /// run of word bytes
    Word,
    /// run of non-ASCII bytes
    UnicodeText,
    /// a byte that belongs to no token
    Error,
}

impl<'a> Token<'a> {
    /// The kind of this token.
    pub open spec fn kind(self) -> TokenKind {
        match self {
            Token::DQuote => TokenKind::DQuote,
            Token::Comma => TokenKind::Comma,
            Token::Colon => TokenKind::Colon,
            Token::Semicolon => TokenKind::Semicolon,
            Token::Equal => TokenKind::Equal,
            Token::Symbol(_) => TokenKind::Symbol,
            Token::Newline => TokenKind::Newline,
            Token::Word(_) => TokenKind::Word,
            Token::UnicodeText(_) => TokenKind::UnicodeText,
            Token::Error => TokenKind::Error,
        }
    }
}

/// A token with its associated span in the source code
#[derive(Debug, Clone, Copy, PartialEq, Eq)]
pub struct SpannedToken<'src>(pub Token<'src>, pub Span);

impl<'src> SpannedToken<'src> {
    /// Kind, start and end of the token.
    pub open spec fn triple(self) -> (TokenKind, int, int) {
        (self.0.kind(), self.1.start as int, self.1.end as int)
    }
}

/// Printable ASCII symbols (and horizontal tab) that form symbol runs.
pub open spec fn is_symbol_byte(b: u8) -> bool {
    b == 0x09 || b == 0x20 || b == 0x21 || (0x23 <= b && b <= 0x2b) || b == 0x2e || b == 0x2f
        || b == 0x3c || (0x3e <= b && b <= 0x40) || (0x5b <= b && b <= 0x5e) || b == 0x60 || (
    0x7b <= b && b <= 0x7e)
}

/// Bytes of word runs: `0-9`, `A-Z`, `a-z`, `_` and `-`.
pub open spec fn is_word_byte(b: u8) -> bool {
    (0x30 <= b && b <= 0x39) || (0x41 <= b && b <= 0x5a) || (0x61 <= b && b <= 0x7a) || b == 0x5f
        || b == 0x2d
}

/// Whether a byte continues a run of the given kind.
pub open spec fn in_run(k: TokenKind, b: u8) -> bool {
    match k {
        TokenKind::Symbol => is_symbol_byte(b),
        TokenKind::Word => is_word_byte(b),
        TokenKind::UnicodeText => b >= 0x80,
        _ => false,
    }
}

/// The kind of the one-byte delimiter tokens.
pub open spec fn delimiter_kind(b: u8) -> Option<TokenKind> {
    if b == 0x22 {
        Some(TokenKind::DQuote)
    } else if b == 0x2c {
        Some(TokenKind::Comma)
    } else if b == 0x3a {
        Some(TokenKind::Colon)
    } else if b == 0x3b {
        Some(TokenKind::Semicolon)
    } else if b == 0x3d {
        Some(TokenKind::Equal)
    } else {
        None
    }
}

/// The kind of run that a byte starts, if any.
pub open spec fn run_kind(b: u8) -> Option<TokenKind> {
    if is_symbol_byte(b) {
        Some(TokenKind::Symbol)
    } else if is_word_byte(b) {
        Some(TokenKind::Word)
    } else if b >= 0x80 {
        Some(TokenKind::UnicodeText)
    } else {
        None
    }
}

/// The end of the maximal run of kind `k` that starts at `pos`.
pub open spec fn run_end(bytes: Seq<u8>, k: TokenKind, pos: int) -> int
    decreases bytes.len() - pos,
{
    if 0 <= pos < bytes.len() && in_run(k, bytes[pos]) {
        run_end(bytes, k, pos + 1)
    } else {
        pos
    }
}

/// CRLF at `pos`.
pub open spec fn crlf_at(bytes: Seq<u8>, pos: int) -> bool {
    0 <= pos && pos + 1 < bytes.len() && bytes[pos] == 0x0d && bytes[pos + 1] == 0x0a
}

/// CRLF followed by a space or a horizontal tab at `pos`: a folded line.
pub open spec fn fold_at(bytes: Seq<u8>, pos: int) -> bool {
    crlf_at(bytes, pos) && pos + 2 < bytes.len() && (bytes[pos + 2] == 0x20 || bytes[pos + 2]
        == 0x09)
}

/// The tokens (kind, start, end) of `bytes` from position `pos` on.
pub open spec fn lex_from(bytes: Seq<u8>, pos: int) -> Seq<(TokenKind, int, int)>
    decreases bytes.len() - pos,
{
    if pos < 0 || pos >= bytes.len() {
        Seq::empty()
    } else if fold_at(bytes, pos) {
        lex_from(bytes, pos + 3)
    } else if crlf_at(bytes, pos) {
        seq![(TokenKind::Newline, pos, pos + 2)] + lex_from(bytes, pos + 2)
    } else if delimiter_kind(bytes[pos]) is Some {
        seq![(delimiter_kind(bytes[pos])->0, pos, pos + 1)] + lex_from(bytes, pos + 1)
    } else if run_kind(bytes[pos]) is Some {
        let k = run_kind(bytes[pos])->0;
        let e = run_end(bytes, k, pos);
        proof {
            lemma_run_end(bytes, k, pos);
        }
        if e > pos {
            seq![(k, pos, e)] + lex_from(bytes, e)
        } else {
            Seq::empty()
        }
    } else {
        seq![(TokenKind::Error, pos, pos + 1)] + lex_from(bytes, pos + 1)
    }
}

/// The tokens of a whole source text.
pub open spec fn lex(bytes: Seq<u8>) -> Seq<(TokenKind, int, int)> {
    lex_from(bytes, 0)
}

/// The text a token carries is the source text under its span.
pub open spec fn token_text_matches(bytes: Seq<u8>, t: SpannedToken) -> bool {
    match t.0 {
        Token::Symbol(s) => s.spec_bytes() == bytes.subrange(t.1.start as int, t.1.end as int),
        Token::Word(s) => s.spec_bytes() == bytes.subrange(t.1.start as int, t.1.end as int),
        Token::UnicodeText(s) => s.spec_bytes() == bytes.subrange(
            t.1.start as int,
            t.1.end as int,
        ),
        _ => true,
    }
}

/// A position next to an ASCII byte (or at either end) is a character boundary.
pub open spec fn ascii_adjacent(bytes: Seq<u8>, i: int) -> bool {
    ||| i == 0
    ||| i == bytes.len()
    ||| (0 <= i < bytes.len() && bytes[i] < 0x80)
    ||| (0 < i <= bytes.len() && bytes[i - 1] < 0x80)
}

proof fn lemma_after_ascii_is_boundary(bytes: Seq<u8>, i: int)
    requires
        valid_utf8(bytes),
        0 < i <= bytes.len(),
        bytes[i - 1] < 0x80,
    ensures
        is_char_boundary(bytes, i),
    decreases bytes.len(),
{
    let k = length_of_first_scalar(bytes);
    let rest = pop_first_scalar(bytes);
    assert(valid_first_scalar(bytes) && valid_utf8(rest));
    assert(rest.len() == bytes.len() - k);
    if i - 1 < k {
        if k == 1 {
            assert(i == 1);
            assert(is_char_boundary(rest, 0));
        } else {
            assert(i - 1 > 0);
            assert(is_continuation_byte(bytes[i - 1]));
        }
    } else {
        assert(rest[i - k - 1] == bytes[i - 1]);
        lemma_after_ascii_is_boundary(rest, i - k);
    }
}

proof fn lemma_ascii_adjacent_boundary(bytes: Seq<u8>, i: int)
    requires
        valid_utf8(bytes),
        ascii_adjacent(bytes, i),
    ensures
        is_char_boundary(bytes, i),
{
    if i == 0 {
    } else if i == bytes.len() {
        is_char_boundary_start_end_of_seq(bytes);
    } else if 0 <= i < bytes.len() && bytes[i] < 0x80 {
        is_char_boundary_iff_not_is_continuation_byte(bytes, i);
    } else {
        lemma_after_ascii_is_boundary(bytes, i);
    }
}

/// The substring of `src` between two byte positions that lie next to ASCII bytes.
fn substr<'a>(src: &'a str, start: usize, end: usize) -> (r: &'a str)
    requires
        start <= end <= src.spec_bytes().len(),
        ascii_adjacent(src.spec_bytes(), start as int),
        end == start || end == src.spec_bytes().len() || src.spec_bytes()[end as int] < 0x80 || (
        end > start && src.spec_bytes()[end - 1] < 0x80),
    ensures
        r.spec_bytes() == src.spec_bytes().subrange(start as int, end as int),
{
    let ghost bytes = src.spec_bytes();
    proof {
        lemma_ascii_adjacent_boundary(bytes, start as int);
    }
    let (_, rest) = src.split_at(start);
    let ghost rb = rest.spec_bytes();
    assert(rb =~= bytes.subrange(start as int, bytes.len() as int));
    proof {
        assert(ascii_adjacent(rb, end - start));
        lemma_ascii_adjacent_boundary(rb, end - start);
    }
    let (mid, _) = rest.split_at(end - start);
    assert(mid.spec_bytes() =~= bytes.subrange(start as int, end as int));
    mid
}

fn is_symbol_byte_exec(b: u8) -> (r: bool)
    ensures
        r == is_symbol_byte(b),
{
    b == 0x09 || b == 0x20 || b == 0x21 || (0x23 <= b && b <= 0x2b) || b == 0x2e || b == 0x2f
        || b == 0x3c || (0x3e <= b && b <= 0x40) || (0x5b <= b && b <= 0x5e) || b == 0x60 || (
    0x7b <= b && b <= 0x7e)
}

fn is_word_byte_exec(b: u8) -> (r: bool)
    ensures
        r == is_word_byte(b),
{
    (0x30 <= b && b <= 0x39) || (0x41 <= b && b <= 0x5a) || (0x61 <= b && b <= 0x7a) || b == 0x5f
        || b == 0x2d
}

fn in_run_exec(k: TokenKind, b: u8) -> (r: bool)
    ensures
        r == in_run(k, b),
{
    match k {
        TokenKind::Symbol => is_symbol_byte_exec(b),
        TokenKind::Word => is_word_byte_exec(b),
        TokenKind::UnicodeText => b >= 0x80,
        _ => false,
    }
}

pub proof fn lemma_run_end(bytes: Seq<u8>, k: TokenKind, pos: int)
    requires
        0 <= pos <= bytes.len(),
    ensures
        pos <= run_end(bytes, k, pos) <= bytes.len(),
        forall|i: int| pos <= i < run_end(bytes, k, pos) ==> #[trigger] in_run(k, bytes[i]),
        run_end(bytes, k, pos) < bytes.len() ==> !in_run(k, bytes[run_end(bytes, k, pos)]),
        pos < bytes.len() && in_run(k, bytes[pos]) ==> run_end(bytes, k, pos) > pos,
    decreases bytes.len() - pos,
{
    if pos < bytes.len() && in_run(k, bytes[pos]) {
        lemma_run_end(bytes, k, pos + 1);
    }
}

fn find_run_end(bytes: &[u8], k: TokenKind, pos: usize) -> (e: usize)
    requires
        pos <= bytes@.len(),
    ensures
        e as int == run_end(bytes@, k, pos as int),
{
    let mut j = pos;
    while j < bytes.len() && in_run_exec(k, bytes[j])
        invariant
            pos <= j <= bytes@.len(),
            run_end(bytes@, k, pos as int) == run_end(bytes@, k, j as int),
        decreases bytes@.len() - j,
    {
        j = j + 1;
    }
    j
}

/// The spans that `lex_from` yields are nonempty, ordered, inside
/// `[pos, bytes.len()]`, and one byte long for delimiters.
pub proof fn lemma_lex_spans(bytes: Seq<u8>, pos: int)
    requires
        0 <= pos,
    ensures
        forall|i: int|
            0 <= i < lex_from(bytes, pos).len() ==> pos <= (#[trigger] lex_from(bytes, pos)[i]).1
                < lex_from(bytes, pos)[i].2 <= bytes.len(),
        forall|i: int, j: int|
            0 <= i < j < lex_from(bytes, pos).len() ==> (#[trigger] lex_from(bytes, pos)[i]).2 <= (
            #[trigger] lex_from(bytes, pos)[j]).1,
        forall|i: int|
            0 <= i < lex_from(bytes, pos).len() ==> {
                let t = #[trigger] lex_from(bytes, pos)[i];
                (t.0 == TokenKind::DQuote || t.0 == TokenKind::Comma || t.0 == TokenKind::Colon
                    || t.0 == TokenKind::Semicolon || t.0 == TokenKind::Equal) ==> t.2 == t.1 + 1
            },
    decreases bytes.len() - pos,
{
    if pos < bytes.len() {
        if fold_at(bytes, pos) {
            lemma_lex_spans(bytes, pos + 3);
        } else if crlf_at(bytes, pos) {
            lemma_lex_spans(bytes, pos + 2);
        } else if delimiter_kind(bytes[pos]) is Some {
            lemma_lex_spans(bytes, pos + 1);
        } else if run_kind(bytes[pos]) is Some {
            let k = run_kind(bytes[pos])->0;
            lemma_run_end(bytes, k, pos);
            let e = run_end(bytes, k, pos);
            if e > pos {
                lemma_lex_spans(bytes, e);
            }
        } else {
            lemma_lex_spans(bytes, pos + 1);
        }
    }
}

/// Tokenize iCalendar source text into a vector of spanned tokens.
pub fn tokenize<'src>(src: &'src str) -> (toks: Vec<SpannedToken<'src>>)
    ensures
        toks@.map_values(|t: SpannedToken<'src>| t.triple()) == lex(src.spec_bytes()),
        forall|i: int|
            0 <= i < toks@.len() ==> token_text_matches(src.spec_bytes(), #[trigger] toks@[i]),
{
    let bytes = src.as_bytes();
    let n = bytes.len();
    let mut toks: Vec<SpannedToken<'src>> = Vec::new();
    let mut pos: usize = 0;
    while pos < n
        invariant
            bytes@ == src.spec_bytes(),
            n == bytes@.len(),
            pos <= n,
            ascii_adjacent(bytes@, pos as int),
            lex(bytes@) == toks@.map_values(|t: SpannedToken<'src>| t.triple()) + lex_from(
                bytes@,
                pos as int,
            ),
            forall|i: int| 0 <= i < toks@.len() ==> token_text_matches(bytes@, #[trigger] toks@[i]),
        decreases n - pos,
    {
        let ghost old_toks = toks@;
        let b = bytes[pos];
        let mut next = pos;
        if b == 0x0d && pos + 1 < n && bytes[pos + 1] == 0x0a {
            if pos + 2 < n && (bytes[pos + 2] == 0x20 || bytes[pos + 2] == 0x09) {
                next = pos + 3;
            } else {
                toks.push(SpannedToken(Token::Newline, Span { start: pos, end: pos + 2 }));
                next = pos + 2;
            }
        } else if b == 0x22 || b == 0x2c || b == 0x3a || b == 0x3b || b == 0x3d {
            let tok = if b == 0x22 {
                Token::DQuote
            } else if b == 0x2c {
                Token::Comma
            } else if b == 0x3a {
                Token::Colon
            } else if b == 0x3b {
                Token::Semicolon
            } else {
                Token::Equal
            };
            toks.push(SpannedToken(tok, Span { start: pos, end: pos + 1 }));
            next = pos + 1;
        } else if is_symbol_byte_exec(b) || is_word_byte_exec(b) || b >= 0x80 {
            let k = if is_symbol_byte_exec(b) {
                TokenKind::Symbol
            } else if is_word_byte_exec(b) {
                TokenKind::Word
            } else {
                TokenKind::UnicodeText
            };
            let e = find_run_end(bytes, k, pos);
            proof {
                lemma_run_end(bytes@, k, pos as int);
                assert(in_run(k, bytes@[pos as int]));
                assert(in_run(k, bytes@[e - 1]));
            }
            let text = substr(src, pos, e);
            let tok = match k {
                TokenKind::Symbol => Token::Symbol(text),
                TokenKind::Word => Token::Word(text),
                _ => Token::UnicodeText(text),
            };
            toks.push(SpannedToken(tok, Span { start: pos, end: e }));
            next = e;
        } else {
            toks.push(SpannedToken(Token::Error, Span { start: pos, end: pos + 1 }));
            next = pos + 1;
        }
        proof {
            let f = |t: SpannedToken<'src>| t.triple();
            assert(toks@.map_values(f) =~= old_toks.map_values(f) + (toks@.map_values(f).skip(
                old_toks.len() as int,
            )));
            assert(lex_from(bytes@, pos as int) =~= toks@.map_values(f).skip(old_toks.len() as int)
                + lex_from(bytes@, next as int));
        }
        pos = next;
    }
    toks
}

} // verus!
