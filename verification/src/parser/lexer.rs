//! The lexer: it cuts a text into tokens that cover it from the first byte to
//! the last.
//!
//! The text is read as bytes. A token is told by its first byte and ends where
//! the run of bytes of its class ends. Whatever the class, a token never ends
//! inside the encoding of a character. A byte that begins nothing the grammar
//! knows becomes a token of kind `ERROR` of its own.

use vstd::prelude::*;
use vstd::utf8::is_continuation_byte;
use crate::parser::syntax_kind::SyntaxKind;

verus! {

/// A token: its kind and the bytes of the text that it covers, from `start`
/// up to `end`.
#[derive(Clone, Copy, Debug, PartialEq, Eq, Structural)]
pub struct Token {
    pub kind: SyntaxKind,
    pub start: usize,
    pub end: usize,
}

/// The classes of bytes that a token may run over.
#[derive(Clone, Copy, Debug, PartialEq, Eq, Structural)]
pub enum ByteClass {
    /// Blanks, tabs and carriage returns.
    Blank,
    /// Letters, digits and the underscore.
    Word,
    /// Decimal digits.
    Digit,
    /// Everything but the end of the line.
    InLine,
    /// Everything but the end of the line and the double quote.
    InString,
    /// The second and later bytes of the encoding of a character.
    Continuation,
}

pub open spec fn is_blank(byte: u8) -> bool {
    byte == 0x20 || byte == 0x09 || byte == 0x0d
}

pub open spec fn is_digit(byte: u8) -> bool {
    0x30 <= byte <= 0x39
}

pub open spec fn is_word_start(byte: u8) -> bool {
    (0x41 <= byte <= 0x5a) || (0x61 <= byte <= 0x7a) || byte == 0x5f
}

pub open spec fn in_class(class: ByteClass, byte: u8) -> bool {
    match class {
        ByteClass::Blank => is_blank(byte),
        ByteClass::Word => is_word_start(byte) || is_digit(byte),
        ByteClass::Digit => is_digit(byte),
        ByteClass::InLine => byte != 0x0a,
        ByteClass::InString => byte != 0x0a && byte != 0x22,
        ByteClass::Continuation => is_continuation_byte(byte),
    }
}

/// The kind of the token that is the one byte `byte`, where there is one.
pub open spec fn punctuation(byte: u8) -> Option<SyntaxKind> {
    if byte == 0x2c {
        Some(SyntaxKind::COMMA)
    } else if byte == 0x3a {
        Some(SyntaxKind::COLON)
    } else if byte == 0x3d {
        Some(SyntaxKind::EQ)
    } else if byte == 0x2b {
        Some(SyntaxKind::PLUS)
    } else if byte == 0x2d {
        Some(SyntaxKind::MINUS)
    } else if byte == 0x2a {
        Some(SyntaxKind::STAR)
    } else if byte == 0x2f {
        Some(SyntaxKind::SLASH)
    } else if byte == 0x25 {
        Some(SyntaxKind::PERCENT)
    } else if byte == 0x26 {
        Some(SyntaxKind::AMP)
    } else if byte == 0x7c {
        Some(SyntaxKind::PIPE)
    } else if byte == 0x5e {
        Some(SyntaxKind::CARET)
    } else if byte == 0x7e {
        Some(SyntaxKind::TILDE)
    } else if byte == 0x21 {
        Some(SyntaxKind::BANG)
    } else if byte == 0x3c {
        Some(SyntaxKind::L_ANGLE)
    } else if byte == 0x3e {
        Some(SyntaxKind::R_ANGLE)
    } else if byte == 0x28 {
        Some(SyntaxKind::L_PAREN)
    } else if byte == 0x29 {
        Some(SyntaxKind::R_PAREN)
    } else if byte == 0x5b {
        Some(SyntaxKind::L_BRACK)
    } else if byte == 0x5d {
        Some(SyntaxKind::R_BRACK)
    } else if byte == 0x7b {
        Some(SyntaxKind::L_CURLY)
    } else if byte == 0x7d {
        Some(SyntaxKind::R_CURLY)
    } else {
        None
    }
}

/// Where the run of bytes of `class` that starts at `pos` ends: the first
/// position from `pos` on whose byte is not of the class, or the end of the
/// text.
pub open spec fn run_end(bytes: Seq<u8>, pos: int, class: ByteClass) -> int
    decreases bytes.len() - pos,
{
    if 0 <= pos < bytes.len() && in_class(class, bytes[pos]) {
        run_end(bytes, pos + 1, class)
    } else {
        pos
    }
}

/// The kind of the token that starts at `pos`, and where its class ends.
pub open spec fn classified(bytes: Seq<u8>, pos: int) -> (SyntaxKind, int) {
    let first = bytes[pos];
    if is_blank(first) {
        (SyntaxKind::WHITESPACE, run_end(bytes, pos + 1, ByteClass::Blank))
    } else if first == 0x0a {
        (SyntaxKind::NEWLINE, pos + 1)
    } else if first == 0x2f && pos + 1 < bytes.len() && bytes[pos + 1] == 0x2f {
        (SyntaxKind::COMMENT, run_end(bytes, pos + 2, ByteClass::InLine))
    } else if is_word_start(first) {
        (SyntaxKind::IDENT, run_end(bytes, pos + 1, ByteClass::Word))
    } else if is_digit(first) {
        (SyntaxKind::INT_NUMBER, run_end(bytes, pos + 1, ByteClass::Digit))
    } else if first == 0x24 {
        let end = run_end(bytes, pos + 1, ByteClass::Word);
        if end > pos + 1 {
            (SyntaxKind::REGISTER, end)
        } else {
            (SyntaxKind::ERROR, end)
        }
    } else if first == 0x22 {
        let end = run_end(bytes, pos + 1, ByteClass::InString);
        if end < bytes.len() && bytes[end] == 0x22 {
            (SyntaxKind::STRING, end + 1)
        } else {
            (SyntaxKind::ERROR, end)
        }
    } else {
        match punctuation(first) {
            Some(kind) => (kind, pos + 1),
            None => (SyntaxKind::ERROR, pos + 1),
        }
    }
}

/// The token that starts at `pos`, for a position inside the text.
pub open spec fn token_at(bytes: Seq<u8>, pos: int) -> Token {
    let (kind, end) = classified(bytes, pos);
    Token {
        kind,
        start: pos as usize,
        end: run_end(bytes, end, ByteClass::Continuation) as usize,
    }
}

/// The tokens of the text from `pos` on.
pub open spec fn tokens_from(bytes: Seq<u8>, pos: int) -> Seq<Token>
    decreases bytes.len() - pos,
{
    if 0 <= pos < bytes.len() {
        let end = run_end(bytes, classified(bytes, pos).1, ByteClass::Continuation);
        if pos < end <= bytes.len() {
            seq![token_at(bytes, pos)] + tokens_from(bytes, end)
        } else {
            Seq::empty()
        }
    } else {
        Seq::empty()
    }
}

/// The tokens follow each other without a gap from `from` to `to`, and none
/// is empty.
pub open spec fn chained(tokens: Seq<Token>, from: int, to: int) -> bool {
    &&& tokens.len() == 0 ==> from == to
    &&& tokens.len() > 0 ==> tokens[0].start == from && tokens.last().end == to
    &&& forall|i: int| 0 <= i < tokens.len() ==> (#[trigger] tokens[i]).start < tokens[i].end
    &&& forall|i: int|
        0 <= i < tokens.len() - 1 ==> (#[trigger] tokens[i + 1]).start == tokens[i].end
}

/// No token ends inside the encoding of a character.
pub open spec fn ends_between_characters(bytes: Seq<u8>, tokens: Seq<Token>) -> bool {
    forall|i: int|
        0 <= i < tokens.len() ==> (#[trigger] tokens[i]).end == bytes.len() || (tokens[i].end
            < bytes.len() && !is_continuation_byte(bytes[tokens[i].end as int]))
}

/// A run ends at or after its start and inside the text, on a byte that is not
/// of the class.
pub proof fn lemma_run_end(bytes: Seq<u8>, pos: int, class: ByteClass)
    requires
        0 <= pos <= bytes.len(),
    ensures
        pos <= run_end(bytes, pos, class) <= bytes.len(),
        run_end(bytes, pos, class) < bytes.len() ==> !in_class(
            class,
            bytes[run_end(bytes, pos, class)],
        ),
        forall|i: int| pos <= i < run_end(bytes, pos, class) ==> in_class(class, #[trigger] bytes[i]),
    decreases bytes.len() - pos,
{
    if pos < bytes.len() && in_class(class, bytes[pos]) {
        lemma_run_end(bytes, pos + 1, class);
    }
}

/// A token that starts inside the text is not empty and ends inside the text,
/// between two characters.
pub proof fn lemma_token_at(bytes: Seq<u8>, pos: int)
    requires
        0 <= pos < bytes.len(),
        bytes.len() <= usize::MAX,
    ensures
        token_at(bytes, pos).start == pos,
        pos < token_at(bytes, pos).end <= bytes.len(),
        token_at(bytes, pos).end == run_end(
            bytes,
            classified(bytes, pos).1,
            ByteClass::Continuation,
        ),
        token_at(bytes, pos).end < bytes.len() ==> !is_continuation_byte(
            bytes[token_at(bytes, pos).end as int],
        ),
{
    lemma_run_end(bytes, pos + 1, ByteClass::Blank);
    lemma_run_end(bytes, pos + 1, ByteClass::Word);
    lemma_run_end(bytes, pos + 1, ByteClass::Digit);
    lemma_run_end(bytes, pos + 1, ByteClass::InString);
    if pos + 1 < bytes.len() {
        lemma_run_end(bytes, pos + 2, ByteClass::InLine);
    }
    let end = classified(bytes, pos).1;
    lemma_run_end(bytes, end, ByteClass::Continuation);
}

/// The tokens of a text cover it without a gap, and none ends inside a
/// character.
pub proof fn lemma_tokens_cover(bytes: Seq<u8>, pos: int)
    requires
        0 <= pos <= bytes.len(),
        bytes.len() <= usize::MAX,
    ensures
        chained(tokens_from(bytes, pos), pos, bytes.len() as int),
        ends_between_characters(bytes, tokens_from(bytes, pos)),
    decreases bytes.len() - pos,
{
    if pos < bytes.len() {
        lemma_token_at(bytes, pos);
        let first = token_at(bytes, pos);
        let rest = tokens_from(bytes, first.end as int);
        lemma_tokens_cover(bytes, first.end as int);
        let all = tokens_from(bytes, pos);
        assert(all =~= seq![first] + rest);
        assert(all[0] == first);
        assert forall|i: int| 0 <= i < all.len() implies (#[trigger] all[i]).start
            < all[i].end by {
            if i > 0 {
                assert(all[i] == rest[i - 1]);
            }
        }
        assert forall|i: int| 0 <= i < all.len() - 1 implies (#[trigger] all[i + 1]).start
            == all[i].end by {
            assert(all[i + 1] == rest[i]);
            if i > 0 {
                assert(all[i] == rest[i - 1]);
                assert(rest[(i - 1) + 1].start == rest[i - 1].end);
            } else {
                assert(rest[0].start == first.end);
            }
        }
        if rest.len() > 0 {
            assert(all.last() == rest.last());
        }
        assert forall|i: int| 0 <= i < all.len() implies (#[trigger] all[i]).end == bytes.len() || (
        all[i].end < bytes.len() && !is_continuation_byte(bytes[all[i].end as int])) by {
            if i > 0 {
                assert(all[i] == rest[i - 1]);
            }
        }
    }
}

fn byte_in_class(class: ByteClass, byte: u8) -> (inside: bool)
    ensures
        inside == in_class(class, byte),
{
    match class {
        ByteClass::Blank => byte == 0x20 || byte == 0x09 || byte == 0x0d,
        ByteClass::Word => (0x41 <= byte && byte <= 0x5a) || (0x61 <= byte && byte <= 0x7a) || byte
            == 0x5f || (0x30 <= byte && byte <= 0x39),
        ByteClass::Digit => 0x30 <= byte && byte <= 0x39,
        ByteClass::InLine => byte != 0x0a,
        ByteClass::InString => byte != 0x0a && byte != 0x22,
        ByteClass::Continuation => {
            assert(is_continuation_byte(byte) <==> (0x80 <= byte && byte <= 0xbf)) by {
                assert((byte & 0xc0 == 0x80) <==> (0x80 <= byte && byte <= 0xbf)) by (bit_vector);
            }
            0x80 <= byte && byte <= 0xbf
        },
    }
}

fn byte_punctuation(byte: u8) -> (kind: Option<SyntaxKind>)
    ensures
        kind == punctuation(byte),
{
    if byte == 0x2c {
        Some(SyntaxKind::COMMA)
    } else if byte == 0x3a {
        Some(SyntaxKind::COLON)
    } else if byte == 0x3d {
        Some(SyntaxKind::EQ)
    } else if byte == 0x2b {
        Some(SyntaxKind::PLUS)
    } else if byte == 0x2d {
        Some(SyntaxKind::MINUS)
    } else if byte == 0x2a {
        Some(SyntaxKind::STAR)
    } else if byte == 0x2f {
        Some(SyntaxKind::SLASH)
    } else if byte == 0x25 {
        Some(SyntaxKind::PERCENT)
    } else if byte == 0x26 {
        Some(SyntaxKind::AMP)
    } else if byte == 0x7c {
        Some(SyntaxKind::PIPE)
    } else if byte == 0x5e {
        Some(SyntaxKind::CARET)
    } else if byte == 0x7e {
        Some(SyntaxKind::TILDE)
    } else if byte == 0x21 {
        Some(SyntaxKind::BANG)
    } else if byte == 0x3c {
        Some(SyntaxKind::L_ANGLE)
    } else if byte == 0x3e {
        Some(SyntaxKind::R_ANGLE)
    } else if byte == 0x28 {
        Some(SyntaxKind::L_PAREN)
    } else if byte == 0x29 {
        Some(SyntaxKind::R_PAREN)
    } else if byte == 0x5b {
        Some(SyntaxKind::L_BRACK)
    } else if byte == 0x5d {
        Some(SyntaxKind::R_BRACK)
    } else if byte == 0x7b {
        Some(SyntaxKind::L_CURLY)
    } else if byte == 0x7d {
        Some(SyntaxKind::R_CURLY)
    } else {
        None
    }
}

/// Runs over the bytes of `class` from `pos` on.
fn scan_run(bytes: &[u8], pos: usize, class: ByteClass) -> (end: usize)
    requires
        pos <= bytes@.len(),
    ensures
        end == run_end(bytes@, pos as int, class),
        pos <= end <= bytes@.len(),
{
    let mut end = pos;
    while end < bytes.len() && byte_in_class(class, bytes[end])
        invariant
            pos <= end <= bytes@.len(),
            run_end(bytes@, pos as int, class) == run_end(bytes@, end as int, class),
        decreases bytes@.len() - end,
    {
        end += 1;
    }
    end
}

/// Reads the token that starts at `pos`.
pub fn next_token(bytes: &[u8], pos: usize) -> (token: Token)
    requires
        pos < bytes@.len(),
    ensures
        token == token_at(bytes@, pos as int),
        pos < token.end <= bytes@.len(),
{
    let length = bytes.len();
    proof {
        lemma_token_at(bytes@, pos as int);
    }
    let first = bytes[pos];
    let (kind, end) = if byte_in_class(ByteClass::Blank, first) {
        (SyntaxKind::WHITESPACE, scan_run(bytes, pos + 1, ByteClass::Blank))
    } else if first == 0x0a {
        (SyntaxKind::NEWLINE, pos + 1)
    } else if first == 0x2f && pos + 1 < bytes.len() && bytes[pos + 1] == 0x2f {
        (SyntaxKind::COMMENT, scan_run(bytes, pos + 2, ByteClass::InLine))
    } else if (0x41 <= first && first <= 0x5a) || (0x61 <= first && first <= 0x7a) || first == 0x5f {
        (SyntaxKind::IDENT, scan_run(bytes, pos + 1, ByteClass::Word))
    } else if 0x30 <= first && first <= 0x39 {
        (SyntaxKind::INT_NUMBER, scan_run(bytes, pos + 1, ByteClass::Digit))
    } else if first == 0x24 {
        let end = scan_run(bytes, pos + 1, ByteClass::Word);
        if end > pos + 1 {
            (SyntaxKind::REGISTER, end)
        } else {
            (SyntaxKind::ERROR, end)
        }
    } else if first == 0x22 {
        let end = scan_run(bytes, pos + 1, ByteClass::InString);
        if end < bytes.len() && bytes[end] == 0x22 {
            (SyntaxKind::STRING, end + 1)
        } else {
            (SyntaxKind::ERROR, end)
        }
    } else {
        match byte_punctuation(first) {
            Some(kind) => (kind, pos + 1),
            None => (SyntaxKind::ERROR, pos + 1),
        }
    };
    let end = scan_run(bytes, end, ByteClass::Continuation);
    Token { kind, start: pos, end }
}

/// Cuts `bytes` into its tokens.
pub fn tokenize(bytes: &[u8]) -> (tokens: Vec<Token>)
    ensures
        tokens@ == tokens_from(bytes@, 0),
        chained(tokens@, 0, bytes@.len() as int),
        ends_between_characters(bytes@, tokens@),
{
    let mut tokens: Vec<Token> = Vec::new();
    let mut pos: usize = 0;
    while pos < bytes.len()
        invariant
            pos <= bytes@.len(),
            tokens_from(bytes@, 0) == tokens@ + tokens_from(bytes@, pos as int),
        decreases bytes@.len() - pos,
    {
        let token = next_token(bytes, pos);
        let length = bytes.len();
        proof {
            lemma_token_at(bytes@, pos as int);
            assert(tokens@.push(token) + tokens_from(bytes@, token.end as int) =~= tokens@
                + tokens_from(bytes@, pos as int));
        }
        tokens.push(token);
        pos = token.end;
    }
    let length = bytes.len();
    proof {
        assert(tokens@ + Seq::<Token>::empty() =~= tokens@);
        lemma_tokens_cover(bytes@, 0);
    }
    tokens
}

} // verus!
