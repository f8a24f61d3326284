//! The kinds of tokens and nodes in a syntax tree.

use vstd::prelude::*;

verus! {

#[allow(non_camel_case_types)]
#[derive(Clone, Copy, Debug, PartialEq, Eq, PartialOrd, Ord, Hash, Structural)]
pub enum SyntaxKind {
    WHITESPACE,
    NEWLINE,
    COMMENT,
    IDENT,
    INT_NUMBER,
    STRING,
    REGISTER,
    COMMA,
    COLON,
    EQ,
    PLUS,
    MINUS,
    STAR,
    SLASH,
    PERCENT,
    AMP,
    PIPE,
    CARET,
    TILDE,
    BANG,
    L_ANGLE,
    R_ANGLE,
    L_PAREN,
    R_PAREN,
    L_BRACK,
    R_BRACK,
    L_CURLY,
    R_CURLY,
    /// A token, or a node, that has no place in the grammar.
    ERROR,
    /// One instruction: its mnemonic and what follows it on the line.
    INSTRUCTION,
    /// The root of the tree of a whole file.
    SOURCE_FILE,
}

impl SyntaxKind {
    /// The number under which the kind is stored in a tree.
    pub open spec fn raw(self) -> u16 {
        match self {
            SyntaxKind::WHITESPACE => 0,
            SyntaxKind::NEWLINE => 1,
            SyntaxKind::COMMENT => 2,
            SyntaxKind::IDENT => 3,
            SyntaxKind::INT_NUMBER => 4,
            SyntaxKind::STRING => 5,
            SyntaxKind::REGISTER => 6,
            SyntaxKind::COMMA => 7,
            SyntaxKind::COLON => 8,
            SyntaxKind::EQ => 9,
            SyntaxKind::PLUS => 10,
            SyntaxKind::MINUS => 11,
            SyntaxKind::STAR => 12,
            SyntaxKind::SLASH => 13,
            SyntaxKind::PERCENT => 14,
            SyntaxKind::AMP => 15,
            SyntaxKind::PIPE => 16,
            SyntaxKind::CARET => 17,
            SyntaxKind::TILDE => 18,
            SyntaxKind::BANG => 19,
            SyntaxKind::L_ANGLE => 20,
            SyntaxKind::R_ANGLE => 21,
            SyntaxKind::L_PAREN => 22,
            SyntaxKind::R_PAREN => 23,
            SyntaxKind::L_BRACK => 24,
            SyntaxKind::R_BRACK => 25,
            SyntaxKind::L_CURLY => 26,
            SyntaxKind::R_CURLY => 27,
            SyntaxKind::ERROR => 28,
            SyntaxKind::INSTRUCTION => 29,
            SyntaxKind::SOURCE_FILE => 30,
        }
    }

    pub fn to_raw(self) -> (raw: u16)
        ensures
            raw == self.raw(),
    {
        match self {
            SyntaxKind::WHITESPACE => 0,
            SyntaxKind::NEWLINE => 1,
            SyntaxKind::COMMENT => 2,
            SyntaxKind::IDENT => 3,
            SyntaxKind::INT_NUMBER => 4,
            SyntaxKind::STRING => 5,
            SyntaxKind::REGISTER => 6,
            SyntaxKind::COMMA => 7,
            SyntaxKind::COLON => 8,
            SyntaxKind::EQ => 9,
            SyntaxKind::PLUS => 10,
            SyntaxKind::MINUS => 11,
            SyntaxKind::STAR => 12,
            SyntaxKind::SLASH => 13,
            SyntaxKind::PERCENT => 14,
            SyntaxKind::AMP => 15,
            SyntaxKind::PIPE => 16,
            SyntaxKind::CARET => 17,
            SyntaxKind::TILDE => 18,
            SyntaxKind::BANG => 19,
            SyntaxKind::L_ANGLE => 20,
            SyntaxKind::R_ANGLE => 21,
            SyntaxKind::L_PAREN => 22,
            SyntaxKind::R_PAREN => 23,
            SyntaxKind::L_BRACK => 24,
            SyntaxKind::R_BRACK => 25,
            SyntaxKind::L_CURLY => 26,
            SyntaxKind::R_CURLY => 27,
            SyntaxKind::ERROR => 28,
            SyntaxKind::INSTRUCTION => 29,
            SyntaxKind::SOURCE_FILE => 30,
        }
    }

    /// The kind that is stored under `raw`, if there is one.
    pub open spec fn spec_from_raw(raw: u16) -> Option<SyntaxKind> {
        match raw {
            0 => Some(SyntaxKind::WHITESPACE),
            1 => Some(SyntaxKind::NEWLINE),
            2 => Some(SyntaxKind::COMMENT),
            3 => Some(SyntaxKind::IDENT),
            4 => Some(SyntaxKind::INT_NUMBER),
            5 => Some(SyntaxKind::STRING),
            6 => Some(SyntaxKind::REGISTER),
            7 => Some(SyntaxKind::COMMA),
            8 => Some(SyntaxKind::COLON),
            9 => Some(SyntaxKind::EQ),
            10 => Some(SyntaxKind::PLUS),
            11 => Some(SyntaxKind::MINUS),
            12 => Some(SyntaxKind::STAR),
            13 => Some(SyntaxKind::SLASH),
            14 => Some(SyntaxKind::PERCENT),
            15 => Some(SyntaxKind::AMP),
            16 => Some(SyntaxKind::PIPE),
            17 => Some(SyntaxKind::CARET),
            18 => Some(SyntaxKind::TILDE),
            19 => Some(SyntaxKind::BANG),
            20 => Some(SyntaxKind::L_ANGLE),
            21 => Some(SyntaxKind::R_ANGLE),
            22 => Some(SyntaxKind::L_PAREN),
            23 => Some(SyntaxKind::R_PAREN),
            24 => Some(SyntaxKind::L_BRACK),
            25 => Some(SyntaxKind::R_BRACK),
            26 => Some(SyntaxKind::L_CURLY),
            27 => Some(SyntaxKind::R_CURLY),
            28 => Some(SyntaxKind::ERROR),
            29 => Some(SyntaxKind::INSTRUCTION),
            30 => Some(SyntaxKind::SOURCE_FILE),
            _ => None,
        }
    }

    #[verifier::when_used_as_spec(spec_from_raw)]
    pub fn from_raw(raw: u16) -> (kind: Option<SyntaxKind>)
        ensures
            kind == SyntaxKind::spec_from_raw(raw),
            kind is Some <==> raw <= 30,
            kind matches Some(kind) ==> kind.raw() == raw,
    {
        match raw {
            0 => Some(SyntaxKind::WHITESPACE),
            1 => Some(SyntaxKind::NEWLINE),
            2 => Some(SyntaxKind::COMMENT),
            3 => Some(SyntaxKind::IDENT),
            4 => Some(SyntaxKind::INT_NUMBER),
            5 => Some(SyntaxKind::STRING),
            6 => Some(SyntaxKind::REGISTER),
            7 => Some(SyntaxKind::COMMA),
            8 => Some(SyntaxKind::COLON),
            9 => Some(SyntaxKind::EQ),
            10 => Some(SyntaxKind::PLUS),
            11 => Some(SyntaxKind::MINUS),
            12 => Some(SyntaxKind::STAR),
            13 => Some(SyntaxKind::SLASH),
            14 => Some(SyntaxKind::PERCENT),
            15 => Some(SyntaxKind::AMP),
            16 => Some(SyntaxKind::PIPE),
            17 => Some(SyntaxKind::CARET),
            18 => Some(SyntaxKind::TILDE),
            19 => Some(SyntaxKind::BANG),
            20 => Some(SyntaxKind::L_ANGLE),
            21 => Some(SyntaxKind::R_ANGLE),
            22 => Some(SyntaxKind::L_PAREN),
            23 => Some(SyntaxKind::R_PAREN),
            24 => Some(SyntaxKind::L_BRACK),
            25 => Some(SyntaxKind::R_BRACK),
            26 => Some(SyntaxKind::L_CURLY),
            27 => Some(SyntaxKind::R_CURLY),
            28 => Some(SyntaxKind::ERROR),
            29 => Some(SyntaxKind::INSTRUCTION),
            30 => Some(SyntaxKind::SOURCE_FILE),
            _ => None,
        }
    }

    /// Whether the kind carries no meaning: blanks and comments.
    pub open spec fn spec_is_trivia(self) -> bool {
        self == SyntaxKind::WHITESPACE || self == SyntaxKind::COMMENT
    }

    #[verifier::when_used_as_spec(spec_is_trivia)]
    pub fn is_trivia(self) -> (trivia: bool)
        ensures
            trivia == self.spec_is_trivia(),
    {
        self == SyntaxKind::WHITESPACE || self == SyntaxKind::COMMENT
    }
}

/// A kind is found again under its number.
pub proof fn lemma_from_raw_of_raw(kind: SyntaxKind)
    ensures
        SyntaxKind::spec_from_raw(kind.raw()) == Some(kind),
{
}

} // verus!
