//! What is wrong with a text that the grammar accepts.
//!
//! A number is written with as many digits as one likes, but it has to fit 32
//! bits.

use vstd::prelude::*;
use vstd::string::StringExecFns;
use crate::parser::lexer::{chained, is_digit, tokens_from, Token};
use crate::parser::syntax_kind::SyntaxKind;
use crate::syntax::parsing::{lemma_chained_bounds, lies_in_text, token_range};
use crate::syntax::syntax_error::{errors_view, SyntaxError, SyntaxErrorView, TextRange};

verus! {

/// The digit that a byte stands for.
pub open spec fn digit_value(byte: u8) -> nat {
    if is_digit(byte) {
        (byte - 0x30) as nat
    } else {
        0
    }
}

/// The number that the bytes from `start` up to `end` spell out in decimal.
pub open spec fn decimal_value(bytes: Seq<u8>, start: int, end: int) -> nat
    decreases end - start,
{
    if start < end {
        decimal_value(bytes, start, end - 1) * 10 + digit_value(bytes[end - 1])
    } else {
        0
    }
}

pub open spec fn too_large_message() -> Seq<char> {
    "Integer literal does not fit 32 bits"@
}

/// Whether the token is a number that does not fit 32 bits.
pub open spec fn is_too_large(bytes: Seq<u8>, token: Token) -> bool {
    token.kind == SyntaxKind::INT_NUMBER && decimal_value(
        bytes,
        token.start as int,
        token.end as int,
    ) > u32::MAX
}

/// The errors of the tokens from the `index`-th on, in the order of the text.
pub open spec fn validation_errors_from(bytes: Seq<u8>, tokens: Seq<Token>, index: int) -> Seq<
    SyntaxErrorView,
>
    decreases tokens.len() - index,
{
    if 0 <= index < tokens.len() {
        let rest = validation_errors_from(bytes, tokens, index + 1);
        if is_too_large(bytes, tokens[index]) {
            seq![SyntaxErrorView { message: too_large_message(), range: token_range(tokens[index]) }]
                + rest
        } else {
            rest
        }
    } else {
        Seq::empty()
    }
}

/// What validation finds in a text.
pub open spec fn validation_errors(bytes: Seq<u8>) -> Seq<SyntaxErrorView> {
    validation_errors_from(bytes, tokens_from(bytes, 0), 0)
}

/// More digits do not make a number smaller.
pub proof fn lemma_decimal_value_grows(bytes: Seq<u8>, start: int, middle: int, end: int)
    requires
        start <= middle <= end,
    ensures
        decimal_value(bytes, start, middle) <= decimal_value(bytes, start, end),
    decreases end - middle,
{
    if middle < end {
        lemma_decimal_value_grows(bytes, start, middle, end - 1);
    }
}

/// Every error of validation points into the text.
pub proof fn lemma_validation_errors_lie_in_text(bytes: Seq<u8>, tokens: Seq<Token>, index: int)
    requires
        chained(tokens, 0, bytes.len() as int),
        bytes.len() <= u32::MAX,
        0 <= index <= tokens.len(),
    ensures
        forall|i: int|
            0 <= i < validation_errors_from(bytes, tokens, index).len() ==> lies_in_text(
                (#[trigger] validation_errors_from(bytes, tokens, index)[i]).range,
                bytes.len() as int,
            ),
    decreases tokens.len() - index,
{
    if index < tokens.len() {
        lemma_validation_errors_lie_in_text(bytes, tokens, index + 1);
        lemma_chained_bounds(tokens, 0, bytes.len() as int, index);
        let rest = validation_errors_from(bytes, tokens, index + 1);
        let all = validation_errors_from(bytes, tokens, index);
        assert forall|i: int| 0 <= i < all.len() implies lies_in_text(
            (#[trigger] all[i]).range,
            bytes.len() as int,
        ) by {
            if is_too_large(bytes, tokens[index]) {
                if i > 0 {
                    assert(all[i] == rest[i - 1]);
                }
            }
        }
    }
}

/// Whether the digits of the token spell out more than 32 bits hold.
fn exceeds_32_bits(bytes: &[u8], token: &Token) -> (exceeds: bool)
    requires
        token.start <= token.end <= bytes@.len(),
    ensures
        exceeds == (decimal_value(bytes@, token.start as int, token.end as int) > u32::MAX),
{
    let mut value: u64 = 0;
    let mut index = token.start;
    while index < token.end
        invariant
            token.start <= index <= token.end <= bytes@.len(),
            value == decimal_value(bytes@, token.start as int, index as int),
            value <= u32::MAX,
        decreases token.end - index,
    {
        let byte = bytes[index];
        let digit: u64 = if 0x30 <= byte && byte <= 0x39 {
            (byte - 0x30) as u64
        } else {
            0
        };
        value = value * 10 + digit;
        index += 1;
        if value > u32::MAX as u64 {
            proof {
                lemma_decimal_value_grows(
                    bytes@,
                    token.start as int,
                    index as int,
                    token.end as int,
                );
            }
            return true;
        }
    }
    false
}

/// Lists what validation finds wrong with the tokens of a text.
pub fn validate(bytes: &[u8], tokens: &Vec<Token>) -> (errors: Vec<SyntaxError>)
    requires
        chained(tokens@, 0, bytes@.len() as int),
        bytes@.len() <= u32::MAX,
    ensures
        errors_view(errors@) == validation_errors_from(bytes@, tokens@, 0),
{
    let mut errors: Vec<SyntaxError> = Vec::new();
    let mut index: usize = 0;
    assert(errors_view(errors@) =~= Seq::<SyntaxErrorView>::empty());
    assert(Seq::<SyntaxErrorView>::empty() + validation_errors_from(bytes@, tokens@, 0)
        =~= validation_errors_from(bytes@, tokens@, 0));
    while index < tokens.len()
        invariant
            index <= tokens@.len(),
            chained(tokens@, 0, bytes@.len() as int),
            bytes@.len() <= u32::MAX,
            errors_view(errors@) + validation_errors_from(bytes@, tokens@, index as int)
                == validation_errors_from(bytes@, tokens@, 0),
        decreases tokens@.len() - index,
    {
        let token = tokens[index];
        proof {
            lemma_chained_bounds(tokens@, 0, bytes@.len() as int, index as int);
        }
        if token.kind == SyntaxKind::INT_NUMBER && exceeds_32_bits(bytes, &token) {
            let error = SyntaxError::new(
                String::from_str("Integer literal does not fit 32 bits"),
                TextRange::new(token.start as u32, token.end as u32),
            );
            let ghost before = errors_view(errors@);
            let ghost rest = validation_errors_from(bytes@, tokens@, index + 1);
            assert(errors_view(errors@.push(error)) =~= before.push(error@));
            assert(before.push(error@) + rest =~= before + (seq![error@] + rest));
            errors.push(error);
        }
        index += 1;
    }
    assert(errors_view(errors@) + Seq::<SyntaxErrorView>::empty() =~= errors_view(errors@));
    errors
}

} // verus!
