//! From text to tree.
//!
//! The grammar is that of lines. What stands on a line, from its first token
//! that is neither a blank nor a comment up to the end of the line, is one
//! item: an instruction where that token is an identifier, an error otherwise.
//! Blanks and comments before the item, and the ends of lines, hang from the
//! root. Every token of the text is in the tree, so the tree spells out the
//! text it was made from.

use vstd::prelude::*;
use vstd::string::{StringExecFns, StringSliceAdditionalSpecFns};
use vstd::utf8::{
    encode_utf8_valid_utf8,
    is_char_boundary_iff_not_is_continuation_byte,
    is_char_boundary_start_end_of_seq,
};
use rowan::GreenNode;
use crate::parser::lexer::{chained, ends_between_characters, tokenize, tokens_from, Token};
use crate::parser::syntax_kind::SyntaxKind;
use crate::syntax::green::{
    builder_children,
    builder_finish,
    builder_finish_node,
    builder_new,
    builder_parents,
    builder_start_node,
    builder_token,
    green_shape,
    lemma_shapes_text_concat,
    lemma_shapes_text_push,
    shape_text,
    shapes_text,
    GreenShape,
};
use crate::syntax::syntax_error::{errors_view, SyntaxError, SyntaxErrorView, TextRange};

verus! {

/// The kind of the item whose first token has the kind `first`.
pub open spec fn item_kind(first: SyntaxKind) -> SyntaxKind {
    if first == SyntaxKind::IDENT {
        SyntaxKind::INSTRUCTION
    } else {
        SyntaxKind::ERROR
    }
}

/// Whether a token of the kind `kind` begins an item, on a line on which an
/// item is open or not.
pub open spec fn begins_item(open: bool, kind: SyntaxKind) -> bool {
    !open && !kind.is_trivia() && kind != SyntaxKind::NEWLINE
}

/// Whether an item is open after a token of the kind `kind`.
pub open spec fn open_after(open: bool, kind: SyntaxKind) -> bool {
    kind != SyntaxKind::NEWLINE && (open || !kind.is_trivia())
}

pub open spec fn unterminated_string_message() -> Seq<char> {
    "Missing trailing `\"` symbol to terminate the string literal"@
}

pub open spec fn register_name_message() -> Seq<char> {
    "Expected a register name after `$`"@
}

pub open spec fn unexpected_character_message() -> Seq<char> {
    "Unexpected character"@
}

pub open spec fn expected_instruction_message() -> Seq<char> {
    "Expected an instruction"@
}

/// The range of the text that a token covers.
pub open spec fn token_range(token: Token) -> TextRange {
    TextRange { start: token.start as u32, end: token.end as u32 }
}

/// What is wrong with a token, if anything: a token that the lexer could not
/// make sense of, or one that begins an item and is no mnemonic.
pub open spec fn token_error(bytes: Seq<u8>, token: Token, open: bool) -> Option<SyntaxErrorView> {
    if token.kind == SyntaxKind::ERROR {
        Some(
            SyntaxErrorView {
                message: if bytes[token.start as int] == 0x22 {
                    unterminated_string_message()
                } else if bytes[token.start as int] == 0x24 {
                    register_name_message()
                } else {
                    unexpected_character_message()
                },
                range: token_range(token),
            },
        )
    } else if begins_item(open, token.kind) && token.kind != SyntaxKind::IDENT {
        Some(SyntaxErrorView { message: expected_instruction_message(), range: token_range(token) })
    } else {
        None
    }
}

/// The errors of the tokens from the `index`-th on, in the order of the text.
pub open spec fn errors_from(bytes: Seq<u8>, tokens: Seq<Token>, index: int, open: bool) -> Seq<
    SyntaxErrorView,
>
    decreases tokens.len() - index,
{
    if 0 <= index < tokens.len() {
        let rest = errors_from(bytes, tokens, index + 1, open_after(open, tokens[index].kind));
        match token_error(bytes, tokens[index], open) {
            Some(error) => seq![error] + rest,
            None => rest,
        }
    } else {
        Seq::empty()
    }
}

/// The errors that the grammar finds in a text.
pub open spec fn grammar_errors(bytes: Seq<u8>) -> Seq<SyntaxErrorView> {
    errors_from(bytes, tokens_from(bytes, 0), 0, false)
}

/// Every token of a chain lies between the ends of the chain.
pub proof fn lemma_chained_bounds(tokens: Seq<Token>, from: int, to: int, index: int)
    requires
        chained(tokens, from, to),
        0 <= index < tokens.len(),
    ensures
        from <= tokens[index].start < tokens[index].end <= to,
    decreases tokens.len() - index, index,
{
    if index < tokens.len() - 1 {
        lemma_chained_bounds(tokens, from, to, index + 1);
        assert(tokens[index + 1].start == tokens[index].end);
    }
    if index > 0 {
        lemma_chained_start(tokens, from, to, index);
    }
}

/// No token of a chain starts before the chain.
pub proof fn lemma_chained_start(tokens: Seq<Token>, from: int, to: int, index: int)
    requires
        chained(tokens, from, to),
        0 <= index < tokens.len(),
    ensures
        from <= tokens[index].start,
    decreases index,
{
    if index > 0 {
        lemma_chained_start(tokens, from, to, index - 1);
        assert(tokens[(index - 1) + 1].start == tokens[index - 1].end);
    }
}

/// Whether a range covers at least one byte of a text of `length` bytes and
/// nothing outside it.
pub open spec fn lies_in_text(range: TextRange, length: int) -> bool {
    range.start < range.end <= length
}

/// Every error of the grammar points into the text.
pub proof fn lemma_errors_lie_in_text(bytes: Seq<u8>, tokens: Seq<Token>, index: int, open: bool)
    requires
        chained(tokens, 0, bytes.len() as int),
        bytes.len() <= u32::MAX,
        0 <= index <= tokens.len(),
    ensures
        forall|i: int|
            0 <= i < errors_from(bytes, tokens, index, open).len() ==> lies_in_text(
                (#[trigger] errors_from(bytes, tokens, index, open)[i]).range,
                bytes.len() as int,
            ),
    decreases tokens.len() - index,
{
    if index < tokens.len() {
        let next = open_after(open, tokens[index].kind);
        lemma_errors_lie_in_text(bytes, tokens, index + 1, next);
        lemma_chained_bounds(tokens, 0, bytes.len() as int, index);
        let rest = errors_from(bytes, tokens, index + 1, next);
        let all = errors_from(bytes, tokens, index, open);
        assert forall|i: int| 0 <= i < all.len() implies lies_in_text(
            (#[trigger] all[i]).range,
            bytes.len() as int,
        ) by {
            if token_error(bytes, tokens[index], open) is Some {
                if i > 0 {
                    assert(all[i] == rest[i - 1]);
                }
            }
        }
    }
}

fn error_at(message: &str, token: &Token) -> (error: SyntaxError)
    requires
        token.start <= token.end <= u32::MAX,
    ensures
        error@ == (SyntaxErrorView { message: message@, range: token_range(*token) }),
{
    SyntaxError::new(
        String::from_str(message),
        TextRange::new(token.start as u32, token.end as u32),
    )
}

/// Lists what the grammar finds wrong with the tokens of a text.
pub fn collect_errors(bytes: &[u8], tokens: &Vec<Token>) -> (errors: Vec<SyntaxError>)
    requires
        chained(tokens@, 0, bytes@.len() as int),
        bytes@.len() <= u32::MAX,
    ensures
        errors_view(errors@) == errors_from(bytes@, tokens@, 0, false),
{
    let mut errors: Vec<SyntaxError> = Vec::new();
    let mut open = false;
    let mut index: usize = 0;
    assert(errors_view(errors@) =~= Seq::<SyntaxErrorView>::empty());
    assert(Seq::<SyntaxErrorView>::empty() + errors_from(bytes@, tokens@, 0, false)
        =~= errors_from(bytes@, tokens@, 0, false));
    while index < tokens.len()
        invariant
            index <= tokens@.len(),
            chained(tokens@, 0, bytes@.len() as int),
            bytes@.len() <= u32::MAX,
            errors_view(errors@) + errors_from(bytes@, tokens@, index as int, open) == errors_from(
                bytes@,
                tokens@,
                0,
                false,
            ),
        decreases tokens@.len() - index,
    {
        let token = tokens[index];
        proof {
            lemma_chained_bounds(tokens@, 0, bytes@.len() as int, index as int);
        }
        let ghost before = errors_view(errors@);
        let ghost rest = errors_from(
            bytes@,
            tokens@,
            index + 1,
            open_after(open, token.kind),
        );
        let found = if token.kind == SyntaxKind::ERROR {
            let first = bytes[token.start];
            if first == 0x22 {
                Some(
                    error_at("Missing trailing `\"` symbol to terminate the string literal", &token),
                )
            } else if first == 0x24 {
                Some(error_at("Expected a register name after `$`", &token))
            } else {
                Some(error_at("Unexpected character", &token))
            }
        } else if !open && !token.kind.is_trivia() && token.kind != SyntaxKind::NEWLINE
            && token.kind != SyntaxKind::IDENT {
            Some(error_at("Expected an instruction", &token))
        } else {
            None
        };
        match found {
            Some(error) => {
                assert(errors_view(errors@.push(error)) =~= before.push(error@));
                assert(before.push(error@) + rest =~= before + (seq![error@] + rest));
                errors.push(error);
            },
            None => {},
        }
        open = token.kind != SyntaxKind::NEWLINE && (open || !token.kind.is_trivia());
        index += 1;
    }
    assert(errors_view(errors@) + Seq::<SyntaxErrorView>::empty() =~= errors_view(errors@));
    errors
}

/// The shape of a token: its kind, and the bytes of the text that it covers.
pub open spec fn token_shape(bytes: Seq<u8>, token: Token) -> GreenShape {
    GreenShape::Token {
        kind: token.kind.raw(),
        text: bytes.subrange(token.start as int, token.end as int),
    }
}

/// The item that is open on the line, if one is: its kind, and the tokens that
/// are in it so far.
pub type OpenItem = Option<(SyntaxKind, Seq<GreenShape>)>;

/// What the tokens from the `index`-th on put under the root, where `item` is
/// open before them. A token joins the open item. Without an open item, a
/// blank, a comment and the end of a line hang from the root, and any other
/// token opens an item. The end of a line, and the end of the text, close the
/// item.
pub open spec fn layout(bytes: Seq<u8>, tokens: Seq<Token>, index: int, item: OpenItem) -> Seq<
    GreenShape,
>
    decreases tokens.len() - index,
{
    if 0 <= index < tokens.len() {
        let token = tokens[index];
        let leaf = token_shape(bytes, token);
        match item {
            Some((kind, children)) => if token.kind == SyntaxKind::NEWLINE {
                seq![GreenShape::Node { kind: kind.raw(), children }, leaf] + layout(
                    bytes,
                    tokens,
                    index + 1,
                    None,
                )
            } else {
                layout(bytes, tokens, index + 1, Some((kind, children.push(leaf))))
            },
            None => if begins_item(false, token.kind) {
                layout(bytes, tokens, index + 1, Some((item_kind(token.kind), seq![leaf])))
            } else {
                seq![leaf] + layout(bytes, tokens, index + 1, None)
            },
        }
    } else {
        match item {
            Some((kind, children)) => seq![GreenShape::Node { kind: kind.raw(), children }],
            None => Seq::empty(),
        }
    }
}

/// The shape of the tree of a text.
pub open spec fn source_shape(bytes: Seq<u8>) -> GreenShape {
    GreenShape::Node {
        kind: SyntaxKind::SOURCE_FILE.raw(),
        children: layout(bytes, tokens_from(bytes, 0), 0, None),
    }
}

/// Builds the tree of a text from its tokens. The root has the kind
/// `SOURCE_FILE`, its children are laid out as `layout` says, and the tree
/// spells out the text.
pub fn build_tree(text: &str, tokens: &Vec<Token>) -> (tree: GreenNode)
    requires
        chained(tokens@, 0, text.spec_bytes().len() as int),
        ends_between_characters(text.spec_bytes(), tokens@),
        text.spec_bytes().len() <= u32::MAX,
    ensures
        green_shape(tree) == (GreenShape::Node {
            kind: SyntaxKind::SOURCE_FILE.raw(),
            children: layout(text.spec_bytes(), tokens@, 0, None),
        }),
        shape_text(green_shape(tree)) == text.spec_bytes(),
{
    let ghost bytes = text.spec_bytes();
    let ghost total = bytes.len() as int;
    let root = SyntaxKind::SOURCE_FILE.to_raw();
    let mut builder = builder_new();
    builder_start_node(&mut builder, root);
    let mut rest: &str = text;
    let mut open = false;
    let mut index: usize = 0;
    let ghost mut pos: int = 0;
    let ghost mut done: Seq<GreenShape> = Seq::empty();
    let ghost mut item: OpenItem = None;
    proof {
        assert(builder_children(builder) =~= Seq::empty());
        assert(bytes.subrange(0, 0) =~= shapes_text(builder_children(builder)));
        assert(bytes.subrange(0, total) =~= bytes);
        assert(builder_parents(builder) =~= seq![(root, 0int)]);
        assert(done + layout(bytes, tokens@, 0, None) =~= layout(bytes, tokens@, 0, None));
    }
    while index < tokens.len()
        invariant
            index <= tokens@.len(),
            bytes == text.spec_bytes(),
            total == bytes.len(),
            total <= u32::MAX,
            root == SyntaxKind::SOURCE_FILE.raw(),
            chained(tokens@, 0, total),
            ends_between_characters(bytes, tokens@),
            0 <= pos <= total,
            index < tokens@.len() ==> pos == tokens@[index as int].start,
            index == tokens@.len() ==> pos == total,
            rest.spec_bytes() == bytes.subrange(pos, total),
            shapes_text(builder_children(builder)) == bytes.subrange(0, pos),
            builder_parents(builder).len() == (if open {
                2int
            } else {
                1int
            }),
            builder_parents(builder)[0] == (root, 0int),
            open == (item is Some),
            item matches Some((kind, children)) ==> builder_parents(builder)[1] == (
                kind.raw(),
                done.len() as int,
            ) && builder_children(builder) == done + children,
            item is None ==> builder_children(builder) == done,
            done + layout(bytes, tokens@, index as int, item) == layout(bytes, tokens@, 0, None),
        decreases tokens@.len() - index,
    {
        let token = tokens[index];
        proof {
            lemma_chained_bounds(tokens@, 0, total, index as int);
        }
        let length = token.end - token.start;
        let ghost rest_bytes = rest.spec_bytes();
        proof {
            encode_utf8_valid_utf8(rest@);
            if token.end == total {
                is_char_boundary_start_end_of_seq(rest_bytes);
            } else {
                assert(rest_bytes[length as int] == bytes[token.end as int]);
                is_char_boundary_iff_not_is_continuation_byte(rest_bytes, length as int);
            }
        }
        let (piece, remaining) = rest.split_at(length);
        let ghost leaf = token_shape(bytes, token);
        let ghost after = layout(bytes, tokens@, 0, None);
        proof {
            assert(piece.spec_bytes() =~= bytes.subrange(pos, token.end as int));
            assert(remaining.spec_bytes() =~= bytes.subrange(token.end as int, total));
        }
        if token.kind == SyntaxKind::NEWLINE {
            if open {
                let ghost children = builder_children(builder);
                let ghost inside = item.unwrap().1;
                let ghost node = GreenShape::Node { kind: item.unwrap().0.raw(), children: inside };
                proof {
                    assert(builder_parents(builder).last() == builder_parents(builder)[1]);
                    assert(children.subrange(0, done.len() as int) =~= done);
                    assert(children.subrange(done.len() as int, children.len() as int) =~= inside);
                    lemma_shapes_text_concat(done, inside);
                    lemma_shapes_text_push(done, node);
                    assert(shapes_text(inside) == shape_text(node));
                    assert((done.push(node).push(leaf)) + layout(
                        bytes,
                        tokens@,
                        index + 1,
                        None,
                    ) =~= done + (seq![node, leaf] + layout(bytes, tokens@, index + 1, None)));
                }
                builder_finish_node(&mut builder);
                proof {
                    done = done.push(node);
                    item = None;
                }
                open = false;
            } else {
                proof {
                    assert(done.push(leaf) + layout(bytes, tokens@, index + 1, None) =~= done + (
                    seq![leaf] + layout(bytes, tokens@, index + 1, None)));
                }
            }
            proof {
                done = done.push(leaf);
            }
        } else if !open && !token.kind.is_trivia() {
            let kind = if token.kind == SyntaxKind::IDENT {
                SyntaxKind::INSTRUCTION
            } else {
                SyntaxKind::ERROR
            };
            builder_start_node(&mut builder, kind.to_raw());
            open = true;
            proof {
                item = Some((kind, seq![leaf]));
                assert(done + seq![leaf] =~= done.push(leaf));
            }
        } else {
            proof {
                match item {
                    Some((kind, children)) => {
                        item = Some((kind, children.push(leaf)));
                        assert(done + children.push(leaf) =~= (done + children).push(leaf));
                    },
                    None => {
                        assert(done.push(leaf) + layout(bytes, tokens@, index + 1, None) =~= done
                            + (seq![leaf] + layout(bytes, tokens@, index + 1, None)));
                        done = done.push(leaf);
                    },
                }
            }
        }
        let ghost children = builder_children(builder);
        assert(shapes_text(children) == bytes.subrange(0, pos));
        builder_token(&mut builder, token.kind.to_raw(), piece);
        proof {
            assert(builder_children(builder) == children.push(leaf));
            lemma_shapes_text_push(children, leaf);
            assert(bytes.subrange(0, pos) + bytes.subrange(pos, token.end as int)
                =~= bytes.subrange(0, token.end as int));
            if index + 1 < tokens@.len() {
                assert(tokens@[index + 1].start == tokens@[index as int].end);
            } else {
                assert(tokens@.last() == tokens@[index as int]);
            }
            pos = token.end as int;
        }
        rest = remaining;
        index += 1;
    }
    if open {
        let ghost children = builder_children(builder);
        let ghost inside = item.unwrap().1;
        let ghost node = GreenShape::Node { kind: item.unwrap().0.raw(), children: inside };
        proof {
            assert(builder_parents(builder).last() == builder_parents(builder)[1]);
            assert(children.subrange(0, done.len() as int) =~= done);
            assert(children.subrange(done.len() as int, children.len() as int) =~= inside);
            lemma_shapes_text_concat(done, inside);
            lemma_shapes_text_push(done, node);
            assert(shapes_text(inside) == shape_text(node));
            assert(done.push(node) =~= done + seq![node]);
        }
        builder_finish_node(&mut builder);
        proof {
            done = done.push(node);
        }
    } else {
        proof {
            assert(done + Seq::<GreenShape>::empty() =~= done);
        }
    }
    let ghost children = builder_children(builder);
    proof {
        assert(children == layout(bytes, tokens@, 0, None));
        assert(builder_parents(builder).last() == builder_parents(builder)[0]);
        assert(children.subrange(0, children.len() as int) =~= children);
        assert(children.subrange(0, 0).push(GreenShape::Node { kind: root, children })
            =~= seq![GreenShape::Node { kind: root, children }]);
        assert(bytes.subrange(0, total) =~= bytes);
    }
    builder_finish_node(&mut builder);
    builder_finish(builder)
}

/// Parses a text: the tree, and what the grammar finds wrong with the text.
pub fn parse_text(text: &str) -> (parsed: (GreenNode, Vec<SyntaxError>))
    requires
        text.spec_bytes().len() <= u32::MAX,
    ensures
        green_shape(parsed.0) == source_shape(text.spec_bytes()),
        shape_text(green_shape(parsed.0)) == text.spec_bytes(),
        errors_view(parsed.1@) == grammar_errors(text.spec_bytes()),
{
    let bytes = text.as_bytes();
    let tokens = tokenize(bytes);
    let tree = build_tree(text, &tokens);
    let errors = collect_errors(bytes, &tokens);
    (tree, errors)
}

} // verus!
