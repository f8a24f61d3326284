//! The lossless syntax tree.
//!
//! Parsing a text always gives a tree, also where the text is not what the
//! grammar asks for: what is wrong stands in the tree as a token or a node of
//! the kind `ERROR`, and is listed beside the tree with its place in the text.
//! A tree is never changed once it is made.

pub mod ast;
pub mod green;
pub mod parsing;
pub mod syntax_error;
pub mod syntax_node;
pub mod validation;

use vstd::prelude::*;
use vstd::pervasive::unreached;
use vstd::string::StringSliceAdditionalSpecFns;
use core::marker::PhantomData;
use std::sync::Arc;
use rowan::GreenNode;
use crate::parser::lexer::{lemma_tokens_cover, tokenize, tokens_from};
use crate::parser::syntax_kind::{lemma_from_raw_of_raw, SyntaxKind};
use crate::syntax::ast::{AstNode, SourceFile};
use crate::syntax::green::{
    green_clone,
    green_kind,
    green_shape,
    shape_kind,
    shape_text,
    GreenShape,
};
use crate::syntax::parsing::{
    build_tree,
    collect_errors,
    grammar_errors,
    lemma_errors_lie_in_text,
    lies_in_text,
    source_shape,
};
use crate::syntax::syntax_error::{errors_view, SyntaxError, SyntaxErrorView};
use crate::syntax::syntax_node::SyntaxNode;
use crate::syntax::validation::{lemma_validation_errors_lie_in_text, validate, validation_errors};

verus! {

/// `Arc::clone`: another handle to the same list.
#[verifier::external_body]
fn share_errors(errors: &Arc<Vec<SyntaxError>>) -> (shared: Arc<Vec<SyntaxError>>)
    ensures
        shared == *errors,
{
    Arc::clone(errors)
}

/// `Parse` is the result of the parsing: a syntax tree and a collection of
/// errors.
///
/// Note that we always produce a syntax tree, even for completely invalid
/// files.
pub struct Parse<T: AstNode> {
    green: GreenNode,
    errors: Arc<Vec<SyntaxError>>,
    _ty: PhantomData<T>,
}

impl<T: AstNode> Clone for Parse<T> {
    fn clone(&self) -> (copy: Parse<T>)
        ensures
            copy.shape() == self.shape(),
            copy.error_views() == self.error_views(),
    {
        proof {
            use_type_invariant(self);
        }
        Parse { green: green_clone(&self.green), errors: share_errors(&self.errors), _ty: PhantomData }
    }
}

impl<T: AstNode> Parse<T> {
    #[verifier::type_invariant]
    spec fn root_is_viewable(&self) -> bool {
        SyntaxKind::spec_from_raw(green_kind(self.green)) matches Some(kind) && T::accepts(kind)
    }

    /// The shape of the tree.
    pub closed spec fn shape(&self) -> GreenShape {
        green_shape(self.green)
    }

    /// The kind of the root of the tree.
    pub closed spec fn kind(&self) -> SyntaxKind {
        SyntaxKind::spec_from_raw(green_kind(self.green)).unwrap()
    }

    /// The errors that were found, in the order in which they were found.
    pub closed spec fn error_views(&self) -> Seq<SyntaxErrorView> {
        errors_view(self.errors@)
    }

    fn new(green: GreenNode, errors: Vec<SyntaxError>) -> (parse: Parse<T>)
        requires
            SyntaxKind::spec_from_raw(green_kind(green)) matches Some(kind) && T::accepts(kind),
        ensures
            parse.shape() == green_shape(green),
            parse.error_views() == errors_view(errors@),
    {
        Parse { green, errors: Arc::new(errors), _ty: PhantomData }
    }

    /// Every tree can be viewed as what it was parsed as.
    pub fn check_viewable(&self)
        ensures
            T::accepts(self.kind()),
            shape_kind(self.shape()) == self.kind().raw(),
    {
        proof {
            use_type_invariant(self);
        }
    }

    /// The root of the tree.
    pub fn syntax_node(&self) -> (node: SyntaxNode)
        ensures
            node.shape() == self.shape(),
            node.spec_kind() == self.kind(),
    {
        proof {
            use_type_invariant(self);
        }
        match SyntaxNode::new_root(green_clone(&self.green)) {
            Some(node) => node,
            None => unreached(),
        }
    }

    pub fn errors(&self) -> (errors: &[SyntaxError])
        ensures
            errors_view(errors@) == self.error_views(),
    {
        self.errors.as_slice()
    }

    /// The same tree and errors, with the root seen as a plain node.
    pub fn to_syntax(self) -> (parse: Parse<SyntaxNode>)
        ensures
            parse.shape() == self.shape(),
            parse.kind() == self.kind(),
            parse.error_views() == self.error_views(),
    {
        proof {
            use_type_invariant(&self);
        }
        Parse { green: self.green, errors: self.errors, _ty: PhantomData }
    }

    /// The typed view of the root.
    pub fn tree(&self) -> (tree: T)
        ensures
            tree.node().shape() == self.shape(),
            tree.node().spec_kind() == self.kind(),
    {
        proof {
            use_type_invariant(self);
        }
        match T::cast(self.syntax_node()) {
            Some(tree) => tree,
            None => unreached(),
        }
    }

    /// The typed view of the root where nothing is wrong with the text, the
    /// list of what is wrong otherwise.
    pub fn ok(self) -> (result: Result<T, Arc<Vec<SyntaxError>>>)
        ensures
            result is Ok <==> self.error_views().len() == 0,
            result matches Ok(tree) ==> tree.node().shape() == self.shape(),
            result matches Err(errors) ==> errors_view(errors@) == self.error_views(),
    {
        if self.errors.is_empty() {
            Ok(self.tree())
        } else {
            Err(self.errors)
        }
    }
}

impl Parse<SyntaxNode> {
    /// The same tree and errors with the root seen as an `N`, where the root
    /// is of a kind that `N` accepts; nothing otherwise.
    pub fn cast<N: AstNode>(self) -> (parse: Option<Parse<N>>)
        ensures
            parse is Some <==> N::accepts(self.kind()),
            parse matches Some(parse) ==> parse.shape() == self.shape() && parse.kind()
                == self.kind() && parse.error_views() == self.error_views(),
    {
        proof {
            use_type_invariant(&self);
        }
        if N::cast(self.syntax_node()).is_some() {
            Some(Parse { green: self.green, errors: self.errors, _ty: PhantomData })
        } else {
            None
        }
    }
}

/// Whether `parse` is what parsing the text `bytes` gives: the tree is laid
/// out as the grammar says, and the errors are those of the grammar followed
/// by those of validation.
pub open spec fn is_parse_of(parse: Parse<SourceFile>, bytes: Seq<u8>) -> bool {
    &&& parse.kind() == SyntaxKind::SOURCE_FILE
    &&& parse.shape() == source_shape(bytes)
    &&& parse.error_views() == grammar_errors(bytes) + validation_errors(bytes)
}

/// Parsing the same text twice gives trees of the same shape and the same
/// errors in the same order.
pub proof fn law_parsing_is_repeatable(
    first: Parse<SourceFile>,
    second: Parse<SourceFile>,
    bytes: Seq<u8>,
)
    requires
        is_parse_of(first, bytes),
        is_parse_of(second, bytes),
    ensures
        first.shape() == second.shape(),
        first.kind() == second.kind(),
        first.error_views() == second.error_views(),
{
}

/// Every error that parsing a text finds carries a range that covers at least
/// one byte of the text and nothing outside it.
pub proof fn law_errors_point_into_text(parse: Parse<SourceFile>, bytes: Seq<u8>)
    requires
        is_parse_of(parse, bytes),
        bytes.len() <= u32::MAX,
    ensures
        forall|i: int|
            0 <= i < parse.error_views().len() ==> lies_in_text(
                (#[trigger] parse.error_views()[i]).range,
                bytes.len() as int,
            ),
{
    let tokens = tokens_from(bytes, 0);
    lemma_tokens_cover(bytes, 0);
    lemma_errors_lie_in_text(bytes, tokens, 0, false);
    lemma_validation_errors_lie_in_text(bytes, tokens, 0);
    let grammar = grammar_errors(bytes);
    let all = parse.error_views();
    assert forall|i: int| 0 <= i < all.len() implies lies_in_text(
        (#[trigger] all[i]).range,
        bytes.len() as int,
    ) by {
        if i >= grammar.len() {
            assert(all[i] == validation_errors(bytes)[i - grammar.len()]);
        } else {
            assert(all[i] == grammar[i]);
        }
    }
}

impl SourceFile {
    /// Parses a text. There is always a tree: its root is of the kind
    /// `SOURCE_FILE`, it is laid out as `source_shape` says, and it spells out
    /// the text byte for byte. Beside it stand the errors of the grammar, and
    /// after them those that validation finds.
    ///
    /// Places in a text are counted in 32 bits, so the text must not be
    /// longer than that.
    pub fn parse(text: &str) -> (parse: Parse<SourceFile>)
        requires
            text.spec_bytes().len() <= u32::MAX,
        ensures
            is_parse_of(parse, text.spec_bytes()),
            shape_text(parse.shape()) == text.spec_bytes(),
    {
        let bytes = text.as_bytes();
        let tokens = tokenize(bytes);
        let green = build_tree(text, &tokens);
        let mut errors = collect_errors(bytes, &tokens);
        let mut found = validate(bytes, &tokens);
        let ghost grammar = errors@;
        let ghost validation = found@;
        errors.append(&mut found);
        proof {
            assert(errors_view(grammar + validation) =~= errors_view(grammar) + errors_view(
                validation,
            ));
            lemma_from_raw_of_raw(SyntaxKind::SOURCE_FILE);
        }
        Parse::new(green, errors)
    }
}

} // verus!
