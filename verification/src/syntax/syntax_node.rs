//! The root node of a syntax tree.

use vstd::prelude::*;
use rowan::GreenNode;
use crate::parser::syntax_kind::SyntaxKind;
use crate::syntax::green::{green_clone, green_kind, green_kind_of, green_shape, GreenShape};

verus! {

/// A handle to the root of a tree. Its kind is one of the kinds of this
/// grammar.
pub struct SyntaxNode {
    green: GreenNode,
}

impl SyntaxNode {
    #[verifier::type_invariant]
    spec fn kind_is_known(&self) -> bool {
        SyntaxKind::spec_from_raw(green_kind(self.green)) is Some
    }

    /// The shape of the tree.
    pub closed spec fn shape(&self) -> GreenShape {
        green_shape(self.green)
    }

    /// The kind of the node.
    pub closed spec fn spec_kind(&self) -> SyntaxKind {
        SyntaxKind::spec_from_raw(green_kind(self.green)).unwrap()
    }

    /// The root of `green`, or nothing where the kind of the root is none of
    /// this grammar.
    pub fn new_root(green: GreenNode) -> (node: Option<SyntaxNode>)
        ensures
            node is Some <==> SyntaxKind::spec_from_raw(green_kind(green)) is Some,
            node matches Some(node) ==> node.shape() == green_shape(green) && Some(
                node.spec_kind(),
            ) == SyntaxKind::spec_from_raw(green_kind(green)),
    {
        match SyntaxKind::from_raw(green_kind_of(&green)) {
            Some(_) => Some(SyntaxNode { green }),
            None => None,
        }
    }

    #[verifier::when_used_as_spec(spec_kind)]
    pub fn kind(&self) -> (kind: SyntaxKind)
        ensures
            kind == self.spec_kind(),
    {
        proof {
            use_type_invariant(self);
        }
        match SyntaxKind::from_raw(green_kind_of(&self.green)) {
            Some(kind) => kind,
            None => vstd::pervasive::unreached(),
        }
    }

    /// The tree that the node is the root of.
    pub fn green(&self) -> (green: GreenNode)
        ensures
            green_shape(green) == self.shape(),
    {
        green_clone(&self.green)
    }
}

} // verus!
