//! Typed views of the nodes of a tree.

use vstd::prelude::*;
use crate::parser::syntax_kind::SyntaxKind;
use crate::syntax::syntax_node::SyntaxNode;

verus! {

/// A typed view of a node. A node can be viewed as `Self` where its kind is
/// one that `Self` accepts; the view holds the node and nothing else.
pub trait AstNode: Sized {
    /// Whether a node of the kind `kind` can be viewed as `Self`.
    spec fn accepts(kind: SyntaxKind) -> bool;

    /// The node that is viewed.
    spec fn node(&self) -> SyntaxNode;

    fn can_cast(kind: SyntaxKind) -> (possible: bool)
        ensures
            possible == Self::accepts(kind),
    ;

    fn cast(syntax: SyntaxNode) -> (view: Option<Self>)
        ensures
            view is Some <==> Self::accepts(syntax.spec_kind()),
            view matches Some(view) ==> view.node() == syntax,
    ;

    fn syntax(&self) -> (syntax: &SyntaxNode)
        ensures
            *syntax == self.node(),
    ;
}

/// Every node can be viewed as a node.
impl AstNode for SyntaxNode {
    open spec fn accepts(kind: SyntaxKind) -> bool {
        true
    }

    open spec fn node(&self) -> SyntaxNode {
        *self
    }

    fn can_cast(kind: SyntaxKind) -> (possible: bool) {
        true
    }

    fn cast(syntax: SyntaxNode) -> (view: Option<SyntaxNode>) {
        Some(syntax)
    }

    fn syntax(&self) -> (syntax: &SyntaxNode) {
        self
    }
}

/// The root of the tree of a whole file.
pub struct SourceFile {
    syntax: SyntaxNode,
}

impl AstNode for SourceFile {
    open spec fn accepts(kind: SyntaxKind) -> bool {
        kind == SyntaxKind::SOURCE_FILE
    }

    closed spec fn node(&self) -> SyntaxNode {
        self.syntax
    }

    fn can_cast(kind: SyntaxKind) -> (possible: bool) {
        kind == SyntaxKind::SOURCE_FILE
    }

    fn cast(syntax: SyntaxNode) -> (view: Option<SourceFile>) {
        if Self::can_cast(syntax.kind()) {
            Some(SourceFile { syntax })
        } else {
            None
        }
    }

    fn syntax(&self) -> (syntax: &SyntaxNode) {
        &self.syntax
    }
}

} // verus!
