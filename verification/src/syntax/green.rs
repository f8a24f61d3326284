//! The immutable trees of the `rowan` crate, as far as the parser needs them.
//!
//! A tree is known here by its shape: the kind of each node, the kind and the
//! text of each token, and the order of the children. A builder is known by
//! two lists: the nodes that have been started and not yet finished, and the
//! elements that wait for a parent.

use vstd::prelude::*;
use vstd::string::StringSliceAdditionalSpecFns;
use rowan::{GreenNode, GreenNodeBuilder};

verus! {

#[verifier::external_type_specification]
#[verifier::external_body]
pub struct ExGreenNode(GreenNode);

#[verifier::external_type_specification]
#[verifier::external_body]
pub struct ExGreenNodeBuilder<'cache>(GreenNodeBuilder<'cache>);

/// The shape of a tree or of a part of one. Kinds are the numbers that they
/// are stored under, and texts are bytes.
pub enum GreenShape {
    Token { kind: u16, text: Seq<u8> },
    Node { kind: u16, children: Seq<GreenShape> },
}

/// The text that a shape spells out: the texts of its tokens in order.
pub open spec fn shape_text(shape: GreenShape) -> Seq<u8>
    decreases shape, 0nat,
{
    match shape {
        GreenShape::Token { kind, text } => text,
        GreenShape::Node { kind, children } => prefix_text(children, children.len()),
    }
}

/// The text that the first `count` of the shapes spell out.
pub open spec fn prefix_text(shapes: Seq<GreenShape>, count: nat) -> Seq<u8>
    decreases shapes, count,
{
    if 0 < count <= shapes.len() {
        prefix_text(shapes, (count - 1) as nat) + shape_text(shapes[count - 1])
    } else {
        Seq::empty()
    }
}

/// The text that the shapes spell out, one after the other.
pub open spec fn shapes_text(shapes: Seq<GreenShape>) -> Seq<u8> {
    prefix_text(shapes, shapes.len())
}

/// The kind of a shape.
pub open spec fn shape_kind(shape: GreenShape) -> u16 {
    match shape {
        GreenShape::Token { kind, text } => kind,
        GreenShape::Node { kind, children } => kind,
    }
}

/// The kind of the root of a tree.
pub uninterp spec fn green_kind(node: GreenNode) -> u16;

/// What hangs from the root of a tree: the shapes of its children, in order.
pub uninterp spec fn green_children(node: GreenNode) -> Seq<GreenShape>;

/// The nodes of a builder that have been started and not finished, the
/// innermost last: the kind of each, and how many elements were waiting when
/// it was started.
pub uninterp spec fn builder_parents(builder: GreenNodeBuilder<'static>) -> Seq<(u16, int)>;

/// The elements of a builder that wait for a parent, in order.
pub uninterp spec fn builder_children(builder: GreenNodeBuilder<'static>) -> Seq<GreenShape>;

/// The shape of a tree.
pub open spec fn green_shape(node: GreenNode) -> GreenShape {
    GreenShape::Node { kind: green_kind(node), children: green_children(node) }
}

/// The text of a tree.
pub open spec fn green_text(node: GreenNode) -> Seq<u8> {
    shape_text(green_shape(node))
}

/// The text of a list of shapes does not depend on what follows the list.
pub proof fn lemma_prefix_text_of_prefix(shapes: Seq<GreenShape>, longer: Seq<GreenShape>, count: nat)
    requires
        count <= shapes.len() <= longer.len(),
        forall|i: int| 0 <= i < shapes.len() ==> shapes[i] == longer[i],
    ensures
        prefix_text(shapes, count) == prefix_text(longer, count),
    decreases count,
{
    if count > 0 {
        lemma_prefix_text_of_prefix(shapes, longer, (count - 1) as nat);
    }
}

/// One more shape at the end adds its text at the end.
pub proof fn lemma_shapes_text_push(shapes: Seq<GreenShape>, last: GreenShape)
    ensures
        shapes_text(shapes.push(last)) == shapes_text(shapes) + shape_text(last),
{
    lemma_prefix_text_of_prefix(shapes, shapes.push(last), shapes.len());
}

/// The text of two lists of shapes is the text of the first followed by the
/// text of the second.
pub proof fn lemma_shapes_text_concat(front: Seq<GreenShape>, back: Seq<GreenShape>)
    ensures
        shapes_text(front + back) == shapes_text(front) + shapes_text(back),
    decreases back.len(),
{
    if back.len() == 0 {
        assert(front + back =~= front);
        assert(shapes_text(front) + shapes_text(back) =~= shapes_text(front));
    } else {
        let shorter = back.drop_last();
        lemma_shapes_text_concat(front, shorter);
        assert(front + back =~= (front + shorter).push(back.last()));
        assert(back =~= shorter.push(back.last()));
        lemma_shapes_text_push(front + shorter, back.last());
        lemma_shapes_text_push(shorter, back.last());
        assert((shapes_text(front) + shapes_text(shorter)) + shape_text(back.last())
            =~= shapes_text(front) + (shapes_text(shorter) + shape_text(back.last())));
    }
}

/// `GreenNodeBuilder::new`: nothing has been started and nothing waits.
#[verifier::external_body]
pub(crate) fn builder_new() -> (builder: GreenNodeBuilder<'static>)
    ensures
        builder_parents(builder).len() == 0,
        builder_children(builder).len() == 0,
{
    GreenNodeBuilder::new()
}

/// `GreenNodeBuilder::token`: a token of the given kind and text is put after
/// the elements that wait.
#[verifier::external_body]
pub(crate) fn builder_token(builder: &mut GreenNodeBuilder<'static>, kind: u16, text: &str)
    ensures
        builder_parents(*final(builder)) == builder_parents(*old(builder)),
        builder_children(*final(builder)) == builder_children(*old(builder)).push(
            (GreenShape::Token { kind, text: text.spec_bytes() }),
        ),
{
    builder.token(rowan::SyntaxKind(kind), text)
}

/// `GreenNodeBuilder::start_node`: a node of the given kind is started; the
/// elements that are added from now on will be its children.
#[verifier::external_body]
pub(crate) fn builder_start_node(builder: &mut GreenNodeBuilder<'static>, kind: u16)
    ensures
        builder_parents(*final(builder)) == builder_parents(*old(builder)).push(
            (kind, builder_children(*old(builder)).len() as int),
        ),
        builder_children(*final(builder)) == builder_children(*old(builder)),
{
    builder.start_node(rowan::SyntaxKind(kind))
}

/// `GreenNodeBuilder::finish_node`: the node that was started last is
/// finished. The elements added since it was started become its children, and
/// the node takes their place among the elements that wait. A node must have
/// been started, and the text of the node must not be longer than a `u32` can
/// count.
#[verifier::external_body]
pub(crate) fn builder_finish_node(builder: &mut GreenNodeBuilder<'static>)
    requires
        builder_parents(*old(builder)).len() > 0,
        0 <= builder_parents(*old(builder)).last().1 <= builder_children(*old(builder)).len(),
        shapes_text(
            builder_children(*old(builder)).subrange(
                builder_parents(*old(builder)).last().1,
                builder_children(*old(builder)).len() as int,
            ),
        ).len() <= u32::MAX,
    ensures
        builder_parents(*final(builder)) == builder_parents(*old(builder)).drop_last(),
        builder_children(*final(builder)) == builder_children(*old(builder)).subrange(
            0,
            builder_parents(*old(builder)).last().1,
        ).push(
            (GreenShape::Node {
                kind: builder_parents(*old(builder)).last().0,
                children: builder_children(*old(builder)).subrange(
                    builder_parents(*old(builder)).last().1,
                    builder_children(*old(builder)).len() as int,
                ),
            }),
        ),
{
    builder.finish_node()
}

/// `GreenNodeBuilder::finish`: the tree. Exactly one element must wait, and it
/// must be a node: it is the root.
#[verifier::external_body]
pub(crate) fn builder_finish(builder: GreenNodeBuilder<'static>) -> (node: GreenNode)
    requires
        builder_children(builder).len() == 1,
        builder_children(builder)[0] is Node,
    ensures
        green_kind(node) == builder_children(builder)[0]->Node_kind,
        green_children(node) == builder_children(builder)[0]->Node_children,
{
    builder.finish()
}

/// `GreenNodeData::kind`: the kind of the root.
#[verifier::external_body]
pub(crate) fn green_kind_of(node: &GreenNode) -> (kind: u16)
    ensures
        kind == green_kind(*node),
{
    node.kind().0
}

/// `GreenNode::clone`: another handle to the same tree.
#[verifier::external_body]
pub(crate) fn green_clone(node: &GreenNode) -> (copy: GreenNode)
    ensures
        green_kind(copy) == green_kind(*node),
        green_children(copy) == green_children(*node),
{
    node.clone()
}

} // verus!
