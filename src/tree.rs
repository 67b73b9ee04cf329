use vstd::prelude::*;

use crate::text::{SyntaxKind, TextRange};

verus! {

#[verifier::external_type_specification]
#[verifier::external_body]
pub struct ExRawNode(rowan::cursor::SyntaxNode);

/// Relies on rowan's `cursor::SyntaxNode::kind`: the kind tag of the node.
#[verifier::external_body]
fn raw_kind(node: &rowan::cursor::SyntaxNode) -> (r: SyntaxKind) {
    SyntaxKind(node.kind().0)
}

/// Relies on rowan's `cursor::SyntaxNode::text_range`: the span the node
/// covers in the text of its tree.
#[verifier::external_body]
fn raw_text_range(node: &rowan::cursor::SyntaxNode) -> (r: TextRange) {
    let range = node.text_range();
    TextRange::new(range.start().into(), range.end().into())
}

/// Relies on rowan's `cursor::SyntaxNode::is_mutable`: whether the node
/// belongs to a tree that can be edited in place.
#[verifier::external_body]
fn raw_is_mutable(node: &rowan::cursor::SyntaxNode) -> (r: bool) {
    node.is_mutable()
}

/// Relies on rowan's `cursor::SyntaxNode::parent`: whether the node sits
/// under another node.
#[verifier::external_body]
fn raw_has_parent(node: &rowan::cursor::SyntaxNode) -> (r: bool) {
    node.parent().is_some()
}

/// A live node of a syntax tree, with the kind tag, text range and position
/// (root or not) that it had when it was taken from the tree. Only nodes of
/// immutable trees are taken, so these stay the node's own.
#[derive(Debug, Hash)]
pub struct TreeNode {
    raw: rowan::cursor::SyntaxNode,
    kind: SyntaxKind,
    range: TextRange,
    is_root: bool,
}

impl TreeNode {
    /// Kind tag of the node.
    pub closed spec fn spec_kind(&self) -> SyntaxKind {
        self.kind
    }

    /// Span of the node in the text of its tree.
    pub closed spec fn spec_range(&self) -> TextRange {
        self.range
    }

    /// Whether the node is the root of its tree.
    pub closed spec fn spec_is_root(&self) -> bool {
        self.is_root
    }

    /// Takes a node of a rowan tree, reading its kind, range and whether it
    /// has a parent; `None` for a node of a tree that can be edited in place,
    /// whose range could change afterwards.
    pub fn from_raw(raw: rowan::cursor::SyntaxNode) -> (r: Option<TreeNode>) {
        if raw_is_mutable(&raw) {
            None
        } else {
            Some(TreeNode::read(raw))
        }
    }

    /// Reads kind, range and place of a node of an immutable tree.
    fn read(raw: rowan::cursor::SyntaxNode) -> (r: TreeNode) {
        let kind = raw_kind(&raw);
        let range = raw_text_range(&raw);
        let is_root = !raw_has_parent(&raw);
        TreeNode { raw, kind, range, is_root }
    }

    /// The rowan node underneath.
    pub fn raw(&self) -> &rowan::cursor::SyntaxNode {
        &self.raw
    }

    pub fn kind(&self) -> (r: SyntaxKind)
        ensures
            r == self.spec_kind(),
    {
        self.kind
    }

    pub fn text_range(&self) -> (r: TextRange)
        ensures
            r == self.spec_range(),
    {
        self.range
    }

    pub fn is_root(&self) -> (r: bool)
        ensures
            r == self.spec_is_root(),
    {
        self.is_root
    }
}

/// Relies on rowan's `Clone` for `cursor::SyntaxNode`: another handle to the
/// same node of the same tree.
pub assume_specification[ <rowan::cursor::SyntaxNode as std::clone::Clone>::clone ](
    node: &rowan::cursor::SyntaxNode,
) -> rowan::cursor::SyntaxNode;

impl Clone for TreeNode {
    /// Another handle to the same node.
    fn clone(&self) -> (r: TreeNode)
        ensures
            r.spec_kind() == self.spec_kind(),
            r.spec_range() == self.spec_range(),
            r.spec_is_root() == self.spec_is_root(),
    {
        TreeNode { raw: self.raw.clone(), kind: self.kind, range: self.range, is_root: self.is_root }
    }
}

/// Kind tag and range of each node met walking down from `root` into the
/// child that holds `range`, for as long as there is one, listed innermost
/// first.
pub uninterp spec fn nodes_toward(root: TreeNode, range: TextRange) -> Seq<(SyntaxKind, TextRange)>;

/// Relies on rowan's `cursor::SyntaxNode::covering_element` (the element
/// reached by descending from `root` into the child that holds `range`, for
/// as long as there is one; it panics unless `root` holds `range`) and on
/// `NodeOrToken::ancestors` of that element (the nodes from it, or from the
/// parent of a token, up to the top of the tree, which is `root` when `root`
/// has no parent). Each node is taken as by `TreeNode::read`.
#[verifier::external_body]
pub(crate) fn covering_ancestors(root: &TreeNode, range: TextRange) -> (r: Vec<TreeNode>)
    requires
        root.spec_is_root(),
        root.spec_range().spec_contains_range(range),
    ensures
        r@.len() == nodes_toward(*root, range).len(),
        forall|i: int|
            0 <= i < r@.len() ==> (#[trigger] r@[i].spec_kind(), r@[i].spec_range())
                == nodes_toward(*root, range)[i],
        r@.len() > 0,
        r@.last().spec_kind() == root.spec_kind(),
        r@.last().spec_range() == root.spec_range(),
{
    let range = rowan::TextRange::new(range.start().into(), range.end().into());
    root.raw.covering_element(range).ancestors().map(TreeNode::read).collect()
}

} // verus!
