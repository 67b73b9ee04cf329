use vstd::prelude::*;

use crate::text::{SyntaxKind, TextRange};
use crate::tree::{covering_ancestors, nodes_toward, TreeNode};

verus! {

/// Where a node is: its kind tag and its text range. It holds no reference
/// to any tree, and is resolved against a root when a live node is needed.
#[derive(Clone, Copy, Debug, PartialEq, Eq, Structural, Hash)]
pub struct SyntaxNodePtr {
    kind: SyntaxKind,
    range: TextRange,
}

/// The node that `ptr` names: one with its kind and its range.
pub open spec fn is_target(ptr: SyntaxNodePtr, node: TreeNode) -> bool {
    node.spec_kind() == ptr.spec_kind() && node.spec_range() == ptr.spec_range()
}

impl SyntaxNodePtr {
    pub closed spec fn spec_kind(self) -> SyntaxKind {
        self.kind
    }

    pub closed spec fn spec_range(self) -> TextRange {
        self.range
    }

    pub closed spec fn spec_from_parts(kind: SyntaxKind, range: TextRange) -> SyntaxNodePtr {
        SyntaxNodePtr { kind, range }
    }

    /// Two pointers are the same value exactly when kind and range agree.
    pub proof fn lemma_eq_by_parts(a: SyntaxNodePtr, b: SyntaxNodePtr)
        ensures
            (a == b) <==> (a.spec_kind() == b.spec_kind() && a.spec_range() == b.spec_range()),
    {
    }

    /// A pointer built from a kind and a range holds them.
    pub proof fn lemma_parts_of(kind: SyntaxKind, range: TextRange)
        ensures
            Self::spec_from_parts(kind, range).spec_kind() == kind,
            Self::spec_from_parts(kind, range).spec_range() == range,
    {
    }

    /// The pointer to `node`.
    pub fn new(node: &TreeNode) -> (r: SyntaxNodePtr)
        ensures
            r == Self::spec_from_parts(node.spec_kind(), node.spec_range()),
            is_target(r, *node),
    {
        SyntaxNodePtr { kind: node.kind(), range: node.text_range() }
    }

    /// The pointer with the given kind tag and range.
    pub fn from_parts(kind: SyntaxKind, range: TextRange) -> (r: SyntaxNodePtr)
        ensures
            r == Self::spec_from_parts(kind, range),
            r.spec_kind() == kind,
            r.spec_range() == range,
    {
        SyntaxNodePtr { kind, range }
    }

    pub fn kind(&self) -> (r: SyntaxKind)
        ensures
            r == self.spec_kind(),
    {
        self.kind
    }

    pub fn text_range(&self) -> (r: TextRange)
        ensures
            r == self.spec_range(),
    {
        self.range
    }

    /// Resolves the pointer against the root of a tree: walking down from
    /// `root` into the child that holds the range, the first node met with
    /// the pointer's kind and range. `None` exactly when `root` is not a
    /// root, does not hold the range, or no node on that walk matches (the
    /// tree is not the one the pointer was taken from, nor a rebuild of it).
    pub fn try_to_node(&self, root: &TreeNode) -> (r: Option<TreeNode>)
        ensures
            r is Some <==> resolves(*self, *root),
            r matches Some(n) ==> is_target(*self, n),
            root.spec_is_root() && is_target(*self, *root) ==> r is Some,
    {
        if !root.is_root() || !root.text_range().contains_range(&self.range) {
            return None;
        }
        let path = covering_ancestors(root, self.range);
        let ghost met = nodes_toward(*root, self.range);
        proof {
            if is_target(*self, *root) {
                assert(met[met.len() - 1] == (self.kind, self.range));
            }
        }
        let r = self.outermost_on_path(path);
        proof {
            if r is Some {
                let i = choose|i: int| 0 <= i < path@.len() && r->0 == path@[i];
                assert(met[i] == (path@[i].spec_kind(), path@[i].spec_range()));
            } else {
                assert forall|i: int| 0 <= i < met.len() implies met[i] != (self.kind, self.range) by {
                    assert(met[i] == (path@[i].spec_kind(), path@[i].spec_range()));
                }
            }
        }
        r
    }

    /// Of `path`, the nodes met walking down from a root listed innermost
    /// first, the outermost one that the pointer names; `None` when none of
    /// them is.
    pub fn outermost_on_path(&self, path: Vec<TreeNode>) -> (r: Option<TreeNode>)
        ensures
            r is None <==> forall|i: int|
                0 <= i < path@.len() ==> !is_target(*self, #[trigger] path@[i]),
            r matches Some(n) ==> exists|i: int|
                0 <= i < path@.len() && n == path@[i] && is_target(*self, n) && forall|j: int|
                    i < j < path@.len() ==> !is_target(*self, #[trigger] path@[j]),
    {
        let ghost orig = path@;
        let mut nodes = path;
        let mut i: usize = nodes.len();
        while i > 0
            invariant
                nodes@ == orig,
                orig == path@,
                i <= nodes@.len(),
                forall|j: int| i <= j < nodes@.len() ==> !is_target(*self, #[trigger] nodes@[j]),
            decreases i,
        {
            i = i - 1;
            if nodes[i].kind() == self.kind && nodes[i].text_range() == self.range {
                let found = nodes.remove(i);
                assert(is_target(*self, orig[i as int]));
                assert(found == orig[i as int]);
                return Some(found);
            }
        }
        None
    }
}

/// Resolving `ptr` against `root` succeeds: `root` is a root that holds the
/// range, and walking down from it toward the range meets a node of the
/// pointer's kind and range.
pub open spec fn resolves(ptr: SyntaxNodePtr, root: TreeNode) -> bool {
    &&& root.spec_is_root()
    &&& root.spec_range().spec_contains_range(ptr.spec_range())
    &&& exists|i: int|
        0 <= i < nodes_toward(root, ptr.spec_range()).len() && #[trigger] nodes_toward(
            root,
            ptr.spec_range(),
        )[i] == (ptr.spec_kind(), ptr.spec_range())
}

} // verus!
