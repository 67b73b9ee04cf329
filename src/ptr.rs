use vstd::prelude::*;

use std::marker::PhantomData;

use vstd::std_specs::cmp::PartialEqSpec;

use crate::node_ptr::{is_target, resolves, SyntaxNodePtr};
use crate::text::{SyntaxKind, TextRange};
use crate::tree::{nodes_toward, TreeNode};

verus! {

/// A typed view of syntax nodes: the kinds it recognises, and the node
/// underneath each value.
pub trait AstNode: Sized {
    /// Whether a node with this kind tag is a node of this type.
    spec fn spec_can_cast(kind: SyntaxKind) -> bool;

    /// The syntax node that a value of this type wraps.
    spec fn spec_syntax(&self) -> TreeNode;

    fn can_cast(kind: SyntaxKind) -> (r: bool)
        ensures
            r == Self::spec_can_cast(kind),
    ;

    fn cast(node: TreeNode) -> (r: Option<Self>)
        ensures
            r is Some <==> Self::spec_can_cast(node.spec_kind()),
            r matches Some(n) ==> n.spec_syntax() == node,
    ;

    fn syntax(&self) -> (r: &TreeNode)
        ensures
            *r == self.spec_syntax(),
            Self::spec_can_cast(r.spec_kind()),
    ;
}

/// Every syntax node is a node of the untyped view.
impl AstNode for TreeNode {
    open spec fn spec_can_cast(kind: SyntaxKind) -> bool {
        true
    }

    open spec fn spec_syntax(&self) -> TreeNode {
        *self
    }

    fn can_cast(kind: SyntaxKind) -> (r: bool) {
        true
    }

    fn cast(node: TreeNode) -> (r: Option<TreeNode>) {
        Some(node)
    }

    fn syntax(&self) -> (r: &TreeNode) {
        self
    }
}

/// `N` is-a `M`: every kind that `N` recognises, `M` recognises too.
pub open spec fn is_a<N: AstNode, M: AstNode>() -> bool {
    forall|k: SyntaxKind| #[trigger] N::spec_can_cast(k) ==> M::spec_can_cast(k)
}

/// Like [`SyntaxNodePtr`], but remembers the type of node it points to.
#[derive(Debug, Hash)]
pub struct AstPtr<N: AstNode> {
    raw: SyntaxNodePtr,
    _ty: PhantomData<N>,
}

impl<N: AstNode> AstPtr<N> {
    /// The untyped pointer underneath.
    pub closed spec fn spec_raw(self) -> SyntaxNodePtr {
        self.raw
    }

    /// The pointer names a node that `N` recognises.
    pub open spec fn wf(self) -> bool {
        N::spec_can_cast(self.spec_raw().spec_kind())
    }

    /// The pointer to `node`.
    pub closed spec fn spec_new(node: N) -> AstPtr<N> {
        AstPtr {
            raw: SyntaxNodePtr::spec_from_parts(
                node.spec_syntax().spec_kind(),
                node.spec_syntax().spec_range(),
            ),
            _ty: PhantomData,
        }
    }

    /// The same pointer, typed as a `U`, when `U` recognises its kind.
    pub closed spec fn spec_cast<U: AstNode>(self) -> Option<AstPtr<U>> {
        if U::spec_can_cast(self.raw.spec_kind()) {
            Some(AstPtr { raw: self.raw, _ty: PhantomData })
        } else {
            None
        }
    }

    /// The same pointer, typed as an `M`.
    pub closed spec fn spec_upcast<M: AstNode>(self) -> AstPtr<M> {
        AstPtr { raw: self.raw, _ty: PhantomData }
    }

    pub fn new(node: &N) -> (r: AstPtr<N>)
        ensures
            r == Self::spec_new(*node),
            is_target(r.spec_raw(), node.spec_syntax()),
            r.wf(),
    {
        AstPtr { raw: SyntaxNodePtr::new(node.syntax()), _ty: PhantomData }
    }

    /// Resolves the pointer against the root of a tree (see
    /// [`SyntaxNodePtr::try_to_node`]) and types the node found as an `N`.
    /// `None` means that `root` does not hold the node: the tree is not the
    /// one the pointer was taken from, nor a rebuild of it.
    pub fn to_node(&self, root: &TreeNode) -> (r: Option<N>)
        ensures
            r is Some <==> self.wf() && resolves(self.spec_raw(), *root),
            r matches Some(n) ==> is_target(self.spec_raw(), n.spec_syntax()),
            self.wf() && root.spec_is_root() && is_target(self.spec_raw(), *root) ==> r is Some,
    {
        match self.raw.try_to_node(root) {
            Some(node) => N::cast(node),
            None => None,
        }
    }

    pub fn syntax_node_ptr(&self) -> (r: SyntaxNodePtr)
        ensures
            r == self.spec_raw(),
    {
        self.raw
    }

    pub fn text_range(&self) -> (r: TextRange)
        ensures
            r == self.spec_raw().spec_range(),
    {
        self.raw.text_range()
    }

    /// The same pointer typed as a `U`, or `None` when `U` does not
    /// recognise the kind it points to. Needs no tree.
    pub fn cast<U: AstNode>(self) -> (r: Option<AstPtr<U>>)
        ensures
            r == self.spec_cast::<U>(),
            r is Some <==> U::spec_can_cast(self.spec_raw().spec_kind()),
            r matches Some(q) ==> q.spec_raw() == self.spec_raw() && q.wf(),
    {
        if !U::can_cast(self.raw.kind()) {
            return None;
        }
        Some(AstPtr { raw: self.raw, _ty: PhantomData })
    }

    /// The same pointer typed as an `M`, where `N` is-a `M`.
    pub fn upcast<M: AstNode>(self) -> (r: AstPtr<M>)
        requires
            is_a::<N, M>(),
        ensures
            r == self.spec_upcast::<M>(),
            r.spec_raw() == self.spec_raw(),
            self.wf() ==> r.wf(),
    {
        AstPtr { raw: self.raw, _ty: PhantomData }
    }

    /// Types an untyped pointer as an `N`, when `N` recognises its kind.
    pub fn try_from_raw(raw: SyntaxNodePtr) -> (r: Option<AstPtr<N>>)
        ensures
            r is Some <==> N::spec_can_cast(raw.spec_kind()),
            r matches Some(q) ==> q.spec_raw() == raw && q.wf(),
    {
        if N::can_cast(raw.kind()) {
            Some(AstPtr { raw, _ty: PhantomData })
        } else {
            None
        }
    }
}

/// A pointer made from a node resolves against a root whose walk down toward
/// the node's range meets a node of its kind and range, and what it resolves
/// to has the kind and the range of the node it was made from.
pub proof fn lemma_round_trip<N: AstNode>(origin: N, root: TreeNode)
    requires
        root.spec_is_root(),
        root.spec_range().spec_contains_range(origin.spec_syntax().spec_range()),
        exists|i: int|
            0 <= i < nodes_toward(root, origin.spec_syntax().spec_range()).len() && #[trigger] nodes_toward(
                root,
                origin.spec_syntax().spec_range(),
            )[i] == (origin.spec_syntax().spec_kind(), origin.spec_syntax().spec_range()),
    ensures
        resolves(AstPtr::spec_new(origin).spec_raw(), root),
        forall|found: N|
            is_target(AstPtr::spec_new(origin).spec_raw(), #[trigger] found.spec_syntax()) ==> (
            found.spec_syntax().spec_kind() == origin.spec_syntax().spec_kind()
                && found.spec_syntax().spec_range() == origin.spec_syntax().spec_range()),
{
    let (k, r) = (origin.spec_syntax().spec_kind(), origin.spec_syntax().spec_range());
    SyntaxNodePtr::lemma_parts_of(k, r);
}

/// A pointer widened to a more general type resolves against a root exactly
/// when the pointer itself does, to a node of the same kind and range.
pub proof fn lemma_upcast_resolves_alike<N: AstNode, M: AstNode>(p: AstPtr<N>, root: TreeNode)
    requires
        is_a::<N, M>(),
    ensures
        p.spec_upcast::<M>().spec_raw() == p.spec_raw(),
        p.wf() && resolves(p.spec_raw(), root) ==> p.spec_upcast::<M>().wf() && resolves(
            p.spec_upcast::<M>().spec_raw(),
            root,
        ),
{
}

/// Any number of copies of a pointer, each the clone of the one before,
/// name the range of the first.
pub proof fn lemma_range_survives_clones<N: AstNode>(copies: Seq<AstPtr<N>>)
    requires
        forall|i: int| 0 < i < copies.len() ==> #[trigger] copies[i] == copies[i - 1],
    ensures
        forall|i: int|
            0 <= i < copies.len() ==> (#[trigger] copies[i]).spec_raw().spec_range()
                == copies[0].spec_raw().spec_range(),
    decreases copies.len(),
{
    if copies.len() > 1 {
        let shorter = copies.drop_last();
        assert forall|i: int| 0 < i < shorter.len() implies #[trigger] shorter[i] == shorter[i
            - 1] by {
            assert(shorter[i] == copies[i] && shorter[i - 1] == copies[i - 1]);
        }
        lemma_range_survives_clones(shorter);
        assert forall|i: int| 0 <= i < copies.len() implies (#[trigger] copies[i]).spec_raw().spec_range()
            == copies[0].spec_raw().spec_range() by {
            if i < shorter.len() {
                assert(shorter[i] == copies[i]);
            } else {
                assert(copies[i] == copies[i - 1]);
                assert(shorter[i - 1] == copies[i - 1]);
            }
        }
    }
}

/// Widening a pointer to a more general type and casting it back to its own
/// type gives the pointer back.
pub proof fn lemma_upcast_then_cast<N: AstNode, M: AstNode>(p: AstPtr<N>)
    requires
        p.wf(),
        is_a::<N, M>(),
    ensures
        p.spec_upcast::<M>().spec_cast::<N>() == Some(p),
{
}

/// A cast succeeds exactly when the target type recognises the kind the
/// pointer holds, and keeps the pointer's place.
pub proof fn lemma_cast_sound<N: AstNode, U: AstNode>(p: AstPtr<N>)
    ensures
        p.spec_cast::<U>() is Some <==> U::spec_can_cast(p.spec_raw().spec_kind()),
        p.spec_cast::<U>() matches Some(q) ==> q.spec_raw() == p.spec_raw(),
{
}

/// Pointers are equal exactly when they name the same kind and the same
/// range; so pointers made from two nodes are equal exactly when the nodes
/// agree in kind and range, whatever trees they belong to.
pub proof fn lemma_eq_consistent<N: AstNode>(p: AstPtr<N>, q: AstPtr<N>, a: N, b: N)
    ensures
        p.eq_spec(&q) <==> (p.spec_raw().spec_kind() == q.spec_raw().spec_kind()
            && p.spec_raw().spec_range() == q.spec_raw().spec_range()),
        (AstPtr::spec_new(a) == AstPtr::spec_new(b)) <==> (a.spec_syntax().spec_kind()
            == b.spec_syntax().spec_kind() && a.spec_syntax().spec_range()
            == b.spec_syntax().spec_range()),
{
    SyntaxNodePtr::lemma_eq_by_parts(p.spec_raw(), q.spec_raw());
    let (ka, ra) = (a.spec_syntax().spec_kind(), a.spec_syntax().spec_range());
    let (kb, rb) = (b.spec_syntax().spec_kind(), b.spec_syntax().spec_range());
    SyntaxNodePtr::lemma_eq_by_parts(
        SyntaxNodePtr::spec_from_parts(ka, ra),
        SyntaxNodePtr::spec_from_parts(kb, rb),
    );
    SyntaxNodePtr::lemma_parts_of(ka, ra);
    SyntaxNodePtr::lemma_parts_of(kb, rb);
    if AstPtr::spec_new(a) == AstPtr::spec_new(b) {
        assert(AstPtr::spec_new(a).spec_raw() == AstPtr::spec_new(b).spec_raw());
    }
}

/// Casts and widenings keep the range a pointer names (copies are the same
/// value, see `clone`).
pub proof fn lemma_range_stable<N: AstNode, U: AstNode, M: AstNode>(p: AstPtr<N>)
    ensures
        p.spec_upcast::<M>().spec_raw().spec_range() == p.spec_raw().spec_range(),
        p.spec_cast::<U>() matches Some(q) ==> q.spec_raw().spec_range()
            == p.spec_raw().spec_range(),
{
}

impl<N: AstNode> Clone for AstPtr<N> {
    fn clone(&self) -> (r: AstPtr<N>)
        ensures
            r == *self,
    {
        AstPtr { raw: self.raw, _ty: PhantomData }
    }
}

impl<N: AstNode> Copy for AstPtr<N> {

}

impl<N: AstNode> PartialEq for AstPtr<N> {
    fn eq(&self, other: &AstPtr<N>) -> (r: bool) {
        self.raw == other.raw
    }
}

impl<N: AstNode> vstd::std_specs::cmp::PartialEqSpecImpl for AstPtr<N> {
    open spec fn obeys_eq_spec() -> bool {
        true
    }

    open spec fn eq_spec(&self, other: &AstPtr<N>) -> bool {
        self.spec_raw() == other.spec_raw()
    }
}

impl<N: AstNode> Eq for AstPtr<N> {

}

impl<N: AstNode> From<AstPtr<N>> for SyntaxNodePtr {
    fn from(ptr: AstPtr<N>) -> (r: SyntaxNodePtr) {
        ptr.raw
    }
}

impl<N: AstNode> vstd::std_specs::convert::FromSpecImpl<AstPtr<N>> for SyntaxNodePtr {
    open spec fn obeys_from_spec() -> bool {
        true
    }

    open spec fn from_spec(ptr: AstPtr<N>) -> SyntaxNodePtr {
        ptr.spec_raw()
    }
}

} // verus!
