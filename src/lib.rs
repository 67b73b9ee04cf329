//! Typed, tree-independent pointers to nodes of a syntax tree.
//!
//! Syntax trees are transient: they are rebuilt when needed and dropped to
//! save memory, since a live node keeps its whole tree resident. A
//! [`SyntaxNodePtr`] records where a node is (its kind and text range) and can
//! be resolved against a root later; an [`AstPtr`] adds the static type of the
//! node it points to.

mod node_ptr;
mod ptr;
mod text;
mod tree;

pub use node_ptr::{is_target, resolves, SyntaxNodePtr};
pub use ptr::{
    is_a, lemma_cast_sound, lemma_eq_consistent, lemma_range_stable,
    lemma_round_trip, lemma_range_survives_clones, lemma_upcast_resolves_alike, lemma_upcast_then_cast,
    AstNode, AstPtr,
};
pub use text::{SyntaxKind, TextRange};
pub use tree::{nodes_toward, TreeNode};
