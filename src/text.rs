use vstd::prelude::*;

verus! {

/// The kind tag of a syntax node, as the tree stores it.
#[derive(Clone, Copy, Debug, PartialEq, Eq, Structural, Hash)]
pub struct SyntaxKind(pub u16);

/// A span `[start, end)` of byte offsets in the source text.
#[derive(Clone, Copy, Debug, PartialEq, Eq, Structural, Hash)]
pub struct TextRange {
    start: u32,
    end: u32,
}

impl TextRange {
    #[verifier::type_invariant]
    spec fn ordered(self) -> bool {
        self.start <= self.end
    }

    /// First offset of the span.
    pub closed spec fn spec_start(self) -> nat {
        self.start as nat
    }

    /// Offset just past the span.
    pub closed spec fn spec_end(self) -> nat {
        self.end as nat
    }

    /// Whether `other` lies inside `self` (an empty range lies inside any
    /// range that holds its offset).
    pub open spec fn spec_contains_range(self, other: TextRange) -> bool {
        self.spec_start() <= other.spec_start() && other.spec_end() <= self.spec_end()
    }

    /// The range `[start, end)`.
    pub fn new(start: u32, end: u32) -> (r: TextRange)
        requires
            start <= end,
        ensures
            r.spec_start() == start,
            r.spec_end() == end,
    {
        TextRange { start, end }
    }

    pub fn start(&self) -> (r: u32)
        ensures
            r == self.spec_start(),
    {
        self.start
    }

    pub fn end(&self) -> (r: u32)
        ensures
            r == self.spec_end(),
    {
        self.end
    }

    /// Number of bytes the range spans.
    pub fn len(&self) -> (r: u32)
        ensures
            r == self.spec_end() - self.spec_start(),
    {
        proof {
            use_type_invariant(self);
        }
        self.end - self.start
    }

    pub fn contains_range(&self, other: &TextRange) -> (r: bool)
        ensures
            r == self.spec_contains_range(*other),
    {
        self.start <= other.start && other.end <= self.end
    }
}

} // verus!
