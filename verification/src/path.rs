//! Navigation paths: routes from the document root to a selected node.

use vstd::prelude::*;

verus! {

/// One step of a navigation path.
#[derive(Debug, Clone, PartialEq, Eq)]
pub enum PathSegment {
    /// Descend into the member of an object that has this name.
    Key(String),
    /// Descend into the element of an array at this zero-based position.
    Index(usize),
}

/// The mathematical value of a [`PathSegment`].
pub enum Segment {
    Key(Seq<char>),
    Index(nat),
}

impl View for PathSegment {
    type V = Segment;

    open spec fn view(&self) -> Segment {
        match self {
            PathSegment::Key(name) => Segment::Key(name@),
            PathSegment::Index(position) => Segment::Index(*position as nat),
        }
    }
}

impl PathSegment {
    /// Structural equality of two segments.
    pub fn same_as(&self, other: &PathSegment) -> (same: bool)
        ensures
            same == (self@ == other@),
    {
        match self {
            PathSegment::Key(a) => match other {
                PathSegment::Key(b) => *a == *b,
                PathSegment::Index(_) => false,
            },
            PathSegment::Index(a) => match other {
                PathSegment::Key(_) => false,
                PathSegment::Index(b) => *a == *b,
            },
        }
    }

    /// A copy of this segment.
    pub fn duplicate(&self) -> (copy: PathSegment)
        ensures
            copy@ == self@,
    {
        match self {
            PathSegment::Key(name) => PathSegment::Key(name.clone()),
            PathSegment::Index(position) => PathSegment::Index(*position),
        }
    }
}

/// An ordered route from the document root to a node: the segments that are
/// still to be matched, first to last.
#[derive(Debug, Clone, PartialEq, Eq)]
pub struct NavigationPath {
    pub segments: Vec<PathSegment>,
}

impl View for NavigationPath {
    type V = Seq<Segment>;

    open spec fn view(&self) -> Seq<Segment> {
        Seq::new(self.segments@.len(), |i: int| self.segments@[i]@)
    }
}

impl NavigationPath {
    /// The path that selects nothing.
    pub fn new() -> (path: NavigationPath)
        ensures
            path@ == Seq::<Segment>::empty(),
    {
        NavigationPath { segments: Vec::new() }
    }

    /// The path made of `segments`, in their order.
    pub fn from_segments(segments: Vec<PathSegment>) -> (path: NavigationPath)
        ensures
            path.segments == segments,
    {
        NavigationPath { segments }
    }

    /// The number of segments.
    pub fn len(&self) -> (n: usize)
        ensures
            n == self@.len(),
    {
        self.segments.len()
    }

    /// Whether the path has no segment.
    pub fn is_empty(&self) -> (empty: bool)
        ensures
            empty == (self@.len() == 0),
    {
        self.segments.len() == 0
    }

    /// Appends `segment` as the last step of the path.
    pub fn push(&mut self, segment: PathSegment)
        ensures
            final(self)@ == old(self)@.push(segment@),
    {
        self.segments.push(segment);
        assert(self@ =~= old(self)@.push(segment@));
    }

    /// Structural equality, segment by segment.
    pub fn same_as(&self, other: &NavigationPath) -> (same: bool)
        ensures
            same == (self@ == other@),
    {
        if self.segments.len() != other.segments.len() {
            return false;
        }
        let mut i: usize = 0;
        while i < self.segments.len()
            invariant
                i <= self.segments@.len(),
                self.segments@.len() == other.segments@.len(),
                forall|j: int| 0 <= j < i ==> self@[j] == other@[j],
            decreases self.segments@.len() - i,
        {
            if !self.segments[i].same_as(&other.segments[i]) {
                assert(self@[i as int] != other@[i as int]);
                return false;
            }
            i += 1;
        }
        assert(self@ =~= other@);
        true
    }

    /// A private copy of this path.
    pub fn duplicate(&self) -> (copy: NavigationPath)
        ensures
            copy@ == self@,
    {
        let mut segments: Vec<PathSegment> = Vec::new();
        let mut i: usize = 0;
        while i < self.segments.len()
            invariant
                i <= self.segments@.len(),
                segments@.len() == i,
                forall|j: int| 0 <= j < i ==> segments@[j]@ == self.segments@[j]@,
            decreases self.segments@.len() - i,
        {
            segments.push(self.segments[i].duplicate());
            i += 1;
        }
        let copy = NavigationPath { segments };
        assert(copy@ =~= self@);
        copy
    }
}

} // verus!
