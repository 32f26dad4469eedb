//! Hierarchical path values and their element-wise matchers.
//!
//! A [`Path`] is a sequence of string elements; a [`PathMatcher`] matches
//! element-wise: each positional element matcher must match the
//! corresponding path element.  Positions beyond the shorter of the two
//! sequences are not constrained.

use vstd::prelude::*;

use crate::matcher::{ExtendedMatcher, Matcher, SpecEq};

verus! {

/// One element of a hierarchical path.
#[derive(Debug, PartialEq, Eq, Clone)]
pub struct PathElem(pub String);

impl From<&str> for PathElem {
    fn from(v: &str) -> Self {
        PathElem(v.to_owned())
    }
}

impl vstd::std_specs::convert::FromSpecImpl<&str> for PathElem {
    open spec fn obeys_from_spec() -> bool {
        false
    }

    open spec fn from_spec(v: &str) -> Self {
        arbitrary()
    }
}

impl From<String> for PathElem {
    fn from(v: String) -> Self {
        PathElem(v)
    }
}

impl vstd::std_specs::convert::FromSpecImpl<String> for PathElem {
    open spec fn obeys_from_spec() -> bool {
        true
    }

    open spec fn from_spec(v: String) -> Self {
        PathElem(v)
    }
}

impl SpecEq for PathElem {
    open spec fn spec_eq(&self, other: &Self) -> bool {
        self.0@ == other.0@
    }

    fn eq_test(&self, other: &Self) -> bool {
        self.0.eq(&other.0)
    }

    proof fn lemma_spec_eq_reflexive(&self) {
    }

    proof fn lemma_spec_eq_symmetric(&self, other: &Self) {
    }
}

/// Matcher for one path element: a specific value, anything, or nothing.
#[derive(Debug, PartialEq, Eq, Clone)]
pub enum PathElemMatcher {
    /// Match any element.
    ANY,
    /// Match no element.
    NONE,
    /// Match exactly the named element.
    V(String),
}

impl PathElemMatcher {
    /// Create a matcher for exactly the named element.
    pub fn new(v: &str) -> (r: PathElemMatcher)
        ensures
            r matches PathElemMatcher::V(s) && s@ == v@,
    {
        PathElemMatcher::V(v.to_owned())
    }
}

impl From<&str> for PathElemMatcher {
    fn from(v: &str) -> Self {
        PathElemMatcher::new(v)
    }
}

impl vstd::std_specs::convert::FromSpecImpl<&str> for PathElemMatcher {
    open spec fn obeys_from_spec() -> bool {
        false
    }

    open spec fn from_spec(v: &str) -> Self {
        arbitrary()
    }
}

impl From<PathElem> for PathElemMatcher {
    fn from(v: PathElem) -> Self {
        PathElemMatcher::V(v.0)
    }
}

impl vstd::std_specs::convert::FromSpecImpl<PathElem> for PathElemMatcher {
    open spec fn obeys_from_spec() -> bool {
        true
    }

    open spec fn from_spec(v: PathElem) -> Self {
        PathElemMatcher::V(v.0)
    }
}

impl Matcher for PathElemMatcher {
    type Target = PathElem;

    open spec fn spec_test(&self, target: &PathElem) -> bool {
        match self {
            PathElemMatcher::ANY => true,
            PathElemMatcher::NONE => false,
            PathElemMatcher::V(s) => s@ == target.0@,
        }
    }

    fn test(&self, target: &PathElem) -> bool {
        match self {
            PathElemMatcher::ANY => true,
            PathElemMatcher::NONE => false,
            PathElemMatcher::V(s) => s.eq(&target.0),
        }
    }
}

impl ExtendedMatcher for PathElemMatcher {
    fn match_only(target: PathElem) -> Self {
        PathElemMatcher::V(target.0)
    }

    fn match_any() -> Self {
        PathElemMatcher::ANY
    }

    fn match_none() -> Self {
        PathElemMatcher::NONE
    }
}

/// A hierarchical path.
#[derive(Debug, PartialEq, Eq, Clone)]
pub struct Path(pub Vec<PathElem>);

impl Path {
    /// Create a path from its elements.
    pub fn new(elems: Vec<PathElem>) -> (r: Self)
        ensures
            r == Path(elems),
    {
        Path(elems)
    }
}

impl From<Vec<PathElem>> for Path {
    fn from(elems: Vec<PathElem>) -> Self {
        Path(elems)
    }
}

impl vstd::std_specs::convert::FromSpecImpl<Vec<PathElem>> for Path {
    open spec fn obeys_from_spec() -> bool {
        true
    }

    open spec fn from_spec(elems: Vec<PathElem>) -> Self {
        Path(elems)
    }
}

/// An element-wise path matcher.
#[derive(Debug, PartialEq, Eq, Clone)]
pub struct PathMatcher(pub Vec<PathElemMatcher>);

impl PathMatcher {
    /// Create a path matcher from its element matchers.
    pub fn new(elems: Vec<PathElemMatcher>) -> (r: Self)
        ensures
            r == PathMatcher(elems),
    {
        PathMatcher(elems)
    }
}

impl From<Vec<PathElemMatcher>> for PathMatcher {
    fn from(elems: Vec<PathElemMatcher>) -> Self {
        PathMatcher(elems)
    }
}

impl vstd::std_specs::convert::FromSpecImpl<Vec<PathElemMatcher>> for PathMatcher {
    open spec fn obeys_from_spec() -> bool {
        true
    }

    open spec fn from_spec(elems: Vec<PathElemMatcher>) -> Self {
        PathMatcher(elems)
    }
}

impl From<Path> for PathMatcher {
    fn from(path: Path) -> Self {
        let Path(elems) = path;
        let mut ms: Vec<PathElemMatcher> = Vec::new();
        let n = elems.len();
        for i in 0..n
            invariant
                n == elems@.len(),
                ms@.len() == i,
        {
            let m = PathElemMatcher::new(elems[i].0.as_str());
            ms.push(m);
        }
        PathMatcher(ms)
    }
}

impl vstd::std_specs::convert::FromSpecImpl<Path> for PathMatcher {
    open spec fn obeys_from_spec() -> bool {
        false
    }

    open spec fn from_spec(path: Path) -> Self {
        arbitrary()
    }
}

impl Matcher for PathMatcher {
    type Target = Path;

    open spec fn spec_test(&self, target: &Path) -> bool {
        forall|i: int|
            0 <= i < self.0@.len() && i < target.0@.len() ==> (#[trigger] self.0@[i]).spec_test(
                &target.0@[i],
            )
    }

    fn test(&self, target: &Path) -> (r: bool) {
        let n = if self.0.len() < target.0.len() {
            self.0.len()
        } else {
            target.0.len()
        };
        for i in 0..n
            invariant
                n <= self.0@.len(),
                n <= target.0@.len(),
                n == vstd::math::min(self.0@.len() as int, target.0@.len() as int),
                forall|j: int|
                    0 <= j < i ==> (#[trigger] self.0@[j]).spec_test(&target.0@[j]),
        {
            if !self.0[i].test(&target.0[i]) {
                return false;
            }
        }
        true
    }
}

} // verus!
