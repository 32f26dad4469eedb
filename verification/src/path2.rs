//! Borrowed path elements and their matchers.
//!
//! The borrowing counterpart of [`crate::path`]: elements are string
//! slices rather than owned strings.

use vstd::prelude::*;

use crate::matcher::{ExtendedMatcher, Matcher, SpecEq};

verus! {

/// One element of a hierarchical path, borrowed.
#[derive(Debug, PartialEq, Eq, Clone, Copy)]
pub struct Path2Elem<'a>(pub &'a str);

impl<'a> From<&'a str> for Path2Elem<'a> {
    fn from(v: &'a str) -> Self {
        Path2Elem(v)
    }
}

impl<'a> vstd::std_specs::convert::FromSpecImpl<&'a str> for Path2Elem<'a> {
    open spec fn obeys_from_spec() -> bool {
        true
    }

    open spec fn from_spec(v: &'a str) -> Self {
        Path2Elem(v)
    }
}

impl<'a> SpecEq for Path2Elem<'a> {
    open spec fn spec_eq(&self, other: &Self) -> bool {
        self.0@ == other.0@
    }

    fn eq_test(&self, other: &Self) -> bool {
        SpecEq::eq_test(&self.0, &other.0)
    }

    proof fn lemma_spec_eq_reflexive(&self) {
    }

    proof fn lemma_spec_eq_symmetric(&self, other: &Self) {
    }
}

/// Matcher for one borrowed path element: a specific value, anything, or
/// nothing.
#[derive(Debug, PartialEq, Eq, Clone, Copy)]
pub enum Path2ElemMatcher<'a> {
    /// Match any element.
    ANY,
    /// Match no element.
    NONE,
    /// Match exactly the named element.
    V(&'a str),
}

impl<'a> Path2ElemMatcher<'a> {
    /// Create a matcher for exactly the named element.
    pub fn new(v: &'a str) -> (r: Path2ElemMatcher<'a>)
        ensures
            r == Path2ElemMatcher::V(v),
    {
        Path2ElemMatcher::V(v)
    }
}

impl<'a> From<&'a str> for Path2ElemMatcher<'a> {
    fn from(v: &'a str) -> Self {
        Path2ElemMatcher::V(v)
    }
}

impl<'a> vstd::std_specs::convert::FromSpecImpl<&'a str> for Path2ElemMatcher<'a> {
    open spec fn obeys_from_spec() -> bool {
        true
    }

    open spec fn from_spec(v: &'a str) -> Self {
        Path2ElemMatcher::V(v)
    }
}

impl<'a> From<Path2Elem<'a>> for Path2ElemMatcher<'a> {
    fn from(v: Path2Elem<'a>) -> Self {
        Path2ElemMatcher::V(v.0)
    }
}

impl<'a> vstd::std_specs::convert::FromSpecImpl<Path2Elem<'a>> for Path2ElemMatcher<'a> {
    open spec fn obeys_from_spec() -> bool {
        true
    }

    open spec fn from_spec(v: Path2Elem<'a>) -> Self {
        Path2ElemMatcher::V(v.0)
    }
}

impl<'a> Matcher for Path2ElemMatcher<'a> {
    type Target = Path2Elem<'a>;

    open spec fn spec_test(&self, target: &Path2Elem<'a>) -> bool {
        match self {
            Path2ElemMatcher::ANY => true,
            Path2ElemMatcher::NONE => false,
            Path2ElemMatcher::V(s) => s@ == target.0@,
        }
    }

    fn test(&self, target: &Path2Elem<'a>) -> bool {
        match self {
            Path2ElemMatcher::ANY => true,
            Path2ElemMatcher::NONE => false,
            Path2ElemMatcher::V(s) => SpecEq::eq_test(s, &target.0),
        }
    }
}

impl<'a> ExtendedMatcher for Path2ElemMatcher<'a> {
    fn match_only(target: Path2Elem<'a>) -> Self {
        Path2ElemMatcher::V(target.0)
    }

    fn match_any() -> Self {
        Path2ElemMatcher::ANY
    }

    fn match_none() -> Self {
        Path2ElemMatcher::NONE
    }
}

} // verus!
