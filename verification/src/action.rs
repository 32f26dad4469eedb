//! Action matching.
//!
//! An [`ActionMatch`] decides whether a policy covers a concrete action.
//! [`StrAction`] is the trivial string-named action, which can also serve
//! as its own matcher.

use vstd::prelude::*;

use crate::matcher::Matcher;

verus! {

/// Trait for matching actions.  When evaluating a policy, this is used to
/// determine if the policy applies with respect to a concrete action.
pub trait ActionMatch {
    /// The type of action matched by this implementation.
    type Action;

    /// Which actions this matcher covers.  The default leaves it
    /// unspecified; implementations refine it.
    open spec fn spec_test(&self, action: &Self::Action) -> bool {
        arbitrary()
    }

    /// Determine if a concrete action matches.
    fn test(&self, action: &Self::Action) -> (r: bool)
        ensures
            r == self.spec_test(action),
    ;
}

/// Trivial action represented by a string.  Can also be used as a matcher.
#[derive(Debug, PartialEq, Eq, Clone, Copy)]
pub struct StrAction<'a>(pub &'a str);

impl<'a> From<&'a str> for StrAction<'a> {
    fn from(v: &'a str) -> Self {
        StrAction(v)
    }
}

impl<'a> vstd::std_specs::convert::FromSpecImpl<&'a str> for StrAction<'a> {
    open spec fn obeys_from_spec() -> bool {
        true
    }

    open spec fn from_spec(v: &'a str) -> Self {
        StrAction(v)
    }
}

impl<'a> Matcher for StrAction<'a> {
    type Target = StrAction<'a>;

    open spec fn spec_test(&self, target: &Self::Target) -> bool {
        self.0@ == target.0@
    }

    fn test(&self, target: &Self::Target) -> bool {
        crate::matcher::SpecEq::eq_test(&self.0, &target.0)
    }
}

impl<'a> ActionMatch for StrAction<'a> {
    type Action = StrAction<'a>;

    open spec fn spec_test(&self, action: &Self::Action) -> bool {
        self.0@ == action.0@
    }

    fn test(&self, action: &Self::Action) -> bool {
        crate::matcher::SpecEq::eq_test(&self.0, &action.0)
    }
}

} // verus!
