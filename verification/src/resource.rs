//! Resource matching.
//!
//! A [`ResourceMatch`] decides whether a policy covers a concrete
//! resource.  [`StrResource`] is the trivial string-named resource, which
//! can also serve as its own matcher.

use vstd::prelude::*;

use crate::matcher::Matcher;

verus! {

/// Trait for matching resources.  When evaluating a policy, this is used
/// to determine if the policy applies with respect to a concrete resource.
pub trait ResourceMatch {
    /// The type of resource that can be matched.
    type Resource;

    /// Which resources this matcher covers.  The default leaves it
    /// unspecified; implementations refine it.
    open spec fn spec_test(&self, resource: &Self::Resource) -> bool {
        arbitrary()
    }

    /// Determine if a concrete resource matches.
    fn test(&self, resource: &Self::Resource) -> (r: bool)
        ensures
            r == self.spec_test(resource),
    ;
}

/// Trivial resource represented by a string.  Can also be used as a
/// matcher.
#[derive(Debug, PartialEq, Eq, Clone, Copy)]
pub struct StrResource<'a>(pub &'a str);

impl<'a> StrResource<'a> {
    /// Create a resource named by the given string.
    pub fn new(v: &'a str) -> (r: Self)
        ensures
            r == StrResource(v),
    {
        StrResource(v)
    }
}

impl<'a> From<&'a str> for StrResource<'a> {
    fn from(v: &'a str) -> Self {
        StrResource(v)
    }
}

impl<'a> vstd::std_specs::convert::FromSpecImpl<&'a str> for StrResource<'a> {
    open spec fn obeys_from_spec() -> bool {
        true
    }

    open spec fn from_spec(v: &'a str) -> Self {
        StrResource(v)
    }
}

impl<'a> Matcher for StrResource<'a> {
    type Target = StrResource<'a>;

    open spec fn spec_test(&self, target: &Self::Target) -> bool {
        self.0@ == target.0@
    }

    fn test(&self, target: &Self::Target) -> bool {
        crate::matcher::SpecEq::eq_test(&self.0, &target.0)
    }
}

impl<'a> ResourceMatch for StrResource<'a> {
    type Resource = StrResource<'a>;

    open spec fn spec_test(&self, resource: &Self::Resource) -> bool {
        self.0@ == resource.0@
    }

    fn test(&self, resource: &Self::Resource) -> bool {
        crate::matcher::SpecEq::eq_test(&self.0, &resource.0)
    }
}

} // verus!
