//! Value matching.
//!
//! A [`Matcher`] represents a class of values for which inclusion can be
//! tested; policies use matchers to decide whether they cover a concrete
//! resource or action.  [`ExtendedMatcher`] adds the three standard
//! constructors: match exactly one value, match anything, match nothing.
//! [`EqualityMatcher`] is the canonical instance for any target with a
//! decidable specification-level equality ([`SpecEq`]).

use vstd::prelude::*;

verus! {

/// A type with a specification-level equality that its executable
/// equality test decides.
pub trait SpecEq: Eq {
    /// The mathematical equality that [`SpecEq::eq_test`] decides.
    spec fn spec_eq(&self, other: &Self) -> bool;

    /// Decide equality.
    fn eq_test(&self, other: &Self) -> (r: bool)
        ensures
            r == self.spec_eq(other),
    ;

    /// The equality is reflexive.
    proof fn lemma_spec_eq_reflexive(&self)
        ensures
            self.spec_eq(self),
    ;

    /// The equality is symmetric.
    proof fn lemma_spec_eq_symmetric(&self, other: &Self)
        ensures
            self.spec_eq(other) == other.spec_eq(self),
    ;
}

impl<'a> SpecEq for &'a str {
    open spec fn spec_eq(&self, other: &Self) -> bool {
        self@ == other@
    }

    fn eq_test(&self, other: &Self) -> bool {
        str_eq(self, other)
    }

    proof fn lemma_spec_eq_reflexive(&self) {
    }

    proof fn lemma_spec_eq_symmetric(&self, other: &Self) {
    }
}

impl SpecEq for String {
    open spec fn spec_eq(&self, other: &Self) -> bool {
        self@ == other@
    }

    fn eq_test(&self, other: &Self) -> bool {
        self.eq(other)
    }

    proof fn lemma_spec_eq_reflexive(&self) {
    }

    proof fn lemma_spec_eq_symmetric(&self, other: &Self) {
    }
}

impl SpecEq for bool {
    open spec fn spec_eq(&self, other: &Self) -> bool {
        *self == *other
    }

    fn eq_test(&self, other: &Self) -> bool {
        *self == *other
    }

    proof fn lemma_spec_eq_reflexive(&self) {
    }

    proof fn lemma_spec_eq_symmetric(&self, other: &Self) {
    }
}

impl SpecEq for u32 {
    open spec fn spec_eq(&self, other: &Self) -> bool {
        *self == *other
    }

    fn eq_test(&self, other: &Self) -> bool {
        *self == *other
    }

    proof fn lemma_spec_eq_reflexive(&self) {
    }

    proof fn lemma_spec_eq_symmetric(&self, other: &Self) {
    }
}

impl SpecEq for u64 {
    open spec fn spec_eq(&self, other: &Self) -> bool {
        *self == *other
    }

    fn eq_test(&self, other: &Self) -> bool {
        *self == *other
    }

    proof fn lemma_spec_eq_reflexive(&self) {
    }

    proof fn lemma_spec_eq_symmetric(&self, other: &Self) {
    }
}

/// Relies on str's `PartialEq`: two string slices are equal iff they hold
/// the same characters.
#[verifier::external_body]
fn str_eq(a: &str, b: &str) -> (r: bool)
    ensures
        r == (a@ == b@),
{
    a == b
}

/// Basic matcher capability: a class of values for which inclusion can be
/// tested.
pub trait Matcher {
    /// Type of value that can be matched.
    type Target;

    /// Which targets this matcher covers.  The default leaves it
    /// unspecified; implementations refine it.
    open spec fn spec_test(&self, target: &Self::Target) -> bool {
        arbitrary()
    }

    /// Determine if a concrete target matches.
    fn test(&self, target: &Self::Target) -> (r: bool)
        ensures
            r == self.spec_test(target),
    ;
}

/// Convenience constructors for matchers over targets with a decidable
/// equality.
pub trait ExtendedMatcher: Matcher + Sized where Self::Target: SpecEq {
    /// Match exactly the given target.
    fn match_only(target: Self::Target) -> (r: Self)
        ensures
            forall|t: Self::Target| #[trigger] r.spec_test(&t) == target.spec_eq(&t),
    ;

    /// Match any target.
    fn match_any() -> (r: Self)
        ensures
            forall|t: Self::Target| #[trigger] r.spec_test(&t),
    ;

    /// Match no target.
    fn match_none() -> (r: Self)
        ensures
            forall|t: Self::Target| !(#[trigger] r.spec_test(&t)),
    ;
}

/// Direct equality matching: converts any target type with a decidable
/// equality into an extended matcher.
#[derive(Debug, PartialEq, Eq, Clone, Copy)]
pub enum EqualityMatcher<T> {
    /// Match a specific value.
    Only(T),
    /// Match any value.
    Any,
    /// Match nothing.
    Nothing,
}

impl<T: SpecEq> Matcher for EqualityMatcher<T> {
    type Target = T;

    open spec fn spec_test(&self, target: &T) -> bool {
        match self {
            EqualityMatcher::Only(t) => t.spec_eq(target),
            EqualityMatcher::Any => true,
            EqualityMatcher::Nothing => false,
        }
    }

    fn test(&self, target: &T) -> bool {
        match self {
            EqualityMatcher::Only(t) => t.eq_test(target),
            EqualityMatcher::Any => true,
            EqualityMatcher::Nothing => false,
        }
    }
}

impl<T: SpecEq> ExtendedMatcher for EqualityMatcher<T> {
    fn match_only(target: T) -> Self {
        EqualityMatcher::Only(target)
    }

    fn match_any() -> Self {
        EqualityMatcher::Any
    }

    fn match_none() -> Self {
        EqualityMatcher::Nothing
    }
}

/// The equality matcher's laws: matching only `x` covers exactly the
/// targets equal to `x` (in particular `x` itself), matching anything
/// covers every target, and matching nothing covers none.
pub proof fn lemma_equality_matcher_laws<T: SpecEq>(x: T, y: T)
    ensures
        EqualityMatcher::Only(x).spec_test(&y) == x.spec_eq(&y),
        EqualityMatcher::Only(x).spec_test(&x),
        EqualityMatcher::<T>::Any.spec_test(&y),
        !EqualityMatcher::<T>::Nothing.spec_test(&y),
{
    x.lemma_spec_eq_reflexive();
}

impl<T> From<T> for EqualityMatcher<T> {
    fn from(target: T) -> Self {
        EqualityMatcher::Only(target)
    }
}

impl<T> vstd::std_specs::convert::FromSpecImpl<T> for EqualityMatcher<T> {
    open spec fn obeys_from_spec() -> bool {
        true
    }

    open spec fn from_spec(target: T) -> Self {
        EqualityMatcher::Only(target)
    }
}

} // verus!
