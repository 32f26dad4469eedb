//! Evaluation contexts for policy conditions.
//!
//! An [`Environment`] decides whether an opaque condition expression holds.
//! The contract is modelled by a specification-level predicate, so that the
//! result of resolving a policy can be stated exactly in terms of the
//! environment a caller supplies.  [`FallibleEnvironment`] is the variant
//! whose evaluation can fail, e.g. when conditions are looked up remotely.

use vstd::prelude::*;

verus! {

/// Context in which condition expressions are evaluated; evaluation cannot
/// fail.
pub trait Environment {
    /// The type of conditional expression that can be evaluated in the
    /// environment.
    type CExp;

    /// What evaluation returns for a given expression.  The default
    /// leaves it unspecified; implementations refine it.
    open spec fn spec_evaluate(&self, exp: &Self::CExp) -> bool {
        arbitrary()
    }

    /// Test whether a condition holds with respect to the environment.
    fn evaluate(&self, exp: &Self::CExp) -> (r: bool)
        ensures
            r == self.spec_evaluate(exp),
    ;
}

/// Context whose evaluation may fail, e.g. with a remote lookup error.
pub trait FallibleEnvironment {
    /// The type of conditional expression that can be evaluated in the
    /// environment.
    type CExp;

    /// The type of error evaluation can produce.
    type Err;

    /// What fallible evaluation returns for a given expression.  The
    /// default leaves it unspecified; implementations refine it.
    open spec fn spec_fallible_evaluate(&self, exp: &Self::CExp) -> Result<bool, Self::Err> {
        arbitrary()
    }

    /// Test whether a condition holds, or fail with an environment error.
    fn fallible_evaluate(&self, exp: &Self::CExp) -> (r: Result<bool, Self::Err>)
        ensures
            r == self.spec_fallible_evaluate(exp),
    ;
}

/// Environment in which every expression evaluates true.
#[derive(PartialEq, Eq, Debug)]
pub struct PositiveEnvironment<CExp = ()>(pub core::marker::PhantomData<CExp>);

impl<CExp> PositiveEnvironment<CExp> {
    /// Create a new positive environment.
    pub fn new() -> (r: Self)
        ensures
            r == PositiveEnvironment::<CExp>(core::marker::PhantomData),
    {
        PositiveEnvironment(core::marker::PhantomData)
    }
}

impl<CExp> Default for PositiveEnvironment<CExp> {
    fn default() -> (r: Self)
        ensures
            r == PositiveEnvironment::<CExp>(core::marker::PhantomData),
    {
        PositiveEnvironment::new()
    }
}

impl<CExp> Environment for PositiveEnvironment<CExp> {
    type CExp = CExp;

    open spec fn spec_evaluate(&self, exp: &CExp) -> bool {
        true
    }

    fn evaluate(&self, exp: &CExp) -> bool {
        true
    }
}

/// Environment in which every expression evaluates false.
#[derive(PartialEq, Eq, Debug)]
pub struct NegativeEnvironment<CExp = ()>(pub core::marker::PhantomData<CExp>);

impl<CExp> NegativeEnvironment<CExp> {
    /// Create a new negative environment.
    pub fn new() -> (r: Self)
        ensures
            r == NegativeEnvironment::<CExp>(core::marker::PhantomData),
    {
        NegativeEnvironment(core::marker::PhantomData)
    }
}

impl<CExp> Default for NegativeEnvironment<CExp> {
    fn default() -> (r: Self)
        ensures
            r == NegativeEnvironment::<CExp>(core::marker::PhantomData),
    {
        NegativeEnvironment::new()
    }
}

impl<CExp> Environment for NegativeEnvironment<CExp> {
    type CExp = CExp;

    open spec fn spec_evaluate(&self, exp: &CExp) -> bool {
        false
    }

    fn evaluate(&self, exp: &CExp) -> bool {
        false
    }
}

/// Environment whose expressions are plain booleans standing for themselves.
pub struct TrivialEnv;

impl Environment for TrivialEnv {
    type CExp = bool;

    open spec fn spec_evaluate(&self, exp: &bool) -> bool {
        *exp
    }

    fn evaluate(&self, exp: &bool) -> bool {
        *exp
    }
}

impl FallibleEnvironment for TrivialEnv {
    type CExp = bool;

    type Err = ();

    open spec fn spec_fallible_evaluate(&self, exp: &bool) -> Result<bool, ()> {
        Ok(*exp)
    }

    fn fallible_evaluate(&self, exp: &bool) -> Result<bool, ()> {
        Ok(*exp)
    }
}

} // verus!
