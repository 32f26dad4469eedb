//! Conditions evaluated as environmental side effects.
//!
//! The [`Environment`] contract here is fallible: testing a condition may
//! fail, e.g. with a remote communication or database error, and every
//! resolution path built on it propagates that failure.

use vstd::prelude::*;

verus! {

/// An environment in which conditions can be evaluated; evaluation can
/// fail.
pub trait Environment {
    /// The type of error produced by this environment, e.g. remote
    /// communication or database errors.
    type Err;

    /// The type of expression that can be evaluated in the environment.
    type CExp;

    /// What testing a condition returns for a given expression.  The
    /// default leaves it unspecified; implementations refine it.
    open spec fn spec_test_condition(&self, exp: &Self::CExp) -> Result<bool, Self::Err> {
        arbitrary()
    }

    /// Test that a condition holds with respect to the environment.  Can
    /// return `Err(_)` if an environmental error is encountered.
    fn test_condition(&self, exp: &Self::CExp) -> (r: Result<bool, Self::Err>)
        ensures
            r == self.spec_test_condition(exp),
    ;
}

/// Environment in which conditions always match and evaluations never
/// fail.
#[derive(PartialEq, Eq, Debug, Clone, Copy)]
pub struct PositiveEnvironment;

/// The error type of [`PositiveEnvironment`]; never produced.
#[derive(PartialEq, Eq, Debug, Clone, Copy)]
pub struct PositiveEnvironmentError;

impl Environment for PositiveEnvironment {
    type Err = PositiveEnvironmentError;

    type CExp = ();

    open spec fn spec_test_condition(&self, exp: &()) -> Result<bool, PositiveEnvironmentError> {
        Ok(true)
    }

    fn test_condition(&self, exp: &()) -> Result<bool, PositiveEnvironmentError> {
        Ok(true)
    }
}

/// Environment in which conditions never match and evaluations never
/// fail.
#[derive(PartialEq, Eq, Debug, Clone, Copy)]
pub struct NegativeEnvironment;

/// The error type of [`NegativeEnvironment`]; never produced.
#[derive(PartialEq, Eq, Debug, Clone, Copy)]
pub struct NegativeEnvironmentError;

impl Environment for NegativeEnvironment {
    type Err = NegativeEnvironmentError;

    type CExp = ();

    open spec fn spec_test_condition(&self, exp: &()) -> Result<bool, NegativeEnvironmentError> {
        Ok(false)
    }

    fn test_condition(&self, exp: &()) -> Result<bool, NegativeEnvironmentError> {
        Ok(false)
    }
}

} // verus!
