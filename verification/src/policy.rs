//! Policy configurations for a principal.
//!
//! A [`Policy`] is a recursive statement tree: unconditional statements,
//! condition-guarded statements, and aggregates of sub-policies.  Applying
//! a policy to a concrete subject performs only matcher testing and yields
//! a [`DependentEffect`] mirroring the matched tree, with every condition
//! deferred.  [`apply_disjoint`] applies the policies of several
//! independent principals and combines them strictly.

use vstd::prelude::*;

use crate::action::ActionMatch;
use crate::fallible_effect::DependentEffect;
use crate::matcher::SpecEq;
use crate::authorization::Effect;
use crate::resource::ResourceMatch;

verus! {

/// Trivial string matcher, usable for both resources and actions.
#[derive(Debug, PartialEq, Eq, Clone, Copy)]
pub struct StrMatcher<'a>(pub &'a str);

impl<'a> ResourceMatch for StrMatcher<'a> {
    type Resource = crate::resource::StrResource<'a>;

    open spec fn spec_test(&self, resource: &Self::Resource) -> bool {
        self.0@ == resource.0@
    }

    fn test(&self, resource: &Self::Resource) -> bool {
        SpecEq::eq_test(&self.0, &resource.0)
    }
}

impl<'a> ActionMatch for StrMatcher<'a> {
    type Action = crate::action::StrAction<'a>;

    open spec fn spec_test(&self, action: &Self::Action) -> bool {
        self.0@ == action.0@
    }

    fn test(&self, action: &Self::Action) -> bool {
        SpecEq::eq_test(&self.0, &action.0)
    }
}

/// A configured authorization policy.
#[derive(Debug, PartialEq, Eq)]
pub enum Policy<RMatch, AMatch, CExp> {
    /// Applies if resource and action match; does not depend on a
    /// condition.  If matched, it applies to `DependentEffect::Fixed(_)`.
    Unconditional(RMatch, AMatch, Effect),
    /// Applies if resource and action match; the result is conditional on
    /// the environment.  If matched, it applies to
    /// `DependentEffect::Atomic(_)`.
    Conditional(RMatch, AMatch, Effect, CExp),
    /// A single principal's aggregate of sub-policies.  It applies to
    /// `DependentEffect::Aggregate(_)`.
    Aggregate(Vec<Policy<RMatch, AMatch, CExp>>),
}

impl<R, RMatch, A, AMatch, CExp> Policy<RMatch, AMatch, CExp> where
    RMatch: ResourceMatch<Resource = R>,
    AMatch: ActionMatch<Action = A>,
 {
    /// Whether this policy covers the given subject: a leaf statement
    /// covers it iff both its matchers match, an aggregate iff any of its
    /// sub-policies does.
    pub open spec fn spec_applies(&self, resource: &R, action: &A) -> bool
        decreases self,
    {
        match self {
            Policy::Unconditional(rmatch, amatch, _) => rmatch.spec_test(resource)
                && amatch.spec_test(action),
            Policy::Conditional(rmatch, amatch, _, _) => rmatch.spec_test(resource)
                && amatch.spec_test(action),
            Policy::Aggregate(ts) => exists|i: int|
                0 <= i < ts@.len() && (#[trigger] ts@[i]).spec_applies(resource, action),
        }
    }

    /// What applying this policy to the given subject yields: the result
    /// mirrors the policy tree, with every non-matching leaf silent and
    /// every condition deferred.
    pub open spec fn spec_apply(&self, resource: &R, action: &A, r: &DependentEffect<CExp>) -> bool
        decreases self,
    {
        match self {
            Policy::Unconditional(rmatch, amatch, eff) => if self.spec_applies(resource, action) {
                *r == DependentEffect::<CExp>::Fixed(*eff)
            } else {
                *r == DependentEffect::<CExp>::Silent
            },
            Policy::Conditional(rmatch, amatch, eff, cond) => if self.spec_applies(
                resource,
                action,
            ) {
                *r matches DependentEffect::Atomic(e, c) && e == *eff && c == *cond
            } else {
                *r == DependentEffect::<CExp>::Silent
            },
            Policy::Aggregate(ts) => *r matches DependentEffect::Aggregate(rs) && rs@.len()
                == ts@.len() && forall|i: int|
                0 <= i < ts@.len() ==> ts@[i].spec_apply(resource, action, &rs@[i]),
        }
    }

    /// Determine if the policy applies to a concrete resource and action.
    pub fn applies(&self, resource: &R, action: &A) -> (r: bool)
        ensures
            r == self.spec_applies(resource, action),
        decreases *self,
    {
        match self {
            Policy::Unconditional(rmatch, amatch, _) => rmatch.test(resource) && amatch.test(
                action,
            ),
            Policy::Conditional(rmatch, amatch, _, _) => rmatch.test(resource) && amatch.test(
                action,
            ),
            Policy::Aggregate(ts) => applies_any(ts, resource, action),
        }
    }

    /// Apply the policy to a concrete resource and action.  Results in a
    /// [`DependentEffect`] that can be resolved in an environment.
    pub fn apply(&self, resource: &R, action: &A) -> (r: DependentEffect<CExp>) where CExp: Copy
        ensures
            self.spec_apply(resource, action, &r),
        decreases *self,
    {
        match self {
            Policy::Conditional(rmatch, amatch, eff, cond) => {
                if rmatch.test(resource) && amatch.test(action) {
                    DependentEffect::Atomic(*eff, *cond)
                } else {
                    DependentEffect::Silent
                }
            }
            Policy::Unconditional(rmatch, amatch, eff) => {
                if rmatch.test(resource) && amatch.test(action) {
                    DependentEffect::Fixed(*eff)
                } else {
                    DependentEffect::Silent
                }
            }
            Policy::Aggregate(ts) => DependentEffect::Aggregate(
                apply_each(ts, resource, action),
            ),
        }
    }
}

/// Whether any policy of a batch covers the subject.
fn applies_any<R, A, CExp, RMatch, AMatch>(
    ts: &Vec<Policy<RMatch, AMatch, CExp>>,
    resource: &R,
    action: &A,
) -> (r: bool) where
    RMatch: ResourceMatch<Resource = R>,
    AMatch: ActionMatch<Action = A>,

    ensures
        r == exists|i: int|
            0 <= i < ts@.len() && (#[trigger] ts@[i]).spec_applies(resource, action),
    decreases ts@,
{
    let n = ts.len();
    for i in 0..n
        invariant
            n == ts@.len(),
            forall|j: int| 0 <= j < i ==> !(#[trigger] ts@[j]).spec_applies(resource, action),
    {
        if ts[i].applies(resource, action) {
            return true;
        }
    }
    false
}

/// Apply every policy of a batch to the subject, in order.
fn apply_each<R, A, CExp, RMatch, AMatch>(
    ts: &Vec<Policy<RMatch, AMatch, CExp>>,
    resource: &R,
    action: &A,
) -> (rs: Vec<DependentEffect<CExp>>) where
    RMatch: ResourceMatch<Resource = R>,
    AMatch: ActionMatch<Action = A>,
    CExp: Copy,

    ensures
        rs@.len() == ts@.len(),
        forall|j: int| 0 <= j < ts@.len() ==> ts@[j].spec_apply(resource, action, &rs@[j]),
    decreases ts@,
{
    let mut rs: Vec<DependentEffect<CExp>> = Vec::new();
    let n = ts.len();
    for i in 0..n
        invariant
            n == ts@.len(),
            rs@.len() == i,
            forall|j: int| 0 <= j < i ==> ts@[j].spec_apply(resource, action, &rs@[j]),
    {
        let c = ts[i].apply(resource, action);
        rs.push(c);
    }
    rs
}

/// Apply multiple policies using the strict algorithm.  This is used when
/// evaluating the policies of a composite principal (e.g. application and
/// user), where authorization requires every constituent to be
/// authorized.
pub fn apply_disjoint<R, A, CExp, RMatch, AMatch>(
    policies: &Vec<Policy<RMatch, AMatch, CExp>>,
    resource: &R,
    action: &A,
) -> (r: DependentEffect<CExp>) where
    RMatch: ResourceMatch<Resource = R>,
    AMatch: ActionMatch<Action = A>,
    CExp: Copy,

    ensures
        r matches DependentEffect::Disjoint(rs) && rs@.len() == policies@.len() && forall|i: int|
            0 <= i < policies@.len() ==> policies@[i].spec_apply(resource, action, &rs@[i]),
{
    DependentEffect::Disjoint(apply_each(policies, resource, action))
}

} // verus!
