//! Policy generation from parameterized templates.
//!
//! Templates allow parameterized policies based on modifying resources,
//! e.g. symbolic roles that are scoped to a concrete resource at
//! instantiation time.  Applying a [`PolicyTemplate`] substitutes the
//! parameter into every resource-matcher template, preserving the tree's
//! structure and every other field.

use vstd::prelude::*;

use crate::authorization::Effect;
use crate::policy::Policy;

verus! {

/// General parameterization capability: generate a target value from a
/// parameter.
pub trait Template<T>: Sized {
    /// The formal argument type; use product types for multiple
    /// parameters.
    type Param;

    /// Whether `r` is what instantiating this template with `p` yields.
    /// The default leaves it unspecified; implementations refine it.
    open spec fn spec_apply(self, p: Self::Param, r: T) -> bool {
        arbitrary()
    }

    /// Generate the target from the parameter.
    fn apply(self, p: &Self::Param) -> (r: T)
        ensures
            self.spec_apply(*p, r),
    ;
}

/// Template to generate a policy.  Parameterization generates a resource
/// matcher from a template; every other policy component is carried over
/// unchanged.
#[derive(Debug, PartialEq, Eq)]
pub enum PolicyTemplate<RMatchTpl, AMatch, CExp> {
    /// Generates a `Policy::Unconditional(_)` by instantiating a resource
    /// matcher template.
    Unconditional(RMatchTpl, AMatch, Effect),
    /// Generates a `Policy::Conditional(_)` by instantiating a resource
    /// matcher template.
    Conditional(RMatchTpl, AMatch, Effect, CExp),
    /// Generates a `Policy::Aggregate(_)` by instantiating every
    /// constituent with the same parameter.
    Aggregate(Vec<PolicyTemplate<RMatchTpl, AMatch, CExp>>),
}

/// The structure-preserving instantiation relation: `r` is the policy the
/// template yields for parameter `p`, structurally identical to the
/// template, with every resource-matcher template instantiated and every
/// other field carried over.
pub open spec fn spec_template_apply<RMatchTpl, RMatch, AMatch, CExp>(
    tpl: PolicyTemplate<RMatchTpl, AMatch, CExp>,
    p: <RMatchTpl as Template<RMatch>>::Param,
    r: Policy<RMatch, AMatch, CExp>,
) -> bool where RMatchTpl: Template<RMatch>
    decreases tpl,
{
    match tpl {
        PolicyTemplate::Unconditional(rmtpl, am, eff) => match r {
            Policy::Unconditional(rm, am2, eff2) => rmtpl.spec_apply(p, rm) && am2 == am && eff2
                == eff,
            _ => false,
        },
        PolicyTemplate::Conditional(rmtpl, am, eff, cond) => match r {
            Policy::Conditional(rm, am2, eff2, cond2) => rmtpl.spec_apply(p, rm) && am2 == am
                && eff2 == eff && cond2 == cond,
            _ => false,
        },
        PolicyTemplate::Aggregate(elems) => match r {
            Policy::Aggregate(rs) => rs@.len() == elems@.len() && forall|i: int|
                0 <= i < elems@.len() ==> spec_template_apply(elems@[i], p, rs@[i]),
            _ => false,
        },
    }
}

impl<RMatchTpl, RMatch, AMatch, CExp> Template<Policy<RMatch, AMatch, CExp>> for PolicyTemplate<
    RMatchTpl,
    AMatch,
    CExp,
> where RMatchTpl: Template<RMatch> + Copy, AMatch: Copy, CExp: Copy {
    type Param = <RMatchTpl as Template<RMatch>>::Param;

    open spec fn spec_apply(
        self,
        p: <RMatchTpl as Template<RMatch>>::Param,
        r: Policy<RMatch, AMatch, CExp>,
    ) -> bool {
        spec_template_apply(self, p, r)
    }

    fn apply(self, p: &Self::Param) -> (r: Policy<RMatch, AMatch, CExp>) {
        template_apply(&self, p)
    }
}

/// Instantiate a template for a parameter.
fn template_apply<RMatchTpl, RMatch, AMatch, CExp>(
    tpl: &PolicyTemplate<RMatchTpl, AMatch, CExp>,
    p: &<RMatchTpl as Template<RMatch>>::Param,
) -> (r: Policy<RMatch, AMatch, CExp>) where
    RMatchTpl: Template<RMatch> + Copy,
    AMatch: Copy,
    CExp: Copy,

    ensures
        spec_template_apply(*tpl, *p, r),
    decreases *tpl,
{
    match tpl {
        PolicyTemplate::Unconditional(rmtpl, am, eff) => Policy::Unconditional(
            rmtpl.apply(p),
            *am,
            *eff,
        ),
        PolicyTemplate::Conditional(rmtpl, am, eff, cond) => Policy::Conditional(
            rmtpl.apply(p),
            *am,
            *eff,
            *cond,
        ),
        PolicyTemplate::Aggregate(elems) => Policy::Aggregate(template_apply_each(elems, p)),
    }
}

/// Instantiate every template of a batch for the same parameter, in
/// order.
fn template_apply_each<RMatchTpl, RMatch, AMatch, CExp>(
    elems: &Vec<PolicyTemplate<RMatchTpl, AMatch, CExp>>,
    p: &<RMatchTpl as Template<RMatch>>::Param,
) -> (rs: Vec<Policy<RMatch, AMatch, CExp>>) where
    RMatchTpl: Template<RMatch> + Copy,
    AMatch: Copy,
    CExp: Copy,

    ensures
        rs@.len() == elems@.len(),
        forall|i: int| 0 <= i < elems@.len() ==> spec_template_apply(elems@[i], *p, rs@[i]),
    decreases elems@,
{
    let mut rs: Vec<Policy<RMatch, AMatch, CExp>> = Vec::new();
    let n = elems.len();
    for i in 0..n
        invariant
            n == elems@.len(),
            rs@.len() == i,
            forall|j: int| 0 <= j < i ==> spec_template_apply(elems@[j], *p, rs@[j]),
    {
        let c = template_apply(&elems[i], p);
        rs.push(c);
    }
    rs
}

} // verus!
