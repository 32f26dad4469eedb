//! Policy statements for a single principal, and subject matching.
//!
//! An [`Assertion`] is a primitive rule: the effect of matching a resource
//! pattern, an action pattern and (optionally) an environmental condition.
//! A [`Policy`] is a principal's set of assertions.  [`Policy::for_subject`]
//! projects a policy onto a concrete subject, listing every statement whose
//! patterns cover it without evaluating any condition.

use vstd::prelude::*;

use crate::effect::{spec_computed, ComputedEffect, Effect};
use crate::environment::Environment;
use crate::matcher::{ExtendedMatcher, Matcher, SpecEq};

verus! {

/// Authorization policy primitive rule: the effect of meeting resource,
/// action, and environmental conditions.
#[derive(Clone, Debug, PartialEq, Eq)]
pub enum Assertion<RMatch, AMatch, CExp> {
    /// Rule that matches under any environmental condition.
    Unconditional(RMatch, AMatch, Effect),
    /// Rule that matches resource, action, and environmental conditions.
    Conditional(RMatch, AMatch, Effect, CExp),
}

impl<RMatch, AMatch, CExp> Assertion<RMatch, AMatch, CExp> {
    /// Create an assertion that denies all access.
    pub fn deny_all<R, A>() -> (r: Self) where
        RMatch: ExtendedMatcher + Matcher<Target = R>,
        AMatch: ExtendedMatcher + Matcher<Target = A>,
        R: SpecEq,
        A: SpecEq,

        ensures
            forall|res: R, act: A| #[trigger] r.spec_applies_to_subject(&res, &act),
            r matches Assertion::Unconditional(_, _, eff) && eff == Effect::DENY,
    {
        Assertion::Unconditional(RMatch::match_any(), AMatch::match_any(), Effect::DENY)
    }

    /// Create an assertion that allows any access.
    pub fn allow_any<R, A>() -> (r: Self) where
        RMatch: ExtendedMatcher + Matcher<Target = R>,
        AMatch: ExtendedMatcher + Matcher<Target = A>,
        R: SpecEq,
        A: SpecEq,

        ensures
            forall|res: R, act: A| #[trigger] r.spec_applies_to_subject(&res, &act),
            r matches Assertion::Unconditional(_, _, eff) && eff == Effect::ALLOW,
    {
        Assertion::Unconditional(RMatch::match_any(), AMatch::match_any(), Effect::ALLOW)
    }
}

impl<R, RMatch, A, AMatch, CExp> Assertion<RMatch, AMatch, CExp> where
    RMatch: Matcher<Target = R>,
    AMatch: Matcher<Target = A>,
 {
    /// Whether this assertion covers the given resource.
    pub open spec fn spec_applies_to_resource(&self, resource: &R) -> bool {
        match self {
            Assertion::Unconditional(rmatch, _, _) => rmatch.spec_test(resource),
            Assertion::Conditional(rmatch, _, _, _) => rmatch.spec_test(resource),
        }
    }

    /// Whether this assertion covers the given action.
    pub open spec fn spec_applies_to_action(&self, action: &A) -> bool {
        match self {
            Assertion::Unconditional(_, amatch, _) => amatch.spec_test(action),
            Assertion::Conditional(_, amatch, _, _) => amatch.spec_test(action),
        }
    }

    /// Whether this assertion covers the given subject.
    pub open spec fn spec_applies_to_subject(&self, resource: &R, action: &A) -> bool {
        self.spec_applies_to_resource(resource) && self.spec_applies_to_action(action)
    }

    /// Whether this assertion applies to the given subject in the given
    /// environment.
    pub open spec fn spec_applies<Env: Environment<CExp = CExp>>(
        &self,
        resource: &R,
        action: &A,
        env: &Env,
    ) -> bool {
        match self {
            Assertion::Unconditional(_, _, _) => self.spec_applies_to_subject(resource, action),
            Assertion::Conditional(_, _, _, condition) => self.spec_applies_to_subject(
                resource,
                action,
            ) && env.spec_evaluate(condition),
        }
    }

    /// The definite effect this assertion selects.
    pub open spec fn spec_effect(&self) -> Effect {
        match self {
            Assertion::Unconditional(_, _, eff) => *eff,
            Assertion::Conditional(_, _, eff, _) => *eff,
        }
    }

    /// Determine if the assertion applies to a subject in a specific
    /// environment.
    pub fn applies<Env>(&self, resource: &R, action: &A, environment: &Env) -> (r: bool) where
        Env: Environment<CExp = CExp>,

        ensures
            r == self.spec_applies(resource, action, environment),
    {
        match self {
            Assertion::Unconditional(rmatch, amatch, _) => rmatch.test(resource) && amatch.test(
                action,
            ),
            Assertion::Conditional(rmatch, amatch, _, condition) => rmatch.test(resource)
                && amatch.test(action) && environment.evaluate(condition),
        }
    }

    /// Determine if the assertion applies to a resource.
    pub fn applies_to_resource(&self, resource: &R) -> (r: bool)
        ensures
            r == self.spec_applies_to_resource(resource),
    {
        match self {
            Assertion::Unconditional(rmatch, _, _) => rmatch.test(resource),
            Assertion::Conditional(rmatch, _, _, _) => rmatch.test(resource),
        }
    }

    /// Determine if the assertion applies to an action.
    pub fn applies_to_action(&self, action: &A) -> (r: bool)
        ensures
            r == self.spec_applies_to_action(action),
    {
        match self {
            Assertion::Unconditional(_, amatch, _) => amatch.test(action),
            Assertion::Conditional(_, amatch, _, _) => amatch.test(action),
        }
    }

    /// Determine if the assertion applies to a subject, regardless of any
    /// condition.
    pub fn applies_to_subject(&self, resource: &R, action: &A) -> (r: bool)
        ensures
            r == self.spec_applies_to_subject(resource, action),
    {
        match self {
            Assertion::Unconditional(rmatch, amatch, _) => rmatch.test(resource) && amatch.test(
                action,
            ),
            Assertion::Conditional(rmatch, amatch, _, _) => rmatch.test(resource) && amatch.test(
                action,
            ),
        }
    }

    /// Apply the assertion to a subject in an environment: its effect where
    /// it applies, silence where it does not.
    pub fn apply<Env>(&self, resource: &R, action: &A, environment: &Env) -> (r: ComputedEffect) where
        Env: Environment<CExp = CExp>,

        ensures
            r == if self.spec_applies(resource, action, environment) {
                spec_computed(self.spec_effect())
            } else {
                ComputedEffect::SILENT
            },
    {
        if self.applies(resource, action, environment) {
            match self {
                Assertion::Conditional(_, _, eff, _) => match eff {
                    Effect::ALLOW => ComputedEffect::ALLOW,
                    Effect::DENY => ComputedEffect::DENY,
                },
                Assertion::Unconditional(_, _, eff) => match eff {
                    Effect::ALLOW => ComputedEffect::ALLOW,
                    Effect::DENY => ComputedEffect::DENY,
                },
            }
        } else {
            ComputedEffect::SILENT
        }
    }
}

/// The statement-level projection of an assertion whose subject patterns
/// have already matched.
#[derive(Clone, Copy, PartialEq, Eq, Debug, Hash, PartialOrd, Ord)]
pub enum SubjectAssertion<CExp> {
    /// A matching statement that applies under any condition.
    Unconditional(Effect),
    /// A matching statement guarded by a condition.
    Conditional(Effect, CExp),
}

/// The subject projection of a single assertion.
pub open spec fn spec_project<R, RMatch, A, AMatch, CExp>(
    assertion: Assertion<RMatch, AMatch, CExp>,
) -> SubjectAssertion<CExp> where RMatch: Matcher<Target = R>, AMatch: Matcher<Target = A> {
    match assertion {
        Assertion::Unconditional(_, _, eff) => SubjectAssertion::Unconditional(eff),
        Assertion::Conditional(_, _, eff, exp) => SubjectAssertion::Conditional(eff, exp),
    }
}

/// The projections of every assertion in `s` that covers the subject, in
/// order.
pub open spec fn spec_for_subject<R, RMatch, A, AMatch, CExp>(
    s: Seq<Assertion<RMatch, AMatch, CExp>>,
    resource: &R,
    action: &A,
) -> Seq<SubjectAssertion<CExp>> where RMatch: Matcher<Target = R>, AMatch: Matcher<Target = A>
    decreases s.len(),
{
    if s.len() == 0 {
        Seq::empty()
    } else {
        let head: Seq<SubjectAssertion<CExp>> = if s.first().spec_applies_to_subject(
            resource,
            action,
        ) {
            seq![spec_project(s.first())]
        } else {
            Seq::empty()
        };
        head + spec_for_subject(s.drop_first(), resource, action)
    }
}

/// Appending one assertion extends the subject projection by its
/// projection exactly where it covers the subject.
proof fn lemma_spec_for_subject_push<R, RMatch, A, AMatch, CExp>(
    s: Seq<Assertion<RMatch, AMatch, CExp>>,
    x: Assertion<RMatch, AMatch, CExp>,
    resource: &R,
    action: &A,
) where RMatch: Matcher<Target = R>, AMatch: Matcher<Target = A>
    ensures
        spec_for_subject(s.push(x), resource, action) == spec_for_subject(s, resource, action)
            + if x.spec_applies_to_subject(resource, action) {
            seq![spec_project(x)]
        } else {
            Seq::<SubjectAssertion<CExp>>::empty()
        },
    decreases s.len(),
{
    let tail = if x.spec_applies_to_subject(resource, action) {
        seq![spec_project(x)]
    } else {
        Seq::<SubjectAssertion<CExp>>::empty()
    };
    if s.len() == 0 {
        assert(s.push(x).drop_first() =~= s);
        assert(spec_for_subject(s.push(x), resource, action) =~= spec_for_subject(
            s,
            resource,
            action,
        ) + tail);
    } else {
        assert(s.push(x).first() == s.first());
        assert(s.push(x).drop_first() =~= s.drop_first().push(x));
        lemma_spec_for_subject_push(s.drop_first(), x, resource, action);
        assert(spec_for_subject(s.push(x), resource, action) =~= spec_for_subject(
            s,
            resource,
            action,
        ) + tail);
    }
}

/// The subject projection is sound and complete: it holds the projection
/// of every assertion that covers the subject, and everything it holds is
/// the projection of some covering assertion.
pub proof fn lemma_for_subject_complete<R, RMatch, A, AMatch, CExp>(
    s: Seq<Assertion<RMatch, AMatch, CExp>>,
    resource: &R,
    action: &A,
) where RMatch: Matcher<Target = R>, AMatch: Matcher<Target = A>
    ensures
        forall|j: int|
            0 <= j < s.len() && (#[trigger] s[j]).spec_applies_to_subject(resource, action)
                ==> spec_for_subject(s, resource, action).contains(spec_project(s[j])),
        forall|x: SubjectAssertion<CExp>|
            #[trigger] spec_for_subject(s, resource, action).contains(x) ==> exists|j: int|
                0 <= j < s.len() && (#[trigger] s[j]).spec_applies_to_subject(resource, action)
                    && spec_project(s[j]) == x,
    decreases s.len(),
{
    if s.len() > 0 {
        let rest = s.drop_first();
        lemma_for_subject_complete(rest, resource, action);
        let whole = spec_for_subject(s, resource, action);
        let tail = spec_for_subject(rest, resource, action);
        let head_len: int = if s.first().spec_applies_to_subject(resource, action) {
            1
        } else {
            0
        };
        assert forall|j: int|
            0 <= j < s.len() && (#[trigger] s[j]).spec_applies_to_subject(resource, action)
                implies whole.contains(spec_project(s[j])) by {
            if j == 0 {
                assert(whole[0] == spec_project(s.first()));
            } else {
                assert(rest[j - 1] == s[j]);
                assert(tail.contains(spec_project(rest[j - 1])));
                let k = choose|k: int| 0 <= k < tail.len() && #[trigger] tail[k] == spec_project(
                    rest[j - 1],
                );
                assert(whole[k + head_len] == tail[k]);
            }
        }
        assert forall|x: SubjectAssertion<CExp>| #[trigger] whole.contains(x) implies exists|j: int|
            0 <= j < s.len() && (#[trigger] s[j]).spec_applies_to_subject(resource, action)
                && spec_project(s[j]) == x by {
            let k = choose|k: int| 0 <= k < whole.len() && #[trigger] whole[k] == x;
            if k < head_len {
                assert(s[0].spec_applies_to_subject(resource, action) && spec_project(s[0]) == x);
            } else {
                assert(tail[k - head_len] == x);
                assert(tail.contains(x));
                let j = choose|j: int|
                    0 <= j < rest.len() && (#[trigger] rest[j]).spec_applies_to_subject(
                        resource,
                        action,
                    ) && spec_project(rest[j]) == x;
                assert(s[j + 1] == rest[j]);
            }
        }
    }
}

/// A principal's policy: the set of assertions configured for it.
#[derive(Clone, Debug, PartialEq, Eq)]
pub struct Policy<As>(pub Vec<As>);

impl<RMatch, AMatch, CExp> Policy<Assertion<RMatch, AMatch, CExp>> {
    /// The assertions this policy holds.
    pub fn iter(&self) -> (r: &Vec<Assertion<RMatch, AMatch, CExp>>)
        ensures
            r@ == self.0@,
    {
        &self.0
    }

    /// Create a policy that denies all access.
    pub fn deny_all<R, A>() -> (r: Self) where
        RMatch: ExtendedMatcher + Matcher<Target = R>,
        AMatch: ExtendedMatcher + Matcher<Target = A>,
        R: SpecEq,
        A: SpecEq,

        ensures
            r.0@.len() == 1,
            forall|res: R, act: A| #[trigger] r.0@[0].spec_applies_to_subject(&res, &act),
            r.0@[0] matches Assertion::Unconditional(_, _, eff) && eff == Effect::DENY,
    {
        Policy(vec![Assertion::deny_all()])
    }

    /// Create a policy that allows any access.
    pub fn allow_any<R, A>() -> (r: Self) where
        RMatch: ExtendedMatcher + Matcher<Target = R>,
        AMatch: ExtendedMatcher + Matcher<Target = A>,
        R: SpecEq,
        A: SpecEq,

        ensures
            r.0@.len() == 1,
            forall|res: R, act: A| #[trigger] r.0@[0].spec_applies_to_subject(&res, &act),
            r.0@[0] matches Assertion::Unconditional(_, _, eff) && eff == Effect::ALLOW,
    {
        Policy(vec![Assertion::allow_any()])
    }

    /// List every assertion that matches the provided subject, projected to
    /// the statement level, in policy order.
    pub fn for_subject<R, A>(&self, resource: &R, action: &A) -> (r: Vec<
        SubjectAssertion<CExp>,
    >) where
        RMatch: Matcher<Target = R>,
        AMatch: Matcher<Target = A>,
        CExp: Copy,

        ensures
            r@ == spec_for_subject(self.0@, resource, action),
    {
        let mut result: Vec<SubjectAssertion<CExp>> = Vec::new();
        let n = self.0.len();
        for i in 0..n
            invariant
                n == self.0@.len(),
                result@ == spec_for_subject(self.0@.take(i as int), resource, action),
        {
            proof {
                assert(self.0@.take(i + 1) =~= self.0@.take(i as int).push(self.0@[i as int]));
                lemma_spec_for_subject_push(
                    self.0@.take(i as int),
                    self.0@[i as int],
                    resource,
                    action,
                );
            }
            let assertion = &self.0[i];
            if assertion.applies_to_subject(resource, action) {
                match assertion {
                    Assertion::Conditional(_, _, eff, exp) => {
                        result.push(SubjectAssertion::Conditional(*eff, *exp));
                    }
                    Assertion::Unconditional(_, _, eff) => {
                        result.push(SubjectAssertion::Unconditional(*eff));
                    }
                }
            }
            proof {
                assert(result@ =~= spec_for_subject(self.0@.take(i + 1), resource, action));
            }
        }
        proof {
            assert(self.0@.take(n as int) =~= self.0@);
        }
        result
    }
}

impl<RM, AM, CExp> From<Vec<Assertion<RM, AM, CExp>>> for Policy<Assertion<RM, AM, CExp>> {
    fn from(items: Vec<Assertion<RM, AM, CExp>>) -> Self {
        Policy(items)
    }
}

impl<RM, AM, CExp> vstd::std_specs::convert::FromSpecImpl<Vec<Assertion<RM, AM, CExp>>> for Policy<Assertion<RM, AM, CExp>> {
    open spec fn obeys_from_spec() -> bool {
        true
    }

    open spec fn from_spec(items: Vec<Assertion<RM, AM, CExp>>) -> Self {
        Policy(items)
    }
}

impl<RM, AM, CExp> From<Assertion<RM, AM, CExp>> for Policy<Assertion<RM, AM, CExp>> {
    fn from(item: Assertion<RM, AM, CExp>) -> Self {
        Policy(vec![item])
    }
}

impl<RM, AM, CExp> vstd::std_specs::convert::FromSpecImpl<Assertion<RM, AM, CExp>> for Policy<Assertion<RM, AM, CExp>> {
    open spec fn obeys_from_spec() -> bool {
        false
    }

    open spec fn from_spec(item: Assertion<RM, AM, CExp>) -> Self {
        arbitrary()
    }
}

} // verus!
