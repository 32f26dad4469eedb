//! Effect expressions that depend on environmental conditions.
//!
//! A [`DependentEffect`] is produced by matching a policy against a concrete
//! subject; condition evaluation is deferred until [`DependentEffect::resolve`]
//! is called with an [`Environment`].  The same tree can therefore be resolved
//! against many environments.

use vstd::prelude::*;

use crate::effect::{
    combine_non_strict, combine_strict, spec_combine_non_strict, spec_combine_strict,
    spec_computed, ComputedEffect, Effect,
};
use crate::environment::Environment;

verus! {

/// A dependent authorization effect, resolved in the context of an
/// environment to produce a [`ComputedEffect`].
#[derive(Debug, PartialEq, Eq)]
pub enum DependentEffect<CExp> {
    /// Unconditional silence.  Resolves to `SILENT` in any environment.
    Silent,
    /// Unconditional effect.  Resolves to the wrapped effect in any
    /// environment.
    Unconditional(Effect),
    /// Conditional effect.  Resolves to the wrapped effect iff its condition
    /// evaluates true in the environment, and to `SILENT` otherwise.
    Conditional(Effect, CExp),
    /// Combines multiple effects for a single principal; resolved with
    /// [`combine_non_strict`].
    Composite(Vec<DependentEffect<CExp>>),
    /// Combines the effects of multiple independent principals; resolved with
    /// [`combine_strict`].
    Strict(Vec<DependentEffect<CExp>>),
}

impl<CExp> DependentEffect<CExp> {
    /// What resolving this effect in `env` returns.
    pub open spec fn spec_resolve<Env: Environment<CExp = CExp>>(self, env: &Env) -> ComputedEffect
        decreases self,
    {
        match self {
            DependentEffect::Silent => ComputedEffect::SILENT,
            DependentEffect::Unconditional(eff) => spec_computed(eff),
            DependentEffect::Conditional(eff, cexp) => if env.spec_evaluate(&cexp) {
                spec_computed(eff)
            } else {
                ComputedEffect::SILENT
            },
            DependentEffect::Composite(ts) => spec_combine_non_strict(
                spec_resolve_each(ts@, env),
            ),
            DependentEffect::Strict(ts) => spec_combine_strict(spec_resolve_each(ts@, env)),
        }
    }

    /// Evaluate the dependent effect in an environmental context.
    pub fn resolve<Env: Environment<CExp = CExp>>(&self, environment: &Env) -> (r: ComputedEffect)
        ensures
            r == self.spec_resolve(environment),
        decreases *self,
    {
        match self {
            DependentEffect::Silent => ComputedEffect::SILENT,
            DependentEffect::Unconditional(eff) => computed(*eff),
            DependentEffect::Conditional(eff, cexp) => {
                let applies = environment.evaluate(cexp);
                if applies {
                    computed(*eff)
                } else {
                    ComputedEffect::SILENT
                }
            }
            DependentEffect::Composite(ts) => {
                let resolved = resolve_each(ts, environment);
                combine_non_strict(resolved)
            }
            DependentEffect::Strict(ts) => {
                let resolved = resolve_each(ts, environment);
                combine_strict(resolved)
            }
        }
    }
}

/// What resolving each effect of a sequence in `env` returns, in order.
pub open spec fn spec_resolve_each<CExp, Env: Environment<CExp = CExp>>(
    ts: Seq<DependentEffect<CExp>>,
    env: &Env,
) -> Seq<ComputedEffect>
    decreases ts,
{
    if ts.len() == 0 {
        Seq::empty()
    } else {
        seq![ts.first().spec_resolve(env)] + spec_resolve_each(ts.drop_first(), env)
    }
}

/// The resolution of a sequence of effects, element by element.
proof fn lemma_spec_resolve_each<CExp, Env: Environment<CExp = CExp>>(
    ts: Seq<DependentEffect<CExp>>,
    env: &Env,
)
    ensures
        spec_resolve_each(ts, env).len() == ts.len(),
        forall|i: int|
            0 <= i < ts.len() ==> spec_resolve_each(ts, env)[i] == ts[i].spec_resolve(env),
    decreases ts,
{
    if ts.len() > 0 {
        lemma_spec_resolve_each(ts.drop_first(), env);
    }
}

/// Resolve every effect of a batch, in order.
fn resolve_each<CExp, Env: Environment<CExp = CExp>>(
    ts: &Vec<DependentEffect<CExp>>,
    environment: &Env,
) -> (r: Vec<ComputedEffect>)
    ensures
        r@ == spec_resolve_each(ts@, environment),
    decreases ts@,
{
    let mut resolved: Vec<ComputedEffect> = Vec::new();
    let n = ts.len();
    for i in 0..n
        invariant
            n == ts@.len(),
            resolved@.len() == i,
            forall|j: int| 0 <= j < i ==> resolved@[j] == ts@[j].spec_resolve(environment),
    {
        let c = ts[i].resolve(environment);
        resolved.push(c);
    }
    proof {
        lemma_spec_resolve_each(ts@, environment);
        assert(resolved@ =~= spec_resolve_each(ts@, environment));
    }
    resolved
}

/// Resolve an independent batch of dependent effects, in order.
pub fn resolve_all<CExp, Env: Environment<CExp = CExp>>(
    perms: &Vec<DependentEffect<CExp>>,
    environment: &Env,
) -> (r: Vec<ComputedEffect>)
    ensures
        r@.len() == perms@.len(),
        forall|i: int| 0 <= i < perms@.len() ==> r@[i] == perms@[i].spec_resolve(environment),
{
    let r = resolve_each(perms, environment);
    proof {
        lemma_spec_resolve_each(perms@, environment);
    }
    r
}

/// The computed effect of a definite effect.
fn computed(e: Effect) -> (r: ComputedEffect)
    ensures
        r == spec_computed(e),
{
    match e {
        Effect::ALLOW => ComputedEffect::ALLOW,
        Effect::DENY => ComputedEffect::DENY,
    }
}

} // verus!
