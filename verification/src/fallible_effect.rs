//! Effects that depend on environmental conditions, with fallible
//! resolution to a computed effect.
//!
//! A [`DependentEffect`] defers condition evaluation until
//! [`DependentEffect::resolve`] is called with a fallible
//! [`Environment`].  Resolution fails fast: the first condition whose
//! evaluation errors aborts the whole walk, and no partial result is
//! combined with an error.

use vstd::prelude::*;

use crate::authorization::Effect;
use crate::condition::Environment;
use crate::effect::{
    combine_non_strict, combine_strict, spec_combine_non_strict, spec_combine_strict,
    ComputedEffect,
};

verus! {

/// A dependent authorization effect, resolved in the context of a
/// fallible environment to produce a [`ComputedEffect`].
#[derive(Debug, PartialEq, Eq)]
pub enum DependentEffect<CExp> {
    /// Unconditional silence.  Resolves to `SILENT` in any environment.
    Silent,
    /// Unconditional effect.  Resolves to the wrapped effect in any
    /// environment.
    Fixed(Effect),
    /// Basic conditional effect.  Resolves to the wrapped effect iff its
    /// condition evaluates to `Ok(true)` in the environment.
    Atomic(Effect, CExp),
    /// Multiple effects of a single principal, folded non-strictly.
    Aggregate(Vec<DependentEffect<CExp>>),
    /// Effects of multiple independent principals, folded strictly.
    Disjoint(Vec<DependentEffect<CExp>>),
}

impl<CExp> DependentEffect<CExp> {
    /// What resolving this effect in `env` returns: the computed effect,
    /// or the first evaluation error met in the walk.
    pub open spec fn spec_resolve<Env: Environment<CExp = CExp>>(self, env: &Env) -> Result<
        ComputedEffect,
        Env::Err,
    >
        decreases self,
    {
        match self {
            DependentEffect::Silent => Ok(ComputedEffect::SILENT),
            DependentEffect::Fixed(eff) => Ok(spec_computed(eff)),
            DependentEffect::Atomic(eff, cexp) => match env.spec_test_condition(&cexp) {
                Ok(true) => Ok(spec_computed(eff)),
                Ok(false) => Ok(ComputedEffect::SILENT),
                Err(e) => Err(e),
            },
            DependentEffect::Aggregate(perms) => match spec_resolve_each(perms@, env) {
                Ok(resolved) => Ok(spec_combine_non_strict(resolved)),
                Err(e) => Err(e),
            },
            DependentEffect::Disjoint(effs) => match spec_resolve_each(effs@, env) {
                Ok(resolved) => Ok(spec_combine_strict(resolved)),
                Err(e) => Err(e),
            },
        }
    }

    /// Resolve the effect in an environmental context, failing fast on the
    /// first condition whose evaluation errors.
    pub fn resolve<Env: Environment<CExp = CExp>>(&self, environment: &Env) -> (r: Result<
        ComputedEffect,
        Env::Err,
    >)
        ensures
            r == self.spec_resolve(environment),
        decreases *self,
    {
        match self {
            DependentEffect::Silent => Ok(ComputedEffect::SILENT),
            DependentEffect::Fixed(eff) => Ok(computed(*eff)),
            DependentEffect::Atomic(eff, cexp) => match environment.test_condition(cexp) {
                Ok(true) => Ok(computed(*eff)),
                Ok(false) => Ok(ComputedEffect::SILENT),
                Err(e) => Err(e),
            },
            DependentEffect::Aggregate(perms) => match resolve_each(perms, environment) {
                Ok(resolved) => Ok(combine_non_strict(resolved)),
                Err(e) => Err(e),
            },
            DependentEffect::Disjoint(effs) => match resolve_each(effs, environment) {
                Ok(resolved) => Ok(combine_strict(resolved)),
                Err(e) => Err(e),
            },
        }
    }
}

/// What resolving each effect of a sequence returns: every result in
/// order, or the first error met.
pub open spec fn spec_resolve_each<CExp, Env: Environment<CExp = CExp>>(
    ts: Seq<DependentEffect<CExp>>,
    env: &Env,
) -> Result<Seq<ComputedEffect>, Env::Err>
    decreases ts,
{
    if ts.len() == 0 {
        Ok(Seq::empty())
    } else {
        match ts.first().spec_resolve(env) {
            Err(e) => Err(e),
            Ok(c) => match spec_resolve_each(ts.drop_first(), env) {
                Err(e) => Err(e),
                Ok(cs) => Ok(seq![c] + cs),
            },
        }
    }
}

/// On success, the resolution of a sequence of effects is element by
/// element.
proof fn lemma_spec_resolve_each_ok<CExp, Env: Environment<CExp = CExp>>(
    ts: Seq<DependentEffect<CExp>>,
    env: &Env,
)
    requires
        spec_resolve_each(ts, env) is Ok,
    ensures
        spec_resolve_each(ts, env)->Ok_0.len() == ts.len(),
        forall|i: int|
            0 <= i < ts.len() ==> #[trigger] ts[i].spec_resolve(env) == Ok::<
                ComputedEffect,
                Env::Err,
            >(spec_resolve_each(ts, env)->Ok_0[i]),
    decreases ts,
{
    if ts.len() > 0 {
        let rest = ts.drop_first();
        lemma_spec_resolve_each_ok(rest, env);
        let whole = spec_resolve_each(ts, env)->Ok_0;
        let c = ts.first().spec_resolve(env)->Ok_0;
        let cs = spec_resolve_each(rest, env)->Ok_0;
        assert forall|i: int| 0 <= i < ts.len() implies #[trigger] ts[i].spec_resolve(env)
            == Ok::<ComputedEffect, Env::Err>(whole[i]) by {
            if i == 0 {
                assert(ts[0] == ts.first());
                assert(whole[0] == c);
            } else {
                assert(ts[i] == rest[i - 1]);
                assert(whole[i] == cs[i - 1]);
            }
        }
    }
}

/// Failures propagate: where any constituent's resolution errors, the
/// whole batch's resolution errors as well, and no partial combination is
/// returned.
pub proof fn lemma_resolve_error_propagates<CExp, Env: Environment<CExp = CExp>>(
    ts: Seq<DependentEffect<CExp>>,
    env: &Env,
)
    requires
        exists|i: int| 0 <= i < ts.len() && (#[trigger] ts[i].spec_resolve(env)) is Err,
    ensures
        spec_resolve_each(ts, env) is Err,
    decreases ts,
{
    let i = choose|i: int| 0 <= i < ts.len() && (#[trigger] ts[i].spec_resolve(env)) is Err;
    if i > 0 && !(ts.first().spec_resolve(env) is Err) {
        assert(ts.drop_first()[i - 1] == ts[i]);
        lemma_resolve_error_propagates(ts.drop_first(), env);
    }
}

/// Resolve every effect of a batch in order, stopping at the first error.
fn resolve_each<CExp, Env: Environment<CExp = CExp>>(
    ts: &Vec<DependentEffect<CExp>>,
    environment: &Env,
) -> (r: Result<Vec<ComputedEffect>, Env::Err>)
    ensures
        match r {
            Ok(resolved) => Ok::<Seq<ComputedEffect>, Env::Err>(resolved@) == spec_resolve_each(
                ts@,
                environment,
            ),
            Err(e) => Err::<Seq<ComputedEffect>, Env::Err>(e) == spec_resolve_each(
                ts@,
                environment,
            ),
        },
    decreases ts@,
{
    let mut resolved: Vec<ComputedEffect> = Vec::new();
    let n = ts.len();
    proof {
        assert(ts@.skip(0) =~= ts@);
        match spec_resolve_each(ts@, environment) {
            Ok(rest) => {
                assert(Seq::<ComputedEffect>::empty() + rest =~= rest);
            }
            Err(e) => {}
        }
    }
    for i in 0..n
        invariant
            n == ts@.len(),
            spec_resolve_each(ts@, environment) == spec_resolve_each_from(
                ts@,
                i as int,
                resolved@,
                environment,
            ),
            resolved@.len() == i,
    {
        match ts[i].resolve(environment) {
            Ok(c) => {
                proof {
                    lemma_resolve_from_step(ts@, i as int, resolved@, c, environment);
                }
                resolved.push(c);
            }
            Err(e) => {
                proof {
                    assert(ts@.skip(i as int).first() == ts@[i as int]);
                }
                return Err(e);
            }
        }
    }
    proof {
        assert(ts@.skip(n as int) =~= Seq::empty());
        assert(resolved@ + Seq::<ComputedEffect>::empty() =~= resolved@);
    }
    Ok(resolved)
}

/// One successfully resolved element moves from the remainder to the
/// accumulator.
proof fn lemma_resolve_from_step<CExp, Env: Environment<CExp = CExp>>(
    ts: Seq<DependentEffect<CExp>>,
    i: int,
    acc: Seq<ComputedEffect>,
    c: ComputedEffect,
    env: &Env,
)
    requires
        0 <= i < ts.len(),
        ts[i].spec_resolve(env) == Ok::<ComputedEffect, Env::Err>(c),
    ensures
        spec_resolve_each_from(ts, i, acc, env) == spec_resolve_each_from(
            ts,
            i + 1,
            acc.push(c),
            env,
        ),
{
    assert(ts.skip(i).first() == ts[i]);
    assert(ts.skip(i).drop_first() =~= ts.skip(i + 1));
    match spec_resolve_each(ts.skip(i + 1), env) {
        Ok(cs) => {
            assert(acc + (seq![c] + cs) =~= acc.push(c) + cs);
        }
        Err(e) => {}
    }
}

/// The resolution of `ts` when its first `i` elements already resolved to
/// `acc`.
spec fn spec_resolve_each_from<CExp, Env: Environment<CExp = CExp>>(
    ts: Seq<DependentEffect<CExp>>,
    i: int,
    acc: Seq<ComputedEffect>,
    env: &Env,
) -> Result<Seq<ComputedEffect>, Env::Err> {
    match spec_resolve_each(ts.skip(i), env) {
        Ok(rest) => Ok(acc + rest),
        Err(e) => Err(e),
    }
}

/// Resolve an independent batch of conditional effects, stopping at the
/// first error in iteration order.
pub fn resolve_all<CExp, Env: Environment<CExp = CExp>>(
    perms: &Vec<DependentEffect<CExp>>,
    environment: &Env,
) -> (r: Result<Vec<ComputedEffect>, Env::Err>)
    ensures
        match r {
            Ok(resolved) => resolved@.len() == perms@.len() && forall|i: int|
                0 <= i < perms@.len() ==> #[trigger] perms@[i].spec_resolve(environment) == Ok::<
                    ComputedEffect,
                    Env::Err,
                >(resolved@[i]),
            Err(e) => exists|i: int|
                0 <= i < perms@.len() && #[trigger] perms@[i].spec_resolve(environment) == Err::<
                    ComputedEffect,
                    Env::Err,
                >(e),
        },
{
    let r = resolve_each(perms, environment);
    proof {
        match spec_resolve_each(perms@, environment) {
            Ok(resolved) => {
                lemma_spec_resolve_each_ok(perms@, environment);
            }
            Err(e) => {
                lemma_spec_resolve_each_err(perms@, environment, e);
            }
        }
    }
    r
}

/// An erroring resolution of a sequence comes from an erroring element.
proof fn lemma_spec_resolve_each_err<CExp, Env: Environment<CExp = CExp>>(
    ts: Seq<DependentEffect<CExp>>,
    env: &Env,
    e: Env::Err,
)
    requires
        spec_resolve_each(ts, env) == Err::<Seq<ComputedEffect>, Env::Err>(e),
    ensures
        exists|i: int|
            0 <= i < ts.len() && #[trigger] ts[i].spec_resolve(env) == Err::<
                ComputedEffect,
                Env::Err,
            >(e),
    decreases ts,
{
    if ts.len() > 0 {
        if ts.first().spec_resolve(env) == Err::<ComputedEffect, Env::Err>(e) {
            assert(ts[0] == ts.first());
        } else {
            lemma_spec_resolve_each_err(ts.drop_first(), env, e);
            let i = choose|i: int|
                0 <= i < ts.drop_first().len() && #[trigger] ts.drop_first()[i].spec_resolve(env)
                    == Err::<ComputedEffect, Env::Err>(e);
            assert(ts[i + 1] == ts.drop_first()[i]);
        }
    }
}

/// The computed effect of a definite effect.
pub open spec fn spec_computed(e: Effect) -> ComputedEffect {
    match e {
        Effect::ALLOW => ComputedEffect::ALLOW,
        Effect::DENY => ComputedEffect::DENY,
    }
}

/// The computed effect of a definite effect.
fn computed(e: Effect) -> (r: ComputedEffect)
    ensures
        r == spec_computed(e),
{
    match e {
        Effect::ALLOW => ComputedEffect::ALLOW,
        Effect::DENY => ComputedEffect::DENY,
    }
}

} // verus!
