//! Conditional permissions for a single principal.
//!
//! A [`ConditionalPermission`] is the single-principal fragment of the
//! effect algebra: it has no strict composition, and resolves against a
//! fallible [`Environment`] to an optional definite effect, failing fast
//! on the first condition whose evaluation errors.

use vstd::prelude::*;

use crate::authorization::{combine_non_strict, spec_combine_non_strict};
use crate::condition::Environment;

pub use crate::authorization::Effect;

verus! {

/// With respect to an environment, a conditional permission applies iff
/// its condition is true in the environment; some variants are
/// unconditional.
#[derive(Debug, PartialEq, Eq)]
pub enum ConditionalPermission<CExp> {
    /// Unconditional silence.  Resolves to `None` in any environment.
    Silent,
    /// Unconditional effect.  Resolves to `Some(Effect)` in any
    /// environment.
    Fixed(Effect),
    /// Basic conditional effect.  Resolves to `Some(Effect)` iff its
    /// condition evaluates to `Ok(true)` in the environment.
    Atomic(Effect, CExp),
    /// Multiple permissions of a single principal, folded non-strictly.
    Aggregate(Vec<ConditionalPermission<CExp>>),
}

impl<CExp> ConditionalPermission<CExp> {
    /// What resolving this effect in `env` returns: the optional definite
    /// effect, or the first evaluation error met in the walk.
    pub open spec fn spec_resolve<Env: Environment<CExp = CExp>>(self, env: &Env) -> Result<
        Option<Effect>,
        Env::Err,
    >
        decreases self,
    {
        match self {
            ConditionalPermission::Silent => Ok(None),
            ConditionalPermission::Fixed(perm) => Ok(Some(perm)),
            ConditionalPermission::Atomic(perm, cexp) => match env.spec_test_condition(&cexp) {
                Ok(true) => Ok(Some(perm)),
                Ok(false) => Ok(None),
                Err(e) => Err(e),
            },
            ConditionalPermission::Aggregate(perms) => match spec_resolve_each(perms@, env) {
                Ok(resolved) => Ok(spec_combine_non_strict(resolved)),
                Err(e) => Err(e),
            },
        }
    }

    /// Resolve the effect in an environmental context, failing fast on the
    /// first condition whose evaluation errors.
    pub fn resolve<Env: Environment<CExp = CExp>>(&self, environment: &Env) -> (r: Result<
        Option<Effect>,
        Env::Err,
    >)
        ensures
            r == self.spec_resolve(environment),
        decreases *self,
    {
        match self {
            ConditionalPermission::Silent => Ok(None),
            ConditionalPermission::Fixed(perm) => Ok(Some(*perm)),
            ConditionalPermission::Atomic(perm, cexp) => match environment.test_condition(cexp) {
                Ok(true) => Ok(Some(*perm)),
                Ok(false) => Ok(None),
                Err(e) => Err(e),
            },
            ConditionalPermission::Aggregate(perms) => match resolve_each(perms, environment) {
                Ok(resolved) => Ok(combine_non_strict(resolved)),
                Err(e) => Err(e),
            },
        }
    }
}

/// What resolving each effect of a sequence returns: every result in
/// order, or the first error met.
pub open spec fn spec_resolve_each<CExp, Env: Environment<CExp = CExp>>(
    ts: Seq<ConditionalPermission<CExp>>,
    env: &Env,
) -> Result<Seq<Option<Effect>>, Env::Err>
    decreases ts,
{
    if ts.len() == 0 {
        Ok(Seq::empty())
    } else {
        match ts.first().spec_resolve(env) {
            Err(e) => Err(e),
            Ok(c) => match spec_resolve_each(ts.drop_first(), env) {
                Err(e) => Err(e),
                Ok(cs) => Ok(seq![c] + cs),
            },
        }
    }
}

/// On success, the resolution of a sequence of effects is element by
/// element.
proof fn lemma_spec_resolve_each_ok<CExp, Env: Environment<CExp = CExp>>(
    ts: Seq<ConditionalPermission<CExp>>,
    env: &Env,
)
    requires
        spec_resolve_each(ts, env) is Ok,
    ensures
        spec_resolve_each(ts, env)->Ok_0.len() == ts.len(),
        forall|i: int|
            0 <= i < ts.len() ==> #[trigger] ts[i].spec_resolve(env) == Ok::<
                Option<Effect>,
                Env::Err,
            >(spec_resolve_each(ts, env)->Ok_0[i]),
    decreases ts,
{
    if ts.len() > 0 {
        let rest = ts.drop_first();
        lemma_spec_resolve_each_ok(rest, env);
        let whole = spec_resolve_each(ts, env)->Ok_0;
        let c = ts.first().spec_resolve(env)->Ok_0;
        let cs = spec_resolve_each(rest, env)->Ok_0;
        assert forall|i: int| 0 <= i < ts.len() implies #[trigger] ts[i].spec_resolve(env)
            == Ok::<Option<Effect>, Env::Err>(whole[i]) by {
            if i == 0 {
                assert(ts[0] == ts.first());
                assert(whole[0] == c);
            } else {
                assert(ts[i] == rest[i - 1]);
                assert(whole[i] == cs[i - 1]);
            }
        }
    }
}

/// Resolve every effect of a batch in order, stopping at the first error.
fn resolve_each<CExp, Env: Environment<CExp = CExp>>(
    ts: &Vec<ConditionalPermission<CExp>>,
    environment: &Env,
) -> (r: Result<Vec<Option<Effect>>, Env::Err>)
    ensures
        match r {
            Ok(resolved) => Ok::<Seq<Option<Effect>>, Env::Err>(resolved@) == spec_resolve_each(
                ts@,
                environment,
            ),
            Err(e) => Err::<Seq<Option<Effect>>, Env::Err>(e) == spec_resolve_each(
                ts@,
                environment,
            ),
        },
    decreases ts@,
{
    let mut resolved: Vec<Option<Effect>> = Vec::new();
    let n = ts.len();
    proof {
        assert(ts@.skip(0) =~= ts@);
        match spec_resolve_each(ts@, environment) {
            Ok(rest) => {
                assert(Seq::<Option<Effect>>::empty() + rest =~= rest);
            }
            Err(e) => {}
        }
    }
    for i in 0..n
        invariant
            n == ts@.len(),
            spec_resolve_each(ts@, environment) == spec_resolve_each_from(
                ts@,
                i as int,
                resolved@,
                environment,
            ),
            resolved@.len() == i,
    {
        match ts[i].resolve(environment) {
            Ok(c) => {
                proof {
                    lemma_resolve_from_step(ts@, i as int, resolved@, c, environment);
                }
                resolved.push(c);
            }
            Err(e) => {
                proof {
                    assert(ts@.skip(i as int).first() == ts@[i as int]);
                }
                return Err(e);
            }
        }
    }
    proof {
        assert(ts@.skip(n as int) =~= Seq::empty());
        assert(resolved@ + Seq::<Option<Effect>>::empty() =~= resolved@);
    }
    Ok(resolved)
}

/// One successfully resolved element moves from the remainder to the
/// accumulator.
proof fn lemma_resolve_from_step<CExp, Env: Environment<CExp = CExp>>(
    ts: Seq<ConditionalPermission<CExp>>,
    i: int,
    acc: Seq<Option<Effect>>,
    c: Option<Effect>,
    env: &Env,
)
    requires
        0 <= i < ts.len(),
        ts[i].spec_resolve(env) == Ok::<Option<Effect>, Env::Err>(c),
    ensures
        spec_resolve_each_from(ts, i, acc, env) == spec_resolve_each_from(
            ts,
            i + 1,
            acc.push(c),
            env,
        ),
{
    assert(ts.skip(i).first() == ts[i]);
    assert(ts.skip(i).drop_first() =~= ts.skip(i + 1));
    match spec_resolve_each(ts.skip(i + 1), env) {
        Ok(cs) => {
            assert(acc + (seq![c] + cs) =~= acc.push(c) + cs);
        }
        Err(e) => {}
    }
}

/// The resolution of `ts` when its first `i` elements already resolved to
/// `acc`.
spec fn spec_resolve_each_from<CExp, Env: Environment<CExp = CExp>>(
    ts: Seq<ConditionalPermission<CExp>>,
    i: int,
    acc: Seq<Option<Effect>>,
    env: &Env,
) -> Result<Seq<Option<Effect>>, Env::Err> {
    match spec_resolve_each(ts.skip(i), env) {
        Ok(rest) => Ok(acc + rest),
        Err(e) => Err(e),
    }
}

/// Resolve an independent batch of conditional effects, stopping at the
/// first error in iteration order.
pub fn resolve_all<CExp, Env: Environment<CExp = CExp>>(
    perms: &Vec<ConditionalPermission<CExp>>,
    environment: &Env,
) -> (r: Result<Vec<Option<Effect>>, Env::Err>)
    ensures
        match r {
            Ok(resolved) => resolved@.len() == perms@.len() && forall|i: int|
                0 <= i < perms@.len() ==> #[trigger] perms@[i].spec_resolve(environment) == Ok::<
                    Option<Effect>,
                    Env::Err,
                >(resolved@[i]),
            Err(e) => exists|i: int|
                0 <= i < perms@.len() && #[trigger] perms@[i].spec_resolve(environment) == Err::<
                    Option<Effect>,
                    Env::Err,
                >(e),
        },
{
    let r = resolve_each(perms, environment);
    proof {
        match spec_resolve_each(perms@, environment) {
            Ok(resolved) => {
                lemma_spec_resolve_each_ok(perms@, environment);
            }
            Err(e) => {
                lemma_spec_resolve_each_err(perms@, environment, e);
            }
        }
    }
    r
}

/// An erroring resolution of a sequence comes from an erroring element.
proof fn lemma_spec_resolve_each_err<CExp, Env: Environment<CExp = CExp>>(
    ts: Seq<ConditionalPermission<CExp>>,
    env: &Env,
    e: Env::Err,
)
    requires
        spec_resolve_each(ts, env) == Err::<Seq<Option<Effect>>, Env::Err>(e),
    ensures
        exists|i: int|
            0 <= i < ts.len() && #[trigger] ts[i].spec_resolve(env) == Err::<
                Option<Effect>,
                Env::Err,
            >(e),
    decreases ts,
{
    if ts.len() > 0 {
        if ts.first().spec_resolve(env) == Err::<Option<Effect>, Env::Err>(e) {
            assert(ts[0] == ts.first());
        } else {
            lemma_spec_resolve_each_err(ts.drop_first(), env, e);
            let i = choose|i: int|
                0 <= i < ts.drop_first().len() && #[trigger] ts.drop_first()[i].spec_resolve(env)
                    == Err::<Option<Effect>, Env::Err>(e);
            assert(ts[i + 1] == ts.drop_first()[i]);
        }
    }
}

} // verus!
