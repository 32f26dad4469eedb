//! Authorization query effects over optional values.
//!
//! This module states the combination algebra directly over
//! `Option<Effect>`: `None` is silence, `Some(_)` a definite effect.
//! [`combine_non_strict`] folds the applicable effects of a single
//! principal; [`combine_strict`] folds the decisions of independent
//! principals.

use vstd::prelude::*;

verus! {

/// Result of an authorization inquiry.
#[derive(Clone, Copy, PartialEq, Eq, Structural, Debug)]
pub enum Effect {
    /// Authorized.
    ALLOW,
    /// Not authorized.
    DENY,
}

/// Whether an optional effect denotes authorization: only a definite
/// `ALLOW` does.
pub open spec fn spec_authorized(eff: Option<Effect>) -> bool {
    eff == Some(Effect::ALLOW)
}

/// Determine if an optional effect denotes authorization.  `Some(ALLOW)` is
/// the only final result denoting authorization.
pub fn authorized(eff: Option<Effect>) -> (r: bool)
    ensures
        r == spec_authorized(eff),
{
    match eff {
        Some(Effect::ALLOW) => true,
        _ => false,
    }
}

/// Non-strict combination: any `Some(DENY)` wins; otherwise any
/// `Some(ALLOW)` wins; otherwise silence.
pub open spec fn spec_combine_non_strict(s: Seq<Option<Effect>>) -> Option<Effect> {
    if s.contains(Some(Effect::DENY)) {
        Some(Effect::DENY)
    } else if s.contains(Some(Effect::ALLOW)) {
        Some(Effect::ALLOW)
    } else {
        None
    }
}

/// Strict combination: emptiness or any silent constituent yields silence;
/// otherwise any `Some(DENY)` wins; otherwise `Some(ALLOW)`.
pub open spec fn spec_combine_strict(s: Seq<Option<Effect>>) -> Option<Effect> {
    if s.len() == 0 || s.contains(None::<Effect>) {
        None
    } else if s.contains(Some(Effect::DENY)) {
        Some(Effect::DENY)
    } else {
        Some(Effect::ALLOW)
    }
}

/// Combine multiple optional effects in non-strict fashion.  Silence is
/// ignored: the result is silence iff the argument is empty or holds only
/// silence; otherwise any `Some(DENY)` constituent wins over `Some(ALLOW)`
/// constituents.
pub fn combine_non_strict(effs: Vec<Option<Effect>>) -> (r: Option<Effect>)
    ensures
        r == spec_combine_non_strict(effs@),
{
    let mut saw_deny = false;
    let mut saw_allow = false;
    let n = effs.len();
    for i in 0..n
        invariant
            n == effs@.len(),
            saw_deny == effs@.take(i as int).contains(Some(Effect::DENY)),
            saw_allow == effs@.take(i as int).contains(Some(Effect::ALLOW)),
    {
        match effs[i] {
            Some(Effect::DENY) => {
                saw_deny = true;
            }
            Some(Effect::ALLOW) => {
                saw_allow = true;
            }
            None => {}
        }
        proof {
            lemma_take_contains_step(effs@, i as int, Some(Effect::DENY));
            lemma_take_contains_step(effs@, i as int, Some(Effect::ALLOW));
        }
    }
    proof {
        assert(effs@.take(n as int) =~= effs@);
    }
    if saw_deny {
        Some(Effect::DENY)
    } else if saw_allow {
        Some(Effect::ALLOW)
    } else {
        None
    }
}

/// Combine multiple optional effects in strict fashion, granting the least
/// common effect across principals.  Silence absorbs: if the argument is
/// empty or any constituent is silent, the result is silence; among
/// definite constituents any `Some(DENY)` wins.
pub fn combine_strict(effs: Vec<Option<Effect>>) -> (r: Option<Effect>)
    ensures
        r == spec_combine_strict(effs@),
{
    let mut saw_deny = false;
    let mut saw_silent = false;
    let n = effs.len();
    for i in 0..n
        invariant
            n == effs@.len(),
            saw_deny == effs@.take(i as int).contains(Some(Effect::DENY)),
            saw_silent == effs@.take(i as int).contains(None::<Effect>),
    {
        match effs[i] {
            Some(Effect::DENY) => {
                saw_deny = true;
            }
            None => {
                saw_silent = true;
            }
            Some(Effect::ALLOW) => {}
        }
        proof {
            lemma_take_contains_step(effs@, i as int, Some(Effect::DENY));
            lemma_take_contains_step(effs@, i as int, None);
        }
    }
    proof {
        assert(effs@.take(n as int) =~= effs@);
    }
    if effs.len() == 0 || saw_silent {
        None
    } else if saw_deny {
        Some(Effect::DENY)
    } else {
        Some(Effect::ALLOW)
    }
}

/// Extending a prefix by one element extends what it contains by exactly
/// that element.
proof fn lemma_take_contains_step(s: Seq<Option<Effect>>, i: int, x: Option<Effect>)
    requires
        0 <= i < s.len(),
    ensures
        s.take(i + 1).contains(x) <==> (s.take(i).contains(x) || s[i] == x),
{
    assert(s.take(i + 1).drop_last() =~= s.take(i));
    if s.take(i).contains(x) {
        let j = choose|j: int| 0 <= j < s.take(i).len() && #[trigger] s.take(i)[j] == x;
        assert(s.take(i + 1)[j] == x);
    }
    if s[i] == x {
        assert(s.take(i + 1)[i] == x);
    }
    if s.take(i + 1).contains(x) {
        let j = choose|j: int|
            0 <= j < s.take(i + 1).len() && #[trigger] s.take(i + 1)[j] == x;
        if j < i {
            assert(s.take(i)[j] == x);
        }
    }
}

} // verus!
