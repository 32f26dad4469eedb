//! Authorization effects and the two combination operators.
//!
//! A policy statement carries a definite [`Effect`] (`ALLOW` or `DENY`).
//! Evaluating statements against a subject yields a [`ComputedEffect`],
//! which adds a third value, `SILENT`, meaning that no applicable statement
//! said anything.  Sequences of computed effects are folded into one with
//! [`combine_non_strict`] (silence is ignored; used for the statements of a
//! single principal) or [`combine_strict`] (silence absorbs; used across
//! independent principals).

use vstd::prelude::*;

verus! {

/// Definite authorization configured on a statement.
#[derive(Clone, Copy, PartialEq, Eq, Structural, Debug, Hash, PartialOrd, Ord)]
pub enum Effect {
    /// Definitely authorized.
    ALLOW,
    /// Definitely not authorized.
    DENY,
}

/// Result of evaluating a statement or a combination of statements.
#[derive(Clone, Copy, PartialEq, Eq, Structural, Debug, Hash)]
pub enum ComputedEffect {
    /// At least one applicable statement allowed and none denied.
    ALLOW,
    /// Some applicable statement denied.
    DENY,
    /// No applicable statement said anything.
    SILENT,
}

/// The computed effect of a single definite effect.
pub open spec fn spec_computed(e: Effect) -> ComputedEffect {
    match e {
        Effect::ALLOW => ComputedEffect::ALLOW,
        Effect::DENY => ComputedEffect::DENY,
    }
}

/// Non-strict combination of a sequence of computed effects:
/// any `DENY` wins; otherwise any `ALLOW` wins; otherwise `SILENT`.
pub open spec fn spec_combine_non_strict(s: Seq<ComputedEffect>) -> ComputedEffect {
    if s.contains(ComputedEffect::DENY) {
        ComputedEffect::DENY
    } else if s.contains(ComputedEffect::ALLOW) {
        ComputedEffect::ALLOW
    } else {
        ComputedEffect::SILENT
    }
}

/// Strict combination of a sequence of computed effects:
/// emptiness or any `SILENT` yields `SILENT`; otherwise any `DENY` wins;
/// otherwise `ALLOW`.
pub open spec fn spec_combine_strict(s: Seq<ComputedEffect>) -> ComputedEffect {
    if s.len() == 0 || s.contains(ComputedEffect::SILENT) {
        ComputedEffect::SILENT
    } else if s.contains(ComputedEffect::DENY) {
        ComputedEffect::DENY
    } else {
        ComputedEffect::ALLOW
    }
}

/// Combine the effects of the statements of a single principal.
/// Silence is ignored: the result is `SILENT` iff every constituent is
/// silent (or there are none); otherwise any `DENY` constituent wins over
/// `ALLOW` constituents.
pub fn combine_non_strict(effs: Vec<ComputedEffect>) -> (r: ComputedEffect)
    ensures
        r == spec_combine_non_strict(effs@),
{
    let mut saw_deny = false;
    let mut saw_allow = false;
    let n = effs.len();
    for i in 0..n
        invariant
            n == effs@.len(),
            saw_deny == effs@.take(i as int).contains(ComputedEffect::DENY),
            saw_allow == effs@.take(i as int).contains(ComputedEffect::ALLOW),
    {
        proof {
            assert(effs@.take(i + 1).drop_last() =~= effs@.take(i as int));
            assert(effs@.take(i + 1).last() == effs@[i as int]);
        }
        match effs[i] {
            ComputedEffect::DENY => {
                saw_deny = true;
            }
            ComputedEffect::ALLOW => {
                saw_allow = true;
            }
            ComputedEffect::SILENT => {}
        }
        proof {
            lemma_take_contains_step(effs@, i as int, ComputedEffect::DENY);
            lemma_take_contains_step(effs@, i as int, ComputedEffect::ALLOW);
        }
    }
    proof {
        assert(effs@.take(n as int) =~= effs@);
    }
    if saw_deny {
        ComputedEffect::DENY
    } else if saw_allow {
        ComputedEffect::ALLOW
    } else {
        ComputedEffect::SILENT
    }
}

/// Combine the independent decisions of multiple principals.
/// Silence absorbs: if any constituent is `SILENT` (or there are none),
/// the result is `SILENT`; among definite constituents any `DENY` wins.
pub fn combine_strict(effs: Vec<ComputedEffect>) -> (r: ComputedEffect)
    ensures
        r == spec_combine_strict(effs@),
{
    let mut saw_deny = false;
    let mut saw_silent = false;
    let n = effs.len();
    for i in 0..n
        invariant
            n == effs@.len(),
            saw_deny == effs@.take(i as int).contains(ComputedEffect::DENY),
            saw_silent == effs@.take(i as int).contains(ComputedEffect::SILENT),
    {
        proof {
            assert(effs@.take(i + 1).drop_last() =~= effs@.take(i as int));
            assert(effs@.take(i + 1).last() == effs@[i as int]);
        }
        match effs[i] {
            ComputedEffect::DENY => {
                saw_deny = true;
            }
            ComputedEffect::SILENT => {
                saw_silent = true;
            }
            ComputedEffect::ALLOW => {}
        }
        proof {
            lemma_take_contains_step(effs@, i as int, ComputedEffect::DENY);
            lemma_take_contains_step(effs@, i as int, ComputedEffect::SILENT);
        }
    }
    proof {
        assert(effs@.take(n as int) =~= effs@);
    }
    if effs.len() == 0 || saw_silent {
        ComputedEffect::SILENT
    } else if saw_deny {
        ComputedEffect::DENY
    } else {
        ComputedEffect::ALLOW
    }
}

/// Both combinators are functions of the multiset of their inputs: any
/// permutation of the same computed effects combines to the same result.
pub proof fn lemma_combine_permutation_invariant(s1: Seq<ComputedEffect>, s2: Seq<ComputedEffect>)
    requires
        s1.to_multiset() == s2.to_multiset(),
    ensures
        spec_combine_non_strict(s1) == spec_combine_non_strict(s2),
        spec_combine_strict(s1) == spec_combine_strict(s2),
{
    s1.to_multiset_ensures();
    s2.to_multiset_ensures();
    assert(s1.len() == s2.len());
    assert forall|x: ComputedEffect| s1.contains(x) == s2.contains(x) by {
        assert(s1.contains(x) <==> s1.to_multiset().count(x) > 0);
        assert(s2.contains(x) <==> s2.to_multiset().count(x) > 0);
    }
    assert(s1.contains(ComputedEffect::DENY) == s2.contains(ComputedEffect::DENY));
    assert(s1.contains(ComputedEffect::ALLOW) == s2.contains(ComputedEffect::ALLOW));
    assert(s1.contains(ComputedEffect::SILENT) == s2.contains(ComputedEffect::SILENT));
}

/// The non-strict combinator is associative over grouping: combining a
/// concatenation equals combining the two groups' results.
pub proof fn lemma_combine_non_strict_concat(s1: Seq<ComputedEffect>, s2: Seq<ComputedEffect>)
    ensures
        spec_combine_non_strict(s1 + s2) == spec_combine_non_strict(
            seq![spec_combine_non_strict(s1), spec_combine_non_strict(s2)],
        ),
{
    let a = spec_combine_non_strict(s1);
    let b = spec_combine_non_strict(s2);
    lemma_concat_contains(s1, s2, ComputedEffect::DENY);
    lemma_concat_contains(s1, s2, ComputedEffect::ALLOW);
    lemma_pair_contains(a, b, ComputedEffect::DENY);
    lemma_pair_contains(a, b, ComputedEffect::ALLOW);
}

/// The strict combinator is associative over grouping of non-empty
/// groups: combining a concatenation equals combining the two groups'
/// results.  (An empty group resolves to `SILENT`, which would absorb,
/// while concatenation discards it; hence the non-emptiness requirement.)
pub proof fn lemma_combine_strict_concat(s1: Seq<ComputedEffect>, s2: Seq<ComputedEffect>)
    requires
        s1.len() > 0,
        s2.len() > 0,
    ensures
        spec_combine_strict(s1 + s2) == spec_combine_strict(
            seq![spec_combine_strict(s1), spec_combine_strict(s2)],
        ),
{
    let a = spec_combine_strict(s1);
    let b = spec_combine_strict(s2);
    lemma_concat_contains(s1, s2, ComputedEffect::DENY);
    lemma_concat_contains(s1, s2, ComputedEffect::SILENT);
    lemma_pair_contains(a, b, ComputedEffect::DENY);
    lemma_pair_contains(a, b, ComputedEffect::SILENT);
}

/// Silence is the identity of the non-strict combinator, and silent
/// constituents are ignored by it entirely.
pub proof fn lemma_combine_non_strict_silence_ignored(s: Seq<ComputedEffect>)
    ensures
        spec_combine_non_strict(Seq::<ComputedEffect>::empty()) == ComputedEffect::SILENT,
        spec_combine_non_strict(s.push(ComputedEffect::SILENT)) == spec_combine_non_strict(s),
{
    lemma_pair_contains(ComputedEffect::SILENT, ComputedEffect::SILENT, ComputedEffect::DENY);
    assert(s.push(ComputedEffect::SILENT) =~= s + seq![ComputedEffect::SILENT]);
    lemma_concat_contains(s, seq![ComputedEffect::SILENT], ComputedEffect::DENY);
    lemma_concat_contains(s, seq![ComputedEffect::SILENT], ComputedEffect::ALLOW);
    lemma_pair_contains(
        ComputedEffect::SILENT,
        ComputedEffect::SILENT,
        ComputedEffect::ALLOW,
    );
    assert(!seq![ComputedEffect::SILENT].contains(ComputedEffect::DENY));
    assert(!seq![ComputedEffect::SILENT].contains(ComputedEffect::ALLOW));
}

/// Silence absorbs in the strict combinator: any silent constituent (or
/// emptiness) makes the whole combination silent.
pub proof fn lemma_combine_strict_silence_absorbs(s: Seq<ComputedEffect>)
    requires
        s.len() == 0 || s.contains(ComputedEffect::SILENT),
    ensures
        spec_combine_strict(s) == ComputedEffect::SILENT,
{
}

/// Denial dominates in both combinators: a `DENY` constituent decides the
/// non-strict combination, and the strict one as well unless silence
/// absorbs it.
pub proof fn lemma_combine_deny_dominates(s: Seq<ComputedEffect>)
    requires
        s.contains(ComputedEffect::DENY),
    ensures
        spec_combine_non_strict(s) == ComputedEffect::DENY,
        !s.contains(ComputedEffect::SILENT) ==> spec_combine_strict(s) == ComputedEffect::DENY,
{
}

/// An element is in a concatenation iff it is in one of the parts.
proof fn lemma_concat_contains(s1: Seq<ComputedEffect>, s2: Seq<ComputedEffect>, x: ComputedEffect)
    ensures
        (s1 + s2).contains(x) <==> (s1.contains(x) || s2.contains(x)),
{
    if s1.contains(x) {
        let j = choose|j: int| 0 <= j < s1.len() && #[trigger] s1[j] == x;
        assert((s1 + s2)[j] == x);
    }
    if s2.contains(x) {
        let j = choose|j: int| 0 <= j < s2.len() && #[trigger] s2[j] == x;
        assert((s1 + s2)[j + s1.len()] == x);
    }
    if (s1 + s2).contains(x) {
        let j = choose|j: int| 0 <= j < (s1 + s2).len() && #[trigger] (s1 + s2)[j] == x;
        if j < s1.len() {
            assert(s1[j] == x);
        } else {
            assert(s2[j - s1.len()] == x);
        }
    }
}

/// An element is in a two-element sequence iff it is one of the two.
proof fn lemma_pair_contains(a: ComputedEffect, b: ComputedEffect, x: ComputedEffect)
    ensures
        seq![a, b].contains(x) <==> (a == x || b == x),
{
    let s = seq![a, b];
    if a == x {
        assert(s[0] == x);
    }
    if b == x {
        assert(s[1] == x);
    }
    if s.contains(x) {
        let j = choose|j: int| 0 <= j < s.len() && #[trigger] s[j] == x;
        assert(j == 0 || j == 1);
    }
}

/// Capability of deciding whether a value authorizes access.
pub trait Authorized {
    /// Whether the value denotes authorization.
    spec fn spec_authorized(&self) -> bool;

    /// Determine if the value authorizes access.
    fn authorized(&self) -> (r: bool)
        ensures
            r == self.spec_authorized(),
    ;
}

/// Capability of deciding whether a value is silent, i.e. says nothing
/// about authorization.
pub trait Silent {
    /// Whether the value is silent.
    spec fn spec_silent(&self) -> bool;

    /// Determine if the value is silent.
    fn silent(&self) -> (r: bool)
        ensures
            r == self.spec_silent(),
    ;
}

impl Authorized for Effect {
    open spec fn spec_authorized(&self) -> bool {
        *self == Effect::ALLOW
    }

    fn authorized(&self) -> bool {
        match self {
            Effect::ALLOW => true,
            Effect::DENY => false,
        }
    }
}

impl Silent for Effect {
    open spec fn spec_silent(&self) -> bool {
        false
    }

    fn silent(&self) -> bool {
        false
    }
}

impl Authorized for ComputedEffect {
    open spec fn spec_authorized(&self) -> bool {
        *self == ComputedEffect::ALLOW
    }

    fn authorized(&self) -> bool {
        match self {
            ComputedEffect::ALLOW => true,
            ComputedEffect::DENY => false,
            ComputedEffect::SILENT => false,
        }
    }
}

impl Silent for ComputedEffect {
    open spec fn spec_silent(&self) -> bool {
        *self == ComputedEffect::SILENT
    }

    fn silent(&self) -> bool {
        match self {
            ComputedEffect::ALLOW => false,
            ComputedEffect::DENY => false,
            ComputedEffect::SILENT => true,
        }
    }
}

/// A computed effect kept in combination form: either a definite effect,
/// or the unfolded collection of constituent results.
#[derive(PartialEq, Eq, Debug, Hash, PartialOrd, Ord)]
pub enum ComputedEffect2 {
    /// The results of the constituent statements, not yet folded.
    Complex(Vec<ComputedEffect2>),
    /// A definite effect.
    Definite(Effect),
}

impl ComputedEffect2 {
    /// Whether this value is silent: a definite effect never is, a
    /// combination iff all its constituents are.
    pub open spec fn spec_silent(self) -> bool
        decreases self,
    {
        match self {
            ComputedEffect2::Definite(_) => false,
            ComputedEffect2::Complex(ts) => forall|i: int|
                0 <= i < ts@.len() ==> (#[trigger] ts@[i]).spec_silent(),
        }
    }

    /// Whether this value authorizes access: a definite effect iff it is
    /// `ALLOW`; a combination iff some constituent is not silent and every
    /// non-silent constituent authorizes.
    pub open spec fn spec_authorized(self) -> bool
        decreases self,
    {
        match self {
            ComputedEffect2::Definite(eff) => eff == Effect::ALLOW,
            ComputedEffect2::Complex(ts) => (exists|i: int|
                0 <= i < ts@.len() && !(#[trigger] ts@[i]).spec_silent()) && (forall|i: int|
                0 <= i < ts@.len() && !(#[trigger] ts@[i]).spec_silent() ==> ts@[i].spec_authorized()),
        }
    }
}

impl From<Effect> for ComputedEffect2 {
    fn from(effect: Effect) -> Self {
        ComputedEffect2::Definite(effect)
    }
}

impl vstd::std_specs::convert::FromSpecImpl<Effect> for ComputedEffect2 {
    open spec fn obeys_from_spec() -> bool {
        true
    }

    open spec fn from_spec(effect: Effect) -> Self {
        ComputedEffect2::Definite(effect)
    }
}

impl Silent for ComputedEffect2 {
    open spec fn spec_silent(&self) -> bool {
        ComputedEffect2::spec_silent(*self)
    }

    fn silent(&self) -> (r: bool)
        decreases *self,
    {
        match self {
            ComputedEffect2::Definite(_) => false,
            ComputedEffect2::Complex(ts) => all_silent(ts),
        }
    }
}

/// Whether every constituent of a combination is silent.
fn all_silent(ts: &Vec<ComputedEffect2>) -> (r: bool)
    ensures
        r == forall|i: int| 0 <= i < ts@.len() ==> (#[trigger] ts@[i]).spec_silent(),
    decreases ts@,
{
    let n = ts.len();
    for i in 0..n
        invariant
            n == ts@.len(),
            forall|j: int| 0 <= j < i ==> (#[trigger] ts@[j]).spec_silent(),
    {
        if !ts[i].silent() {
            return false;
        }
    }
    true
}

impl Authorized for ComputedEffect2 {
    open spec fn spec_authorized(&self) -> bool {
        ComputedEffect2::spec_authorized(*self)
    }

    fn authorized(&self) -> (r: bool)
        decreases *self,
    {
        match self {
            ComputedEffect2::Definite(eff) => match eff {
                Effect::ALLOW => true,
                Effect::DENY => false,
            },
            ComputedEffect2::Complex(ts) => complex_authorized(ts),
        }
    }
}

/// Whether a combination authorizes: some constituent is not silent, and
/// every non-silent constituent authorizes.
fn complex_authorized(ts: &Vec<ComputedEffect2>) -> (r: bool)
    ensures
        r == ((exists|i: int| 0 <= i < ts@.len() && !(#[trigger] ts@[i]).spec_silent()) && (
        forall|i: int|
            0 <= i < ts@.len() && !(#[trigger] ts@[i]).spec_silent()
                ==> ts@[i].spec_authorized())),
    decreases ts@,
{
    let mut saw_loud = false;
    let n = ts.len();
    for i in 0..n
        invariant
            n == ts@.len(),
            saw_loud == exists|j: int| 0 <= j < i && !(#[trigger] ts@[j]).spec_silent(),
            forall|j: int|
                0 <= j < i && !(#[trigger] ts@[j]).spec_silent() ==> ts@[j].spec_authorized(),
    {
        if !ts[i].silent() {
            saw_loud = true;
            if !ts[i].authorized() {
                return false;
            }
        }
    }
    saw_loud
}

/// Extending a prefix by one element extends what it contains by exactly
/// that element.
proof fn lemma_take_contains_step(s: Seq<ComputedEffect>, i: int, x: ComputedEffect)
    requires
        0 <= i < s.len(),
    ensures
        s.take(i + 1).contains(x) <==> (s.take(i).contains(x) || s[i] == x),
{
    assert(s.take(i + 1).drop_last() =~= s.take(i));
    if s.take(i).contains(x) {
        let j = choose|j: int| 0 <= j < s.take(i).len() && #[trigger] s.take(i)[j] == x;
        assert(s.take(i + 1)[j] == x);
    }
    if s[i] == x {
        assert(s.take(i + 1)[i] == x);
    }
    if s.take(i + 1).contains(x) {
        let j = choose|j: int|
            0 <= j < s.take(i + 1).len() && #[trigger] s.take(i + 1)[j] == x;
        if j < i {
            assert(s.take(i)[j] == x);
        }
    }
}

} // verus!
