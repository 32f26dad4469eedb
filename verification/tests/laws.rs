use authorization_core::action::StrAction;
use authorization_core::authorization::Effect;
use authorization_core::condition::Environment;
use authorization_core::effect::ComputedEffect::{ALLOW, DENY, SILENT};
use authorization_core::effect::{combine_non_strict, combine_strict};
use authorization_core::fallible_effect::DependentEffect;
use authorization_core::policy::{Policy, StrMatcher};
use authorization_core::resource::StrResource;
use authorization_core::matcher::{EqualityMatcher, ExtendedMatcher, Matcher};

#[derive(Clone, Debug, PartialEq, Eq)]
enum TestExpression {
    Match,
    Miss,
    Error,
}

struct TestEnv;

impl Environment for TestEnv {
    type Err = &'static str;
    type CExp = TestExpression;

    fn test_condition(&self, exp: &Self::CExp) -> Result<bool, Self::Err> {
        match exp {
            TestExpression::Match => Ok(true),
            TestExpression::Miss => Ok(false),
            TestExpression::Error => Err("lookup failed"),
        }
    }
}

struct BoolEnv;

impl Environment for BoolEnv {
    type Err = ();
    type CExp = bool;

    fn test_condition(&self, exp: &Self::CExp) -> Result<bool, Self::Err> {
        Ok(*exp)
    }
}

#[test]
fn combine_invariant_under_permutation() {
    assert_eq!(
        combine_non_strict(vec![ALLOW, DENY, SILENT]),
        combine_non_strict(vec![SILENT, DENY, ALLOW]),
    );
    assert_eq!(
        combine_strict(vec![ALLOW, DENY, SILENT]),
        combine_strict(vec![SILENT, DENY, ALLOW]),
    );
    assert_eq!(
        combine_non_strict(vec![ALLOW, ALLOW, DENY]),
        combine_non_strict(vec![DENY, ALLOW, ALLOW]),
    );
}

#[test]
fn combine_invariant_under_regrouping() {
    let grouped = combine_non_strict(vec![
        combine_non_strict(vec![ALLOW, SILENT]),
        combine_non_strict(vec![DENY]),
    ]);
    assert_eq!(grouped, combine_non_strict(vec![ALLOW, SILENT, DENY]));

    let grouped = combine_strict(vec![
        combine_strict(vec![ALLOW, ALLOW]),
        combine_strict(vec![DENY]),
    ]);
    assert_eq!(grouped, combine_strict(vec![ALLOW, ALLOW, DENY]));
}

#[test]
fn combine_identity_and_absorption() {
    assert_eq!(combine_non_strict(vec![]), SILENT);
    assert_eq!(combine_non_strict(vec![SILENT, SILENT]), SILENT);
    assert_eq!(combine_strict(vec![]), SILENT);
    assert_eq!(combine_strict(vec![SILENT, ALLOW]), SILENT);
    assert_eq!(combine_non_strict(vec![SILENT, ALLOW]), ALLOW);
}

#[test]
fn combine_deny_dominance() {
    assert_eq!(combine_non_strict(vec![ALLOW, DENY, ALLOW]), DENY);
    assert_eq!(combine_strict(vec![ALLOW, DENY, ALLOW]), DENY);
}

#[test]
fn resolve_correctness_conditional_allow() {
    let eff = DependentEffect::Atomic(Effect::ALLOW, TestExpression::Match);
    assert_eq!(eff.resolve(&TestEnv), Ok(ALLOW));

    let eff = DependentEffect::Atomic(Effect::ALLOW, TestExpression::Miss);
    assert_eq!(eff.resolve(&TestEnv), Ok(SILENT));

    let eff = DependentEffect::Atomic(Effect::ALLOW, TestExpression::Error);
    assert_eq!(eff.resolve(&TestEnv), Err("lookup failed"));
}

#[test]
fn resolve_error_fail_fast() {
    let eff = DependentEffect::Aggregate(vec![
        DependentEffect::Fixed(Effect::ALLOW),
        DependentEffect::Atomic(Effect::ALLOW, TestExpression::Error),
        DependentEffect::Fixed(Effect::DENY),
    ]);

    let actual = eff.resolve(&TestEnv);

    assert_eq!(actual, Err("lookup failed"));
}

#[test]
fn end_to_end_deny_wins_over_conditional_allow() {
    let policy = Policy::Aggregate(vec![
        Policy::Unconditional(StrMatcher("r"), StrMatcher("a"), Effect::DENY),
        Policy::Conditional(StrMatcher("r"), StrMatcher("a"), Effect::ALLOW, true),
    ]);

    let dependent = policy.apply(&StrResource("r"), &StrAction("a"));
    assert_eq!(
        dependent,
        DependentEffect::Aggregate(vec![
            DependentEffect::Fixed(Effect::DENY),
            DependentEffect::Atomic(Effect::ALLOW, true),
        ])
    );

    let decision = dependent.resolve(&BoolEnv);
    assert_eq!(decision, Ok(DENY));
}

#[test]
fn end_to_end_unmatched_policy_is_silent() {
    let policy = Policy::Aggregate(vec![
        Policy::<_, _, bool>::Unconditional(StrMatcher("other"), StrMatcher("a"), Effect::DENY),
        Policy::Conditional(StrMatcher("r"), StrMatcher("a"), Effect::ALLOW, false),
    ]);

    let dependent = policy.apply(&StrResource("r"), &StrAction("a"));
    let decision = dependent.resolve(&BoolEnv);
    assert_eq!(decision, Ok(SILENT));
}

#[test]
fn str_equality_compares_content() {

    let m = EqualityMatcher::<&str>::match_only("alpha");
    let owned = String::from("alpha");
    assert!(m.test(&owned.as_str()));
    assert!(!m.test(&"alphb"));
    assert!(!m.test(&""));
}
