use authorization_core::authorization::Effect;
use authorization_core::policy::Policy;
use authorization_core::policy_template::{PolicyTemplate, Template};

/* Don't care that these are real matchers and conditions. just need something to verify
 * the conversion from template to policy
 */
#[derive(Debug, PartialEq, Eq, Clone, Copy)]
struct RMatch(&'static str);

#[derive(Debug, PartialEq, Eq, Clone, Copy)]
struct AMatch(&'static str);

#[derive(Debug, PartialEq, Eq, Clone, Copy)]
struct Cond(&'static str);

#[derive(Clone, Copy)]
struct RMatchTpl;

impl Template<RMatch> for RMatchTpl {
    type Param = &'static str;
    fn apply(self, p: &Self::Param) -> RMatch {
        RMatch(p)
    }
}

#[test]
fn test_empty_aggregate() {
    let template = PolicyTemplate::<RMatchTpl, AMatch, Cond>::Aggregate(vec![]);

    let actual = template.apply(&"not important");

    assert_eq!(actual, Policy::Aggregate(vec![]));
}

fn nonempty_elems() -> Vec<PolicyTemplate<RMatchTpl, AMatch, Cond>> {
    vec![
        PolicyTemplate::Unconditional(RMatchTpl, AMatch("a1"), Effect::ALLOW),
        PolicyTemplate::Unconditional(RMatchTpl, AMatch("a2"), Effect::DENY),
        PolicyTemplate::Conditional(RMatchTpl, AMatch("a3"), Effect::ALLOW, Cond("c1")),
        PolicyTemplate::Conditional(RMatchTpl, AMatch("a4"), Effect::DENY, Cond("c2")),
        PolicyTemplate::Aggregate(vec![
            PolicyTemplate::Aggregate(vec![
                PolicyTemplate::Unconditional(RMatchTpl, AMatch("a5"), Effect::ALLOW),
                PolicyTemplate::Unconditional(RMatchTpl, AMatch("a6"), Effect::DENY),
                PolicyTemplate::Conditional(RMatchTpl, AMatch("a7"), Effect::ALLOW, Cond("c3")),
                PolicyTemplate::Conditional(RMatchTpl, AMatch("a8"), Effect::DENY, Cond("c4")),
            ]),
            PolicyTemplate::Aggregate(vec![]),
        ]),
    ]
}

#[test]
fn test_nonempty_aggregate() {
    let template = PolicyTemplate::Aggregate(nonempty_elems());

    let actual = template.apply(&"param");

    let expected = nonempty_elems()
        .into_iter()
        .map(|e| e.apply(&"param"))
        .collect();
    let expected = Policy::Aggregate(expected);
    assert_eq!(actual, expected);
}

#[test]
fn test_unconditional_allow() {
    let rmatch_tpl = RMatchTpl;
    let template = PolicyTemplate::<RMatchTpl, AMatch, Cond>::Unconditional(
        rmatch_tpl,
        AMatch("a"),
        Effect::ALLOW,
    );

    let actual = template.apply(&"xyz");

    assert_eq!(
        actual,
        Policy::Unconditional(rmatch_tpl.apply(&"xyz"), AMatch("a"), Effect::ALLOW)
    );
}

#[test]
fn test_unconditional_deny() {
    let rmatch_tpl = RMatchTpl;
    let template = PolicyTemplate::<RMatchTpl, AMatch, Cond>::Unconditional(
        rmatch_tpl,
        AMatch("a"),
        Effect::DENY,
    );

    let actual = template.apply(&"xyz");

    assert_eq!(
        actual,
        Policy::Unconditional(rmatch_tpl.apply(&"xyz"), AMatch("a"), Effect::DENY)
    );
}

#[test]
fn test_conditional_allow() {
    let rmatch_tpl = RMatchTpl;
    let template = PolicyTemplate::<RMatchTpl, AMatch, Cond>::Conditional(
        rmatch_tpl,
        AMatch("a"),
        Effect::ALLOW,
        Cond("c"),
    );

    let actual = template.apply(&"xyz");

    assert_eq!(
        actual,
        Policy::Conditional(
            rmatch_tpl.apply(&"xyz"),
            AMatch("a"),
            Effect::ALLOW,
            Cond("c")
        )
    );
}

#[test]
fn test_conditional_deny() {
    let rmatch_tpl = RMatchTpl;
    let template = PolicyTemplate::<RMatchTpl, AMatch, Cond>::Conditional(
        rmatch_tpl,
        AMatch("a"),
        Effect::DENY,
        Cond("x"),
    );

    let actual = template.apply(&"xyz");

    assert_eq!(
        actual,
        Policy::Conditional(
            rmatch_tpl.apply(&"xyz"),
            AMatch("a"),
            Effect::DENY,
            Cond("x")
        )
    );
}
