use authorization_core::authorization::{combine_non_strict, Effect};
use authorization_core::condition::Environment;
use authorization_core::permission::{resolve_all, ConditionalPermission};

#[derive(Clone, Debug, PartialEq, Eq)]
enum TestExpression {
    Match,
    Miss,
    Error,
}

struct TestEnv;

impl Environment for TestEnv {
    type Err = ();
    type CExp = TestExpression;

    fn test_condition(&self, exp: &Self::CExp) -> Result<bool, Self::Err> {
        match exp {
            TestExpression::Match => Ok(true),
            TestExpression::Miss => Ok(false),
            TestExpression::Error => Err(()),
        }
    }
}

struct IntEnv(u32);

impl Environment for IntEnv {
    type Err = ();
    type CExp = u32;

    fn test_condition(&self, exp: &Self::CExp) -> Result<bool, Self::Err> {
        Ok(self.0 == *exp)
    }
}

#[test]
fn permission_resolve_silent() {
    let perm = ConditionalPermission::<TestExpression>::Silent;

    let actual = perm.resolve(&TestEnv);

    assert_eq!(actual, Ok(None));
}

#[test]
fn permission_resolve_atomic_allow_match() {
    let perm = ConditionalPermission::Atomic(Effect::ALLOW, TestExpression::Match);

    let actual = perm.resolve(&TestEnv);

    assert_eq!(actual, Ok(Some(Effect::ALLOW)));
}

#[test]
fn permission_resolve_atomic_deny_match() {
    let perm = ConditionalPermission::Atomic(Effect::DENY, TestExpression::Match);

    let actual = perm.resolve(&TestEnv);

    assert_eq!(actual, Ok(Some(Effect::DENY)));
}

#[test]
fn permission_resolve_atomic_allow_miss() {
    let perm = ConditionalPermission::Atomic(Effect::ALLOW, TestExpression::Miss);

    let actual = perm.resolve(&TestEnv);

    assert_eq!(actual, Ok(None));
}

#[test]
fn permission_resolve_atomic_deny_miss() {
    let perm = ConditionalPermission::Atomic(Effect::DENY, TestExpression::Miss);

    let actual = perm.resolve(&TestEnv);

    assert_eq!(actual, Ok(None));
}

#[test]
fn permission_resolve_atomic_error() {
    let perm = ConditionalPermission::Atomic(Effect::ALLOW, TestExpression::Error);

    let actual = perm.resolve(&TestEnv);

    assert!(actual.is_err());
    assert_eq!(
        actual.unwrap_err(),
        TestEnv.test_condition(&TestExpression::Error).unwrap_err()
    );
}

#[test]
fn permission_resolve_fixed_allow() {
    let perm = ConditionalPermission::<TestExpression>::Fixed(Effect::ALLOW);

    let actual = perm.resolve(&TestEnv);

    assert_eq!(actual, Ok(Some(Effect::ALLOW)));
}

#[test]
fn permission_resolve_fixed_deny() {
    let perm = ConditionalPermission::<TestExpression>::Fixed(Effect::DENY);

    let actual = perm.resolve(&TestEnv);

    assert_eq!(actual, Ok(Some(Effect::DENY)));
}

fn fixed(e: Effect) -> ConditionalPermission<TestExpression> {
    ConditionalPermission::Fixed(e)
}

fn check_aggregate(
    config: Vec<ConditionalPermission<TestExpression>>,
    config_again: Vec<ConditionalPermission<TestExpression>>,
) {
    let expect: Result<Vec<Option<Effect>>, ()> = resolve_all(&config_again, &TestEnv);
    let expect = expect.map(combine_non_strict);

    let perm = ConditionalPermission::Aggregate(config);

    let actual = perm.resolve(&TestEnv);

    assert_eq!(actual, expect);
}

#[test]
fn permission_resolve_aggregate_empty() {
    check_aggregate(vec![], vec![]);
}

#[test]
fn permission_resolve_aggregate_single_allow() {
    check_aggregate(vec![fixed(Effect::ALLOW)], vec![fixed(Effect::ALLOW)]);
}

#[test]
fn permission_resolve_aggregate_single_deny() {
    check_aggregate(vec![fixed(Effect::DENY)], vec![fixed(Effect::DENY)]);
}

#[test]
fn permission_resolve_aggregate_single_silent() {
    check_aggregate(vec![ConditionalPermission::Silent], vec![ConditionalPermission::Silent]);
}

#[test]
fn permission_resolve_aggregate_all_allow() {
    check_aggregate(
        vec![
            fixed(Effect::ALLOW),
            fixed(Effect::ALLOW),
            fixed(Effect::ALLOW),
        ],
        vec![
            fixed(Effect::ALLOW),
            fixed(Effect::ALLOW),
            fixed(Effect::ALLOW),
        ],
    );
}

#[test]
fn permission_resolve_aggregate_deny_priority() {
    check_aggregate(
        vec![
            fixed(Effect::DENY),
            fixed(Effect::ALLOW),
            fixed(Effect::ALLOW),
        ],
        vec![
            fixed(Effect::DENY),
            fixed(Effect::ALLOW),
            fixed(Effect::ALLOW),
        ],
    );
    check_aggregate(
        vec![
            fixed(Effect::ALLOW),
            fixed(Effect::DENY),
            fixed(Effect::ALLOW),
        ],
        vec![
            fixed(Effect::ALLOW),
            fixed(Effect::DENY),
            fixed(Effect::ALLOW),
        ],
    );
    check_aggregate(
        vec![
            fixed(Effect::ALLOW),
            fixed(Effect::ALLOW),
            fixed(Effect::DENY),
        ],
        vec![
            fixed(Effect::ALLOW),
            fixed(Effect::ALLOW),
            fixed(Effect::DENY),
        ],
    );
}

#[test]
fn permission_resolve_aggregate_silence_ignored() {
    check_aggregate(
        vec![
            ConditionalPermission::Silent,
            fixed(Effect::ALLOW),
            fixed(Effect::ALLOW),
        ],
        vec![
            ConditionalPermission::Silent,
            fixed(Effect::ALLOW),
            fixed(Effect::ALLOW),
        ],
    );
    check_aggregate(
        vec![
            fixed(Effect::ALLOW),
            ConditionalPermission::Silent,
            fixed(Effect::ALLOW),
        ],
        vec![
            fixed(Effect::ALLOW),
            ConditionalPermission::Silent,
            fixed(Effect::ALLOW),
        ],
    );
    check_aggregate(
        vec![
            fixed(Effect::ALLOW),
            fixed(Effect::ALLOW),
            ConditionalPermission::Silent,
        ],
        vec![
            fixed(Effect::ALLOW),
            fixed(Effect::ALLOW),
            ConditionalPermission::Silent,
        ],
    );
    check_aggregate(
        vec![
            ConditionalPermission::Silent,
            fixed(Effect::ALLOW),
            fixed(Effect::DENY),
            fixed(Effect::ALLOW),
        ],
        vec![
            ConditionalPermission::Silent,
            fixed(Effect::ALLOW),
            fixed(Effect::DENY),
            fixed(Effect::ALLOW),
        ],
    );
    check_aggregate(
        vec![
            fixed(Effect::ALLOW),
            ConditionalPermission::Silent,
            fixed(Effect::DENY),
            fixed(Effect::ALLOW),
        ],
        vec![
            fixed(Effect::ALLOW),
            ConditionalPermission::Silent,
            fixed(Effect::DENY),
            fixed(Effect::ALLOW),
        ],
    );
    check_aggregate(
        vec![
            fixed(Effect::ALLOW),
            fixed(Effect::DENY),
            fixed(Effect::ALLOW),
            ConditionalPermission::Silent,
        ],
        vec![
            fixed(Effect::ALLOW),
            fixed(Effect::DENY),
            fixed(Effect::ALLOW),
            ConditionalPermission::Silent,
        ],
    );
}

#[test]
fn permission_test_nested_condition() {

    let perm = ConditionalPermission::Aggregate(vec![
        ConditionalPermission::Atomic(Effect::DENY, 1u32),
        ConditionalPermission::Atomic(Effect::DENY, 2u32),
        ConditionalPermission::Aggregate(vec![
            ConditionalPermission::Atomic(Effect::DENY, 3u32),
            ConditionalPermission::Atomic(Effect::ALLOW, 4u32),
        ]),
    ]);

    let actual = perm.resolve(&IntEnv(3));
    assert_eq!(actual, Ok(Some(Effect::DENY)));

    let actual = perm.resolve(&IntEnv(4));
    assert_eq!(actual, Ok(Some(Effect::ALLOW)));

    let actual = perm.resolve(&IntEnv(100));
    assert_eq!(actual, Ok(None));
}

#[test]
fn permission_test_resolve_all() {

    let perms = vec![
        ConditionalPermission::Atomic(Effect::ALLOW, 1u32),
        ConditionalPermission::Atomic(Effect::ALLOW, 2u32),
        ConditionalPermission::Atomic(Effect::DENY, 1u32),
        ConditionalPermission::Atomic(Effect::DENY, 2u32),
        ConditionalPermission::Fixed(Effect::ALLOW),
        ConditionalPermission::Fixed(Effect::DENY),
        ConditionalPermission::Silent,
        ConditionalPermission::Aggregate(vec![
            ConditionalPermission::Atomic(Effect::ALLOW, 1u32),
            ConditionalPermission::Atomic(Effect::DENY, 2u32),
        ]),
    ];

    let actual = resolve_all(&perms, &IntEnv(1));
    assert_eq!(
        actual,
        Ok(vec![
            Some(Effect::ALLOW), None, Some(Effect::DENY), None, Some(Effect::ALLOW), Some(Effect::DENY), None, Some(Effect::ALLOW),
        ])
    );

    let actual = resolve_all(&perms, &IntEnv(2));
    assert_eq!(
        actual,
        Ok(vec![None, Some(Effect::ALLOW), None, Some(Effect::DENY), Some(Effect::ALLOW), Some(Effect::DENY), None, Some(Effect::DENY),])
    );
}

#[test]
fn permission_test_resolve_all_err() {

    let perms = vec![
        ConditionalPermission::Fixed(Effect::ALLOW),
        ConditionalPermission::Fixed(Effect::DENY),
        ConditionalPermission::Silent,
        ConditionalPermission::Aggregate(vec![
            ConditionalPermission::Fixed(Effect::ALLOW),
            ConditionalPermission::Atomic(Effect::ALLOW, TestExpression::Error),
            ConditionalPermission::Fixed(Effect::DENY),
        ]),
    ];

    let actual = resolve_all(&perms, &TestEnv);

    assert_eq!(actual, Err(()));
}
