use authorization_core::authorization::{authorized, combine_non_strict, combine_strict, Effect};

#[test]
fn test_authorized_allow() {
    assert_eq!(authorized(Some(Effect::ALLOW)), true);
}

#[test]
fn test_authorized_deny() {
    assert_eq!(authorized(Some(Effect::DENY)), false);
}

#[test]
fn test_authorized_silent() {
    assert_eq!(authorized(None), false);
}

#[test]
fn test_combine_non_strict() {
    fn check(effs: Vec<Option<Effect>>, expected: Option<Effect>) {
        assert_eq!(combine_non_strict(effs), expected);
    }

    check(vec![Some(Effect::DENY), Some(Effect::DENY), Some(Effect::DENY)], Some(Effect::DENY));
    check(vec![Some(Effect::DENY), Some(Effect::DENY), Some(Effect::ALLOW)], Some(Effect::DENY));
    check(vec![Some(Effect::DENY), Some(Effect::ALLOW), Some(Effect::DENY)], Some(Effect::DENY));
    check(vec![Some(Effect::DENY), Some(Effect::ALLOW), Some(Effect::ALLOW)], Some(Effect::DENY));
    check(vec![Some(Effect::ALLOW), Some(Effect::DENY), Some(Effect::DENY)], Some(Effect::DENY));
    check(vec![Some(Effect::ALLOW), Some(Effect::DENY), Some(Effect::ALLOW)], Some(Effect::DENY));
    check(vec![Some(Effect::ALLOW), Some(Effect::ALLOW), Some(Effect::DENY)], Some(Effect::DENY));

    check(vec![Some(Effect::ALLOW), Some(Effect::ALLOW), Some(Effect::ALLOW)], Some(Effect::ALLOW));

    check(vec![], None);
    check(vec![None, None], None);
    check(vec![None, Some(Effect::DENY), None, Some(Effect::DENY), None], Some(Effect::DENY));
    check(vec![None, Some(Effect::DENY), None, Some(Effect::ALLOW), None], Some(Effect::DENY));
    check(
        vec![None, Some(Effect::ALLOW), None, Some(Effect::ALLOW), None],
        Some(Effect::ALLOW),
    );
}

#[test]
fn test_combine_strict() {
    fn check(effs: Vec<Option<Effect>>, expected: Option<Effect>) {
        assert_eq!(combine_strict(effs), expected);
    }

    check(vec![Some(Effect::DENY), Some(Effect::DENY), Some(Effect::DENY)], Some(Effect::DENY));
    check(vec![Some(Effect::DENY), Some(Effect::DENY), Some(Effect::ALLOW)], Some(Effect::DENY));
    check(vec![Some(Effect::DENY), Some(Effect::ALLOW), Some(Effect::DENY)], Some(Effect::DENY));
    check(vec![Some(Effect::DENY), Some(Effect::ALLOW), Some(Effect::ALLOW)], Some(Effect::DENY));
    check(vec![Some(Effect::ALLOW), Some(Effect::DENY), Some(Effect::DENY)], Some(Effect::DENY));
    check(vec![Some(Effect::ALLOW), Some(Effect::DENY), Some(Effect::ALLOW)], Some(Effect::DENY));
    check(vec![Some(Effect::ALLOW), Some(Effect::ALLOW), Some(Effect::DENY)], Some(Effect::DENY));

    check(vec![Some(Effect::ALLOW), Some(Effect::ALLOW), Some(Effect::ALLOW)], Some(Effect::ALLOW));

    check(vec![], None);
    check(vec![None, None], None);
    check(vec![None, Some(Effect::DENY), None, Some(Effect::DENY), None], None);
    check(vec![None, Some(Effect::DENY), None, Some(Effect::ALLOW), None], None);
    check(vec![None, Some(Effect::ALLOW), None, Some(Effect::ALLOW), None], None);
}
