use authorization_core::effect::{Authorized, ComputedEffect, ComputedEffect2, Effect, Silent};

#[test]
#[allow(clippy::bool_assert_comparison)]
fn test_authorized_definite_allow() {
    assert_eq!(ComputedEffect2::Definite(Effect::ALLOW).authorized(), true);
}

#[test]
#[allow(clippy::bool_assert_comparison)]
fn test_not_authorized_definite_deny() {
    assert_eq!(ComputedEffect2::Definite(Effect::DENY).authorized(), false);
}

#[test]
#[allow(clippy::bool_assert_comparison)]
fn test_not_authorized_silent() {
    assert_eq!(ComputedEffect2::Complex(vec![]).authorized(), false);
}

#[test]
#[allow(clippy::bool_assert_comparison)]
fn test_authorized_effect_allow() {
    assert_eq!(Effect::ALLOW.authorized(), true);
}

#[test]
#[allow(clippy::bool_assert_comparison)]
fn test_unauthorized_effect_deny() {
    assert_eq!(Effect::DENY.authorized(), false);
}

#[test]
fn test_computed_allow_authorized() {
    assert!(ComputedEffect::ALLOW.authorized());
}

#[test]
fn test_computed_allow_not_silent() {
    assert!(!ComputedEffect::ALLOW.silent());
}

#[test]
fn test_computed_deny_not_authorized() {
    assert!(!ComputedEffect::DENY.authorized());
}

#[test]
fn test_computed_deny_not_silent() {
    assert!(!ComputedEffect::DENY.silent());
}

#[test]
fn test_computed_silent_not_authorized() {
    assert!(!ComputedEffect::SILENT.authorized());
}

#[test]
fn test_computed_silent_silent() {
    assert!(ComputedEffect::SILENT.silent());
}

#[test]
fn test_effect_allow_authorized() {
    assert!(Effect::ALLOW.authorized());
}

#[test]
fn test_effect_deny_not_authorized() {
    assert!(!Effect::DENY.authorized());
}

#[test]
fn test_effect_allow_not_silent() {
    assert!(!Effect::ALLOW.silent());
}

#[test]
fn test_effect_deny_not_silent() {
    assert!(!Effect::DENY.silent());
}

#[test]
fn test_complex_nested_authorized() {
    let eff = ComputedEffect2::Complex(vec![
        ComputedEffect2::Complex(vec![]),
        ComputedEffect2::Definite(Effect::ALLOW),
    ]);
    assert!(eff.authorized());
    assert!(!eff.silent());
}

#[test]
fn test_complex_nested_denied() {
    let eff = ComputedEffect2::Complex(vec![
        ComputedEffect2::Definite(Effect::ALLOW),
        ComputedEffect2::Definite(Effect::DENY),
    ]);
    assert!(!eff.authorized());
    assert!(!eff.silent());
}

#[test]
fn test_complex_all_silent_is_silent() {
    let eff = ComputedEffect2::Complex(vec![
        ComputedEffect2::Complex(vec![]),
        ComputedEffect2::Complex(vec![ComputedEffect2::Complex(vec![])]),
    ]);
    assert!(eff.silent());
    assert!(!eff.authorized());
}

#[test]
fn test_computed_effect2_from_effect() {
    assert_eq!(
        ComputedEffect2::from(Effect::ALLOW),
        ComputedEffect2::Definite(Effect::ALLOW)
    );
    assert_eq!(
        ComputedEffect2::from(Effect::DENY),
        ComputedEffect2::Definite(Effect::DENY)
    );
}
