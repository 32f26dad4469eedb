use authorization_core::matcher::{ExtendedMatcher, Matcher};
use authorization_core::path::{Path, PathElemMatcher, PathMatcher};

#[test]
fn test_path_elem_matcher_any() {
    let e = PathElemMatcher::ANY;

    let actual = e.test(&"totally arbitrary".into());

    assert_eq!(actual, true);
}

#[test]
fn test_path_elem_matcher_none() {
    let e = PathElemMatcher::NONE;

    let actual = e.test(&"totally arbitrary".into());

    assert_eq!(actual, false);
}

#[test]
fn test_path_elem_matcher_v() {
    let matcher = PathElemMatcher::V("matchit".into());

    let actual = matcher.test(&"matchit".into());
    assert_eq!(actual, true);

    let actual = matcher.test(&"arbitrary".into());
    assert_eq!(actual, false);
}

#[test]
fn test_path_elem_ext_match_only() {
    let matcher = PathElemMatcher::match_only("matchit".into());

    let equivalent = PathElemMatcher::V("matchit".into());

    let actual = matcher.test(&"matchit".into());
    let expected = equivalent.test(&"matchit".into());
    assert_eq!(actual, expected);

    let actual = matcher.test(&"other".into());
    let expected = equivalent.test(&"other".into());
    assert_eq!(actual, expected);
}

#[test]
fn test_path_elem_ext_match_any() {
    let matcher = PathElemMatcher::match_any();

    let equivalent = PathElemMatcher::ANY;

    let actual = matcher.test(&"arbitrary".into());
    let expected = equivalent.test(&"arbitrary".into());
    assert_eq!(actual, expected);
}

#[test]
fn test_path_elem_ext_match_none() {
    let matcher = PathElemMatcher::match_none();

    let equivalent = PathElemMatcher::NONE;

    let actual = matcher.test(&"arbitrary".into());
    let expected = equivalent.test(&"arbitrary".into());
    assert_eq!(actual, expected);
}

/// basic happy path
#[test]
fn test_path_match_all_exact() {
    let positive = Path::new(vec!["a".into(), "b".into(), "c".into()]);
    let matcher: PathMatcher = positive.clone().into();
    let negative = Path::new(vec!["a".into(), "b".into(), "z".into()]);

    assert_eq!(matcher.test(&positive), true);
    assert_eq!(matcher.test(&negative), false);
}

#[test]
fn test_path_match_with_wild() {
    let matcher = PathMatcher::new(vec![
        PathElemMatcher::new("a"),
        PathElemMatcher::ANY,
        PathElemMatcher::new("c"),
    ]);

    let p1 = Path::new(vec!["a".into(), "b".into(), "c".into()]);
    let p2 = Path::new(vec!["a".into(), "z".into(), "c".into()]);
    let p3 = Path::new(vec!["z".into(), "b".into(), "c".into()]);

    assert_eq!(matcher.test(&p1), true);
    assert_eq!(matcher.test(&p2), true);
    assert_eq!(matcher.test(&p3), false);
}

#[test]
fn test_path_match_length_mismatch_unconstrained() {
    let matcher = PathMatcher::new(vec![PathElemMatcher::new("a"), PathElemMatcher::new("b")]);

    let longer = Path::new(vec!["a".into(), "b".into(), "c".into()]);
    let shorter = Path::new(vec!["a".into()]);
    let empty = Path::new(vec![]);

    assert_eq!(matcher.test(&longer), true);
    assert_eq!(matcher.test(&shorter), true);
    assert_eq!(matcher.test(&empty), true);
}
