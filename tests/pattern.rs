use std::collections::HashMap;

use composer_modify::glob::regex_source;
use composer_modify::pattern::PackagePattern;

fn test_package_pattern_to_string(input: &str, expected: &str) {
    let p = PackagePattern::new(input).unwrap();
    let s: String = p.into();

    assert_eq!(s, expected);
}

#[test]
fn package_pattern_to_string_tests() {
    let cases = vec!["", "foo/bar"];

    for case in cases.into_iter() {
        test_package_pattern_to_string(case, case)
    }
}

#[test]
fn package_pattern_to_string_empty() {
    test_package_pattern_to_string("", "");
}

#[test]
fn package_pattern_to_string_normal() {
    test_package_pattern_to_string("foo/bar", "foo/bar");
}

#[test]
fn regex_source_empty() {
    assert_eq!(regex_source(""), "(?s)^$");
}

#[test]
fn regex_source_literal() {
    assert_eq!(regex_source("foo/bar"), "(?s)^foo/bar$");
}

#[test]
fn regex_source_wildcard() {
    assert_eq!(regex_source("foo/*"), "(?s)^foo/.*$");
}

#[test]
fn regex_source_escapes_meta_characters() {
    assert_eq!(regex_source("a.b+c"), "(?s)^a\\.b\\+c$");
    assert_eq!(regex_source("x-*-y"), "(?s)^x\\-.*\\-y$");
}

#[test]
fn wildcard_absorbs_suffix() {
    let p = PackagePattern::new("foo/*").unwrap();
    assert!(p.matches("foo/bar"));
    assert!(p.matches("foo/"));
    assert!(!p.matches("foo"));
}

#[test]
fn empty_pattern_matches_only_empty() {
    let p = PackagePattern::new("").unwrap();
    assert!(p.matches(""));
    assert!(!p.matches("x"));
}

#[test]
fn literal_pattern_is_exact() {
    let p = PackagePattern::new("psr/log").unwrap();
    assert!(p.matches("psr/log"));
    assert!(!p.matches("psr/logger"));
    assert!(!p.matches("xpsr/log"));
    assert!(!p.matches("psr/lo"));
}

#[test]
fn dot_is_literal() {
    let p = PackagePattern::new("a.b").unwrap();
    assert!(p.matches("a.b"));
    assert!(!p.matches("axb"));
}

#[test]
fn wildcard_crosses_separators() {
    let p = PackagePattern::new("*/log").unwrap();
    assert!(p.matches("psr/log"));
    assert!(p.matches("a/b/log"));
    assert!(p.matches("/log"));
    assert!(!p.matches("psr/log/x"));
}

#[test]
fn wildcard_matches_line_breaks() {
    let p = PackagePattern::new("a*b").unwrap();
    assert!(p.matches("a\nb"));
}

#[test]
fn consecutive_wildcards_act_as_one() {
    let one = PackagePattern::new("foo/*").unwrap();
    let two = PackagePattern::new("foo/**").unwrap();
    for name in ["foo/", "foo/bar", "foo", "bar/foo", "foo/a/b"] {
        assert_eq!(one.matches(name), two.matches(name));
    }
}

#[test]
fn inner_wildcards() {
    let p = PackagePattern::new("a*b*c").unwrap();
    assert!(p.matches("abc"));
    assert!(p.matches("axxbyyc"));
    assert!(!p.matches("acb"));
    assert!(p.matches("a*b*c"));
}

#[test]
fn equality_is_raw_based() {
    let a = PackagePattern::new("monolog/*").unwrap();
    let b = PackagePattern::new("monolog/*").unwrap();
    let c = PackagePattern::new("monolog/**").unwrap();
    assert!(a == b);
    assert!(a != c);
    assert_eq!(a.matches("monolog/monolog"), b.matches("monolog/monolog"));
}

#[test]
fn matching_is_deterministic() {
    let p = PackagePattern::new("acme/*-bundle").unwrap();
    for _ in 0..3 {
        assert!(p.matches("acme/foo-bundle"));
        assert!(!p.matches("acme/foo-bundler"));
    }
}

#[test]
fn pattern_keeps_raw_text() {
    let p = PackagePattern::new("a/*").unwrap();
    assert_eq!(p.as_str(), "a/*");
}

#[test]
fn equal_patterns_are_one_map_key() {
    let mut m: HashMap<PackagePattern, &str> = HashMap::new();
    m.insert(PackagePattern::new("vendor/*").unwrap(), "1");
    m.insert(PackagePattern::new("vendor/*").unwrap(), "2");
    m.insert(PackagePattern::new("vendor/x").unwrap(), "3");
    assert_eq!(m.len(), 2);
    assert_eq!(m.get(&PackagePattern::new("vendor/*").unwrap()), Some(&"2"));
}

#[test]
fn pattern_try_from_text() {
    let a = PackagePattern::try_from("x/*").unwrap();
    let b = PackagePattern::try_from("x/*".to_string()).unwrap();
    assert!(a == b);
    assert!(a.matches("x/y"));
}

#[test]
fn compiling_succeeds_for_awkward_text() {
    for raw in ["", "(", "[", "a\\b", "^$", "{1}", "x**y", "née/*", "#&~-"] {
        let p = PackagePattern::new(raw).unwrap();
        assert_eq!(p.as_str(), raw);
        assert!(p.matches(raw));
    }
}
