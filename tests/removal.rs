use composer_modify::apply::{apply_add, apply_modify, apply_replace, handle_modify, remove, remove_require};
use composer_modify::directive::{AddConfig, ModifyComposerJson, ModifyConfig, RemoveConfig, ReplaceConfig};
use composer_modify::manifest::{ComposerJson, PackageLinks};
use composer_modify::maps::{DependencyMap, PatternMap};
use composer_modify::pattern::PackagePattern;
use composer_modify::select::{apply_section, matches_any, remove_matching, MergePolicy};

fn deps(pairs: &[(&str, &str)]) -> DependencyMap {
    let mut m = DependencyMap::new();
    for (k, v) in pairs {
        m.insert(k.to_string(), v.to_string());
    }
    m
}

fn pats(pairs: &[(&str, &str)]) -> PatternMap {
    let mut m = PatternMap::new();
    for (k, v) in pairs {
        m.insert(PackagePattern::new(k).unwrap(), v.to_string());
    }
    m
}

fn entries(m: &DependencyMap) -> Vec<(String, String)> {
    (0..m.len()).map(|i| (m.key(i).to_string(), m.value(i).to_string())).collect()
}

fn pairs(v: &[(&str, &str)]) -> Vec<(String, String)> {
    v.iter().map(|(k, v)| (k.to_string(), v.to_string())).collect()
}

fn manifest(require: &[(&str, &str)]) -> ComposerJson {
    ComposerJson::new("acme/app".to_string(), PackageLinks::new(deps(require)))
}

fn empty_directive() -> ModifyComposerJson {
    ModifyComposerJson { modify: None, add: None, remove: None, replace: None }
}

#[test]
fn remove_wildcard_scenario() {
    let c = manifest(&[("monolog/monolog", "^2.0"), ("psr/log", "^1.0")]);
    let mut m = empty_directive();
    m.remove = Some(RemoveConfig { require: Some(pats(&[("monolog/*", "")])), require_dev: None });
    let r = remove(c, &m);
    assert_eq!(entries(&r.package_links.require), pairs(&[("psr/log", "^1.0")]));
    assert_eq!(r.name, "acme/app");
}

#[test]
fn remove_missing_package_is_no_error() {
    let c = manifest(&[("monolog/monolog", "^2.0"), ("psr/log", "^1.0")]);
    let r = remove_require(c, &pats(&[("acme/missing-pkg", "")]));
    assert_eq!(entries(&r.package_links.require), pairs(&[("monolog/monolog", "^2.0"), ("psr/log", "^1.0")]));
}

#[test]
fn remove_with_no_patterns_is_identity() {
    let d = deps(&[("a/a", "1"), ("b/b", "2")]);
    let r = remove_matching(&d, &PatternMap::new());
    assert_eq!(entries(&r), entries(&d));
}

#[test]
fn remove_is_union_of_patterns() {
    let d = deps(&[("a/x", "1"), ("b/y", "2"), ("c/z", "3"), ("a/w", "4")]);
    let r = remove_matching(&d, &pats(&[("a/*", ""), ("c/z", "")]));
    assert_eq!(entries(&r), pairs(&[("b/y", "2")]));
}

#[test]
fn remove_twice_equals_remove_once() {
    let d = deps(&[("a/x", "1"), ("b/y", "2"), ("a/w", "4")]);
    let p = pats(&[("a/*", "")]);
    let once = remove_matching(&d, &p);
    let twice = remove_matching(&once, &p);
    assert_eq!(entries(&once), entries(&twice));
    assert_eq!(entries(&once), pairs(&[("b/y", "2")]));
}

#[test]
fn remove_keeps_order_of_survivors() {
    let d = deps(&[("z/z", "1"), ("a/a", "2"), ("m/m", "3"), ("x/drop", "4")]);
    let r = remove_matching(&d, &pats(&[("*/drop", "")]));
    assert_eq!(entries(&r), pairs(&[("z/z", "1"), ("a/a", "2"), ("m/m", "3")]));
}

#[test]
fn remove_touches_require_dev_too() {
    let mut links = PackageLinks::new(deps(&[("a/a", "1")]));
    links.require_dev = Some(deps(&[("phpunit/phpunit", "^9"), ("a/b", "2")]));
    let c = ComposerJson::new("acme/app".to_string(), links);
    let mut m = empty_directive();
    m.remove = Some(RemoveConfig { require: None, require_dev: Some(pats(&[("phpunit/*", "")])) });
    let r = remove(c, &m);
    assert_eq!(entries(&r.package_links.require), pairs(&[("a/a", "1")]));
    assert_eq!(entries(r.package_links.require_dev.as_ref().unwrap()), pairs(&[("a/b", "2")]));
}

#[test]
fn matches_any_reports_union() {
    let p = pats(&[("a/*", ""), ("b/b", "")]);
    assert!(matches_any(&p, "a/q"));
    assert!(matches_any(&p, "b/b"));
    assert!(!matches_any(&p, "b/c"));
    assert!(!matches_any(&PatternMap::new(), "a/q"));
}

#[test]
fn insert_if_absent_adds_only_missing() {
    let d = deps(&[("a/a", "1")]);
    let r = apply_section(d, &pats(&[("a/a", "9"), ("b/b", "2")]), MergePolicy::InsertIfAbsent);
    assert_eq!(entries(&r), pairs(&[("a/a", "1"), ("b/b", "2")]));
}

#[test]
fn overwrite_if_present_sets_matched_only() {
    let d = deps(&[("a/x", "1"), ("a/y", "2"), ("b/b", "3")]);
    let r = apply_section(d, &pats(&[("a/*", "^5"), ("c/c", "7")]), MergePolicy::OverwriteIfPresent);
    assert_eq!(entries(&r), pairs(&[("a/x", "^5"), ("a/y", "^5"), ("b/b", "3")]));
}

#[test]
fn overwrite_last_pattern_wins() {
    let d = deps(&[("a/x", "1")]);
    let r = apply_section(d, &pats(&[("a/*", "first"), ("*/x", "second")]), MergePolicy::OverwriteIfPresent);
    assert_eq!(entries(&r), pairs(&[("a/x", "second")]));
}

#[test]
fn overwrite_upserts() {
    let d = deps(&[("a/x", "1")]);
    let r = apply_section(d, &pats(&[("a/*", "2"), ("n/new", "3")]), MergePolicy::Overwrite);
    assert_eq!(entries(&r), pairs(&[("a/x", "2"), ("n/new", "3")]));
}

#[test]
fn sections_apply_in_order() {
    let c = manifest(&[("old/pkg", "1"), ("keep/pkg", "1"), ("bump/pkg", "1")]);
    let m = ModifyComposerJson {
        remove: Some(RemoveConfig { require: Some(pats(&[("old/*", "")])), require_dev: None }),
        add: Some(AddConfig { require: Some(pats(&[("new/pkg", "^1"), ("keep/pkg", "^9")])), require_dev: None }),
        replace: Some(ReplaceConfig { require: Some(pats(&[("bump/*", "^2")])), require_dev: None }),
        modify: Some(ModifyConfig {
            require: Some(pats(&[("new/pkg", "^3"), ("dev/only", "*")])),
            require_dev: None,
            config: None,
        }),
    };
    let r = handle_modify(c, &m);
    assert_eq!(
        entries(&r.package_links.require),
        pairs(&[("keep/pkg", "1"), ("bump/pkg", "^2"), ("new/pkg", "^3"), ("dev/only", "*")])
    );
    assert!(r.package_links.require_dev.is_none());
}

#[test]
fn empty_directive_changes_nothing() {
    let c = manifest(&[("a/a", "1"), ("b/b", "2")]);
    let r = handle_modify(c, &empty_directive());
    assert_eq!(entries(&r.package_links.require), pairs(&[("a/a", "1"), ("b/b", "2")]));
    assert!(r.package_links.require_dev.is_none());
}

#[test]
fn add_creates_require_dev_when_needed() {
    let c = manifest(&[]);
    let mut m = empty_directive();
    m.add = Some(AddConfig { require: None, require_dev: Some(pats(&[("phpunit/phpunit", "^10")])) });
    let r = apply_add(c, &m);
    assert_eq!(entries(r.package_links.require_dev.as_ref().unwrap()), pairs(&[("phpunit/phpunit", "^10")]));
}

#[test]
fn replace_leaves_absent_require_dev_absent() {
    let c = manifest(&[("a/a", "1")]);
    let mut m = empty_directive();
    m.replace = Some(ReplaceConfig { require: None, require_dev: Some(pats(&[("x/*", "2")])) });
    let r = apply_replace(c, &m);
    assert!(r.package_links.require_dev.is_none());
    assert_eq!(entries(&r.package_links.require), pairs(&[("a/a", "1")]));
}

#[test]
fn modify_without_section_is_identity() {
    let c = manifest(&[("a/a", "1")]);
    let r = apply_modify(c, &empty_directive());
    assert_eq!(entries(&r.package_links.require), pairs(&[("a/a", "1")]));
}

#[test]
fn dependency_map_insert_replaces_in_place() {
    let mut d = deps(&[("a/a", "1"), ("b/b", "2")]);
    d.insert("a/a".to_string(), "3".to_string());
    assert_eq!(entries(&d), pairs(&[("a/a", "3"), ("b/b", "2")]));
    assert_eq!(d.get("b/b"), Some("2"));
    assert_eq!(d.get("c/c"), None);
    assert_eq!(d.position("b/b"), Some(1));
    assert!(!d.is_empty());
}

#[test]
fn pattern_map_keys_are_raw_unique() {
    let mut p = PatternMap::new();
    p.insert(PackagePattern::new("a/*").unwrap(), "1".to_string());
    p.insert(PackagePattern::new("a/*").unwrap(), "2".to_string());
    assert_eq!(p.len(), 1);
    assert_eq!(p.value(0), "2");
    assert_eq!(p.pattern(0).as_str(), "a/*");
}
