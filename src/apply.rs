//! Applying a directive to a manifest. Every operation takes the manifest by
//! value and returns a new one; only the dependency maps `require` and
//! `require-dev` change.

use vstd::prelude::*;

use crate::directive::ModifyComposerJson;
use crate::manifest::{ComposerJson, PackageLinks};
use crate::maps::{DependencyMap, Entry, PatternMap};
use crate::select::{applied, apply_section, without_matches, MergePolicy};

verus! {

/// The entries of an optional dependency map.
pub open spec fn deps_view(d: Option<DependencyMap>) -> Option<Seq<Entry>> {
    match d {
        Some(m) => Some(m@),
        None => None,
    }
}

/// The entries of an optional pattern map.
pub open spec fn pats_view(p: Option<PatternMap>) -> Option<Seq<Entry>> {
    match p {
        Some(m) => Some(m@),
        None => None,
    }
}

/// Whether `policy` may add entries.
pub open spec fn inserts(policy: MergePolicy) -> bool {
    policy == MergePolicy::InsertIfAbsent || policy == MergePolicy::Overwrite
}

/// A section applied to a map that is always present; no patterns leave it
/// as it is.
pub open spec fn edited(deps: Seq<Entry>, pats: Option<Seq<Entry>>, policy: MergePolicy) -> Seq<Entry> {
    match pats {
        Some(p) => applied(deps, p, policy),
        None => deps,
    }
}

/// A section applied to an optional map. An absent map stays absent unless
/// the policy adds entries and the section has some.
pub open spec fn edited_optional(
    deps: Option<Seq<Entry>>,
    pats: Option<Seq<Entry>>,
    policy: MergePolicy,
) -> Option<Seq<Entry>> {
    match (deps, pats) {
        (Some(d), _) => Some(edited(d, pats, policy)),
        (None, Some(p)) => if inserts(policy) && p.len() > 0 {
            Some(applied(Seq::empty(), p, policy))
        } else {
            None
        },
        (None, None) => None,
    }
}

/// The `require` and `require-dev` maps of a manifest.
pub open spec fn links_view(l: PackageLinks) -> (Seq<Entry>, Option<Seq<Entry>>) {
    (l.require@, deps_view(l.require_dev))
}

/// A section with the patterns `req` for `require` and `dev` for
/// `require-dev`, applied under `policy`.
pub open spec fn edited_links(
    v: (Seq<Entry>, Option<Seq<Entry>>),
    req: Option<Seq<Entry>>,
    dev: Option<Seq<Entry>>,
    policy: MergePolicy,
) -> (Seq<Entry>, Option<Seq<Entry>>) {
    (edited(v.0, req, policy), edited_optional(v.1, dev, policy))
}

/// `c` with `links` in place of its package links.
pub open spec fn with_links(c: ComposerJson, links: PackageLinks) -> ComposerJson {
    ComposerJson { package_links: links, ..c }
}

/// `l` with the given `require` and `require-dev` maps.
pub open spec fn with_deps(l: PackageLinks, req: DependencyMap, dev: Option<DependencyMap>) -> PackageLinks {
    PackageLinks { require: req, require_dev: dev, ..l }
}

/// Whether `r` is `c` but for its `require` and `require-dev` maps.
pub open spec fn only_deps_changed(c: ComposerJson, r: ComposerJson) -> bool {
    r == with_links(c, with_deps(c.package_links, r.package_links.require, r.package_links.require_dev))
}

/// The sections of a directive, in the order they are applied: removal,
/// addition, replacement, then the overrides of `modify`. Each is the policy
/// with the patterns for `require` and for `require-dev`.
pub open spec fn sections(m: ModifyComposerJson) -> Seq<(MergePolicy, Option<Seq<Entry>>, Option<Seq<Entry>>)> {
    seq![
        match m.remove {
            Some(s) => (MergePolicy::Delete, pats_view(s.require), pats_view(s.require_dev)),
            None => (MergePolicy::Delete, None, None),
        },
        match m.add {
            Some(s) => (MergePolicy::InsertIfAbsent, pats_view(s.require), pats_view(s.require_dev)),
            None => (MergePolicy::InsertIfAbsent, None, None),
        },
        match m.replace {
            Some(s) => (MergePolicy::OverwriteIfPresent, pats_view(s.require), pats_view(s.require_dev)),
            None => (MergePolicy::OverwriteIfPresent, None, None),
        },
        match m.modify {
            Some(s) => (MergePolicy::Overwrite, pats_view(s.require), pats_view(s.require_dev)),
            None => (MergePolicy::Overwrite, None, None),
        },
    ]
}

/// The sections `s` applied one after the other to the maps `v`.
pub open spec fn directed(
    v: (Seq<Entry>, Option<Seq<Entry>>),
    s: Seq<(MergePolicy, Option<Seq<Entry>>, Option<Seq<Entry>>)>,
) -> (Seq<Entry>, Option<Seq<Entry>>)
    decreases s.len(),
{
    if s.len() == 0 {
        v
    } else {
        let prev = directed(v, s.drop_last());
        edited_links(prev, s.last().1, s.last().2, s.last().0)
    }
}

/// A section applied to a map that is always present.
fn edit(deps: DependencyMap, pats: &Option<PatternMap>, policy: MergePolicy) -> (r: DependencyMap)
    ensures
        r@ == edited(deps@, pats_view(*pats), policy),
{
    match pats {
        Some(p) => apply_section(deps, p, policy),
        None => deps,
    }
}

/// A section applied to an optional map.
fn edit_optional(deps: Option<DependencyMap>, pats: &Option<PatternMap>, policy: MergePolicy) -> (r:
    Option<DependencyMap>)
    ensures
        deps_view(r) == edited_optional(deps_view(deps), pats_view(*pats), policy),
{
    match deps {
        Some(d) => Some(edit(d, pats, policy)),
        None => match pats {
            Some(p) => {
                if (policy == MergePolicy::InsertIfAbsent || policy == MergePolicy::Overwrite) && !p.is_empty() {
                    Some(apply_section(DependencyMap::new(), p, policy))
                } else {
                    None
                }
            },
            None => None,
        },
    }
}

/// Applies one section, with the patterns `req` for `require` and `dev` for
/// `require-dev`, to the manifest `c`.
pub fn edit_manifest(
    c: ComposerJson,
    req: &Option<PatternMap>,
    dev: &Option<PatternMap>,
    policy: MergePolicy,
) -> (r: ComposerJson)
    ensures
        only_deps_changed(c, r),
        links_view(r.package_links) == edited_links(
            links_view(c.package_links),
            pats_view(*req),
            pats_view(*dev),
            policy,
        ),
{
    let ghost c0 = c;
    let ComposerJson {
        name,
        description,
        version,
        package_type,
        keywords,
        homepage,
        readme,
        time,
        license,
        authors,
        support,
        funding,
        package_links,
        autoload,
        autoload_dev,
        include_path,
        target_dir,
        minimum_stability,
        prefer_stable,
        repositories,
        config,
        scripts,
        extra,
        bin,
        archive,
        abandoned,
        non_feature_branches,
    } = c;
    let PackageLinks { require, require_dev, conflict, replace, provide, suggest } = package_links;
    let require = edit(require, req, policy);
    let require_dev = edit_optional(require_dev, dev, policy);
    let r = ComposerJson {
        name,
        description,
        version,
        package_type,
        keywords,
        homepage,
        readme,
        time,
        license,
        authors,
        support,
        funding,
        package_links: PackageLinks { require, require_dev, conflict, replace, provide, suggest },
        autoload,
        autoload_dev,
        include_path,
        target_dir,
        minimum_stability,
        prefer_stable,
        repositories,
        config,
        scripts,
        extra,
        bin,
        archive,
        abandoned,
        non_feature_branches,
    };
    assert(r == with_links(c0, with_deps(c0.package_links, r.package_links.require, r.package_links.require_dev)));
    r
}

/// Removes from `require` every entry whose key some pattern of `require`
/// selects; a pattern that selects nothing is no error.
pub fn remove_require(c: ComposerJson, require: &PatternMap) -> (r: ComposerJson)
    ensures
        only_deps_changed(c, r),
        r.package_links.require@ == without_matches(c.package_links.require@, require@),
        r.package_links.require_dev == c.package_links.require_dev,
{
    let ghost c0 = c;
    let ComposerJson {
        name,
        description,
        version,
        package_type,
        keywords,
        homepage,
        readme,
        time,
        license,
        authors,
        support,
        funding,
        package_links,
        autoload,
        autoload_dev,
        include_path,
        target_dir,
        minimum_stability,
        prefer_stable,
        repositories,
        config,
        scripts,
        extra,
        bin,
        archive,
        abandoned,
        non_feature_branches,
    } = c;
    let PackageLinks { require: deps, require_dev, conflict, replace, provide, suggest } = package_links;
    let deps = apply_section(deps, require, MergePolicy::Delete);
    let r = ComposerJson {
        name,
        description,
        version,
        package_type,
        keywords,
        homepage,
        readme,
        time,
        license,
        authors,
        support,
        funding,
        package_links: PackageLinks { require: deps, require_dev, conflict, replace, provide, suggest },
        autoload,
        autoload_dev,
        include_path,
        target_dir,
        minimum_stability,
        prefer_stable,
        repositories,
        config,
        scripts,
        extra,
        bin,
        archive,
        abandoned,
        non_feature_branches,
    };
    assert(r == with_links(c0, with_deps(c0.package_links, r.package_links.require, r.package_links.require_dev)));
    r
}

/// Applies the `remove` section of `m`: every entry that one of its patterns
/// selects leaves `require` or `require-dev`.
pub fn remove(c: ComposerJson, m: &ModifyComposerJson) -> (r: ComposerJson)
    ensures
        only_deps_changed(c, r),
        links_view(r.package_links) == edited_links(
            links_view(c.package_links),
            sections(*m)[0].1,
            sections(*m)[0].2,
            MergePolicy::Delete,
        ),
{
    match &m.remove {
        Some(s) => edit_manifest(c, &s.require, &s.require_dev, MergePolicy::Delete),
        None => {
            assert(links_view(c.package_links) == edited_links(
                links_view(c.package_links),
                None,
                None,
                MergePolicy::Delete,
            ));
            c
        },
    }
}

/// Applies the `add` section of `m`: an entry is appended where its pattern
/// selects no key.
pub fn apply_add(c: ComposerJson, m: &ModifyComposerJson) -> (r: ComposerJson)
    ensures
        only_deps_changed(c, r),
        links_view(r.package_links) == edited_links(
            links_view(c.package_links),
            sections(*m)[1].1,
            sections(*m)[1].2,
            MergePolicy::InsertIfAbsent,
        ),
{
    match &m.add {
        Some(s) => edit_manifest(c, &s.require, &s.require_dev, MergePolicy::InsertIfAbsent),
        None => {
            assert(links_view(c.package_links) == edited_links(
                links_view(c.package_links),
                None,
                None,
                MergePolicy::InsertIfAbsent,
            ));
            c
        },
    }
}

/// Applies the `replace` section of `m`: each key that a pattern selects takes
/// its constraint, the last such pattern winning.
pub fn apply_replace(c: ComposerJson, m: &ModifyComposerJson) -> (r: ComposerJson)
    ensures
        only_deps_changed(c, r),
        links_view(r.package_links) == edited_links(
            links_view(c.package_links),
            sections(*m)[2].1,
            sections(*m)[2].2,
            MergePolicy::OverwriteIfPresent,
        ),
{
    match &m.replace {
        Some(s) => edit_manifest(c, &s.require, &s.require_dev, MergePolicy::OverwriteIfPresent),
        None => {
            assert(links_view(c.package_links) == edited_links(
                links_view(c.package_links),
                None,
                None,
                MergePolicy::OverwriteIfPresent,
            ));
            c
        },
    }
}

/// Applies the `modify` section of `m`: as `replace`, and an entry is appended
/// where its pattern selects no key.
pub fn apply_modify(c: ComposerJson, m: &ModifyComposerJson) -> (r: ComposerJson)
    ensures
        only_deps_changed(c, r),
        links_view(r.package_links) == edited_links(
            links_view(c.package_links),
            sections(*m)[3].1,
            sections(*m)[3].2,
            MergePolicy::Overwrite,
        ),
{
    match &m.modify {
        Some(s) => edit_manifest(c, &s.require, &s.require_dev, MergePolicy::Overwrite),
        None => {
            assert(links_view(c.package_links) == edited_links(
                links_view(c.package_links),
                None,
                None,
                MergePolicy::Overwrite,
            ));
            c
        },
    }
}

/// Applies every section of the directive `m` to the manifest `c`, in the
/// order of `sections`, and returns the new manifest. Nothing but
/// `require` and `require-dev` changes.
pub fn handle_modify(c: ComposerJson, m: &ModifyComposerJson) -> (r: ComposerJson)
    ensures
        only_deps_changed(c, r),
        links_view(r.package_links) == directed(links_view(c.package_links), sections(*m)),
{
    let ghost v = links_view(c.package_links);
    let ghost s = sections(*m);
    let c1 = remove(c, m);
    let c2 = apply_add(c1, m);
    let c3 = apply_replace(c2, m);
    let r = apply_modify(c3, m);
    proof {
        assert(s.subrange(0, 0) =~= Seq::empty());
        assert(s.subrange(0, 1).drop_last() =~= s.subrange(0, 0));
        assert(s.subrange(0, 2).drop_last() =~= s.subrange(0, 1));
        assert(s.subrange(0, 3).drop_last() =~= s.subrange(0, 2));
        assert(s.drop_last() =~= s.subrange(0, 3));
        assert(directed(v, s.subrange(0, 0)) == v);
        assert(s.subrange(0, 1).last() == s[0]);
        assert(s.subrange(0, 2).last() == s[1]);
        assert(s.subrange(0, 3).last() == s[2]);
        assert(s.last() == s[3]);
        assert(directed(v, s.subrange(0, 1)) == links_view(c1.package_links));
        assert(directed(v, s.subrange(0, 2)) == links_view(c2.package_links));
        assert(directed(v, s.subrange(0, 3)) == links_view(c3.package_links));
    }
    r
}

} // verus!
