//! Selecting the entries of a dependency map by a set of package patterns,
//! and the four ways a directive edits what it selects.

use vstd::prelude::*;

use crate::glob::{glob_match, lemma_glob_matches_itself};
use crate::maps::{has_key, keys_unique, DependencyMap, Entry, PatternMap};

verus! {

/// Whether some pattern of `pats` accepts `name`.
pub open spec fn matched_by_any(pats: Seq<Entry>, name: Seq<char>) -> bool {
    exists|j: int| 0 <= j < pats.len() && glob_match(#[trigger] pats[j].0, name)
}

/// Whether `glob` accepts some key of `deps`.
pub open spec fn selects_some(deps: Seq<Entry>, glob: Seq<char>) -> bool {
    exists|i: int| 0 <= i < deps.len() && glob_match(glob, #[trigger] deps[i].0)
}

/// The entries of `deps` that no pattern of `pats` accepts, in their order.
pub open spec fn without_matches(deps: Seq<Entry>, pats: Seq<Entry>) -> Seq<Entry> {
    deps.filter(|e: Entry| !matched_by_any(pats, e.0))
}

/// `deps` with the constraint `v` on every key that `glob` accepts.
pub open spec fn overwritten(deps: Seq<Entry>, glob: Seq<char>, v: Seq<char>) -> Seq<Entry> {
    deps.map_values(|e: Entry| if glob_match(glob, e.0) { (e.0, v) } else { e })
}

/// How a directive section edits the entries that its patterns select.
#[derive(Debug, Clone, Copy, PartialEq, Eq, Structural)]
pub enum MergePolicy {
    /// Drop every entry that some pattern accepts.
    Delete,
    /// Append the directive's entry where its pattern accepts no key.
    InsertIfAbsent,
    /// Set the constraint of every key the pattern accepts, or append the
    /// directive's entry where it accepts none.
    Overwrite,
    /// Set the constraint of every key the pattern accepts; add nothing.
    OverwriteIfPresent,
}

/// One directive entry `(glob, v)` applied to `deps` under `policy`.
pub open spec fn step(deps: Seq<Entry>, glob: Seq<char>, v: Seq<char>, policy: MergePolicy) -> Seq<Entry> {
    match policy {
        MergePolicy::Delete => deps.filter(|e: Entry| !glob_match(glob, e.0)),
        MergePolicy::InsertIfAbsent => if selects_some(deps, glob) {
            deps
        } else {
            deps.push((glob, v))
        },
        MergePolicy::Overwrite => if selects_some(deps, glob) {
            overwritten(deps, glob, v)
        } else {
            deps.push((glob, v))
        },
        MergePolicy::OverwriteIfPresent => overwritten(deps, glob, v),
    }
}

/// The directive entries of `pats` applied to `deps` one after the other, in
/// their order.
pub open spec fn folded(deps: Seq<Entry>, pats: Seq<Entry>, policy: MergePolicy) -> Seq<Entry>
    decreases pats.len(),
{
    if pats.len() == 0 {
        deps
    } else {
        let d = folded(deps, pats.drop_last(), policy);
        step(d, pats.last().0, pats.last().1, policy)
    }
}

/// What a directive section with the patterns `pats` makes of `deps`.
/// Removal is a set filter: an entry goes when any pattern accepts its key.
pub open spec fn applied(deps: Seq<Entry>, pats: Seq<Entry>, policy: MergePolicy) -> Seq<Entry> {
    match policy {
        MergePolicy::Delete => without_matches(deps, pats),
        _ => folded(deps, pats, policy),
    }
}

/// Whether some pattern of `pats` accepts `name`.
pub fn matches_any(pats: &PatternMap, name: &str) -> (r: bool)
    ensures
        r == matched_by_any(pats@, name@),
{
    let mut j: usize = 0;
    while j < pats.len()
        invariant
            j <= pats@.len(),
            forall|k: int| 0 <= k < j ==> !glob_match(#[trigger] pats@[k].0, name@),
        decreases pats@.len() - j,
    {
        if pats.pattern(j).matches(name) {
            return true;
        }
        j = j + 1;
    }
    false
}

/// Whether `glob`, given by the pattern of entry `j` of `pats`, accepts some
/// key of `deps`.
fn selects_any(deps: &DependencyMap, pats: &PatternMap, j: usize) -> (r: bool)
    requires
        j < pats@.len(),
    ensures
        r == selects_some(deps@, pats@[j as int].0),
{
    let p = pats.pattern(j);
    let mut i: usize = 0;
    while i < deps.len()
        invariant
            i <= deps@.len(),
            p@ == pats@[j as int].0,
            forall|k: int| 0 <= k < i ==> !glob_match(p@, #[trigger] deps@[k].0),
        decreases deps@.len() - i,
    {
        if p.matches(deps.key(i)) {
            return true;
        }
        i = i + 1;
    }
    false
}

/// The entries of `deps` that no pattern of `pats` accepts, in their order.
/// A pattern that accepts nothing is no error.
pub fn remove_matching(deps: &DependencyMap, pats: &PatternMap) -> (r: DependencyMap)
    ensures
        r@ == without_matches(deps@, pats@),
{
    proof {
        use_type_invariant(deps);
    }
    let ghost pred = |e: Entry| !matched_by_any(pats@, e.0);
    let mut out = DependencyMap::new();
    let mut i: usize = 0;
    proof {
        reveal_with_fuel(Seq::filter, 1);
        assert(deps@.subrange(0, 0) =~= Seq::<Entry>::empty());
    }
    while i < deps.len()
        invariant
            keys_unique(deps@),
            i <= deps@.len(),
            pred == (|e: Entry| !matched_by_any(pats@, e.0)),
            out@ == deps@.subrange(0, i as int).filter(pred),
            forall|k: int|
                0 <= k < out@.len() ==> exists|m: int|
                    0 <= m < i && (#[trigger] out@[k]).0 == deps@[m].0,
        decreases deps@.len() - i,
    {
        let ghost prefix = deps@.subrange(0, i as int);
        let ghost next = deps@.subrange(0, i + 1);
        assert(next.drop_last() =~= prefix);
        assert(next.last() == deps@[i as int]);
        proof {
            reveal_with_fuel(Seq::filter, 1);
        }
        let key = deps.key(i);
        if !matches_any(pats, key) {
            assert(!has_key(out@, key@)) by {
                assert forall|k: int| 0 <= k < out@.len() implies out@[k].0 != key@ by {
                    let m = choose|m: int| 0 <= m < i && (#[trigger] out@[k]).0 == deps@[m].0;
                    assert(deps@[m].0 != deps@[i as int].0);
                }
            }
            let ghost pre = out@;
            out.push_new(String::from_str(key), String::from_str(deps.value(i)));
            assert forall|k: int| 0 <= k < out@.len() implies exists|m: int|
                0 <= m < i + 1 && (#[trigger] out@[k]).0 == deps@[m].0 by {
                if k < pre.len() {
                    let m = choose|m: int| 0 <= m < i && (#[trigger] pre[k]).0 == deps@[m].0;
                    assert(out@[k] == pre[k]);
                } else {
                    assert(out@[k].0 == deps@[i as int].0);
                }
            }
        }
        i = i + 1;
    }
    assert(deps@.subrange(0, deps@.len() as int) =~= deps@);
    out
}

/// Sets the constraint of every key of `deps` that the pattern of entry `j`
/// of `pats` accepts to that entry's constraint.
fn overwrite_matching(deps: &mut DependencyMap, pats: &PatternMap, j: usize)
    requires
        j < pats@.len(),
    ensures
        final(deps)@ == overwritten(old(deps)@, pats@[j as int].0, pats@[j as int].1),
{
    let ghost pre = deps@;
    let ghost glob = pats@[j as int].0;
    let ghost v = pats@[j as int].1;
    let p = pats.pattern(j);
    let value = pats.value(j);
    let mut i: usize = 0;
    while i < deps.len()
        invariant
            p@ == glob,
            value@ == v,
            i <= deps@.len(),
            deps@.len() == pre.len(),
            forall|k: int|
                0 <= k < i ==> #[trigger] deps@[k] == (if glob_match(glob, pre[k].0) {
                    (pre[k].0, v)
                } else {
                    pre[k]
                }),
            forall|k: int| i <= k < deps@.len() ==> #[trigger] deps@[k] == pre[k],
        decreases deps@.len() - i,
    {
        if p.matches(deps.key(i)) {
            deps.set_value(i, String::from_str(value));
        }
        i = i + 1;
    }
    assert(deps@ =~= overwritten(pre, glob, v));
}

/// Applies the directive entries of `pats` to `deps` under `policy`: removal
/// drops every entry that some pattern accepts; the other policies take the
/// directive entries one after the other, in their order.
pub fn apply_section(deps: DependencyMap, pats: &PatternMap, policy: MergePolicy) -> (r: DependencyMap)
    ensures
        r@ == applied(deps@, pats@, policy),
{
    if policy == MergePolicy::Delete {
        return remove_matching(&deps, pats);
    }
    let ghost start = deps@;
    let mut out = deps;
    let mut j: usize = 0;
    assert(pats@.subrange(0, 0) =~= Seq::<Entry>::empty());
    while j < pats.len()
        invariant
            policy != MergePolicy::Delete,
            j <= pats@.len(),
            out@ == folded(start, pats@.subrange(0, j as int), policy),
        decreases pats@.len() - j,
    {
        let ghost before = out@;
        let ghost glob = pats@[j as int].0;
        let ghost v = pats@[j as int].1;
        assert(pats@.subrange(0, j + 1).drop_last() =~= pats@.subrange(0, j as int));
        assert(pats@.subrange(0, j + 1).last() == pats@[j as int]);
        let present = selects_any(&out, pats, j);
        if !present && policy != MergePolicy::OverwriteIfPresent {
            assert(!has_key(before, glob)) by {
                lemma_glob_matches_itself(glob);
                if has_key(before, glob) {
                    let i = choose|i: int| 0 <= i < before.len() && before[i].0 == glob;
                    assert(glob_match(glob, before[i].0));
                }
            }
            out.push_new(
                String::from_str(pats.pattern(j).as_str()),
                String::from_str(pats.value(j)),
            );
        } else if policy != MergePolicy::InsertIfAbsent {
            overwrite_matching(&mut out, pats, j);
        }
        j = j + 1;
    }
    assert(pats@.subrange(0, pats@.len() as int) =~= pats@);
    out
}

/// Filtering twice by one predicate keeps what filtering once keeps.
proof fn lemma_filter_twice<A>(s: Seq<A>, pred: spec_fn(A) -> bool)
    ensures
        s.filter(pred).filter(pred) == s.filter(pred),
    decreases s.len(),
{
    reveal_with_fuel(Seq::filter, 1);
    if s.len() > 0 {
        lemma_filter_twice(s.drop_last(), pred);
        let sub = s.drop_last().filter(pred);
        if pred(s.last()) {
            assert(sub.push(s.last()).drop_last() =~= sub);
        }
    }
}

/// Filtering by a predicate that holds of every element keeps everything.
proof fn lemma_filter_all<A>(s: Seq<A>, pred: spec_fn(A) -> bool)
    requires
        forall|i: int| 0 <= i < s.len() ==> pred(#[trigger] s[i]),
    ensures
        s.filter(pred) == s,
    decreases s.len(),
{
    reveal_with_fuel(Seq::filter, 1);
    if s.len() > 0 {
        lemma_filter_all(s.drop_last(), pred);
        assert(s.drop_last().push(s.last()) =~= s);
    }
}

/// Removing by the patterns of a section twice gives what removing once
/// gives.
pub proof fn lemma_removal_idempotent(deps: Seq<Entry>, pats: Seq<Entry>)
    ensures
        without_matches(without_matches(deps, pats), pats) == without_matches(deps, pats),
{
    lemma_filter_twice(deps, |e: Entry| !matched_by_any(pats, e.0));
}

/// A section without patterns removes nothing.
pub proof fn lemma_removal_identity(deps: Seq<Entry>)
    ensures
        without_matches(deps, Seq::empty()) == deps,
{
    lemma_filter_all(deps, |e: Entry| !matched_by_any(Seq::empty(), e.0));
}

/// Patterns that select no key of `deps` leave it as it is: an unmatched
/// pattern is no error, and removes nothing.
pub proof fn lemma_removal_unmatched(deps: Seq<Entry>, pats: Seq<Entry>)
    requires
        forall|i: int| 0 <= i < deps.len() ==> !matched_by_any(pats, #[trigger] deps[i].0),
    ensures
        without_matches(deps, pats) == deps,
{
    lemma_filter_all(deps, |e: Entry| !matched_by_any(pats, e.0));
}

/// An entry stays exactly when no pattern accepts its key: removal is a set
/// filter, whatever the order of the patterns.
pub proof fn lemma_removal_filter(deps: Seq<Entry>, pats: Seq<Entry>, e: Entry)
    ensures
        without_matches(deps, pats).contains(e) <==> (deps.contains(e) && !matched_by_any(pats, e.0)),
{
    let pred = |x: Entry| !matched_by_any(pats, x.0);
    let kept = deps.filter(pred);
    if kept.contains(e) {
        deps.lemma_filter_contains_rev(pred, e);
        let i = choose|i: int| 0 <= i < kept.len() && kept[i] == e;
        deps.lemma_filter_pred(pred, i);
    }
    if deps.contains(e) && pred(e) {
        let i = choose|i: int| 0 <= i < deps.len() && deps[i] == e;
        deps.lemma_filter_contains(pred, i);
    }
}

} // verus!
