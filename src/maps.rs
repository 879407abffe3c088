//! Insertion-ordered maps with unique keys: a dependency map from package
//! names to version constraints, and a map from package patterns to
//! constraints as a directive holds it.

use vstd::prelude::*;

use crate::pattern::PackagePattern;

verus! {

/// An entry as the contracts see it: a key and a version constraint.
pub type Entry = (Seq<char>, Seq<char>);

/// No key occurs twice.
pub open spec fn keys_unique(s: Seq<Entry>) -> bool {
    forall|i: int, j: int| 0 <= i < j < s.len() ==> s[i].0 != s[j].0
}

/// Whether some entry of `s` has the key `k`.
pub open spec fn has_key(s: Seq<Entry>, k: Seq<char>) -> bool {
    exists|i: int| 0 <= i < s.len() && s[i].0 == k
}

/// `s` with the value of key `k` set to `v`: in place where the key is
/// present, appended at the end where it is not.
pub open spec fn inserted(s: Seq<Entry>, k: Seq<char>, v: Seq<char>) -> Seq<Entry> {
    if has_key(s, k) {
        s.update(choose|i: int| 0 <= i < s.len() && s[i].0 == k, (k, v))
    } else {
        s.push((k, v))
    }
}

proof fn lemma_inserted_unique(s: Seq<Entry>, k: Seq<char>, v: Seq<char>)
    requires
        keys_unique(s),
    ensures
        keys_unique(inserted(s, k, v)),
        has_key(inserted(s, k, v), k),
{
    if has_key(s, k) {
        let i = choose|i: int| 0 <= i < s.len() && s[i].0 == k;
        assert(inserted(s, k, v)[i].0 == k);
    } else {
        assert(inserted(s, k, v)[s.len() as int].0 == k);
    }
}

/// The entries of a dependency map as the contracts see them.
pub open spec fn dep_view(v: Seq<(String, String)>) -> Seq<Entry> {
    v.map_values(|e: (String, String)| (e.0@, e.1@))
}

/// The entries of a pattern map as the contracts see them.
pub open spec fn pattern_view(v: Seq<(PackagePattern, String)>) -> Seq<Entry> {
    v.map_values(|e: (PackagePattern, String)| (e.0@, e.1@))
}

/// A dependency map: package name to version constraint, in insertion order.
#[derive(Debug)]
pub struct DependencyMap {
    entries: Vec<(String, String)>,
}

impl View for DependencyMap {
    type V = Seq<Entry>;

    closed spec fn view(&self) -> Seq<Entry> {
        dep_view(self.entries@)
    }
}

impl DependencyMap {
    /// Keys are unique.
    #[verifier::type_invariant]
    pub open spec fn inv(&self) -> bool {
        keys_unique(self@)
    }

    /// The empty map.
    pub fn new() -> (r: DependencyMap)
        ensures
            r@ == Seq::<Entry>::empty(),
    {
        let r = DependencyMap { entries: Vec::new() };
        assert(r@ =~= Seq::<Entry>::empty());
        r
    }

    /// The number of entries.
    pub fn len(&self) -> (r: usize)
        ensures
            r == self@.len(),
    {
        self.entries.len()
    }

    /// Whether the map has no entry.
    pub fn is_empty(&self) -> (r: bool)
        ensures
            r == (self@.len() == 0),
    {
        self.entries.len() == 0
    }

    /// The package name of entry `i`.
    pub fn key(&self, i: usize) -> (r: &str)
        requires
            i < self@.len(),
        ensures
            r@ == self@[i as int].0,
    {
        self.entries[i].0.as_str()
    }

    /// The version constraint of entry `i`.
    pub fn value(&self, i: usize) -> (r: &str)
        requires
            i < self@.len(),
        ensures
            r@ == self@[i as int].1,
    {
        self.entries[i].1.as_str()
    }

    /// The position of `key`, if it is present.
    pub fn position(&self, key: &str) -> (r: Option<usize>)
        ensures
            r matches Some(i) ==> i < self@.len() && self@[i as int].0 == key@,
            r is None ==> !has_key(self@, key@),
    {
        let k = String::from_str(key);
        let mut i: usize = 0;
        while i < self.entries.len()
            invariant
                k@ == key@,
                i <= self@.len(),
                self@.len() == self.entries@.len(),
                forall|j: int| 0 <= j < i ==> self@[j].0 != key@,
            decreases self.entries.len() - i,
        {
            if self.entries[i].0 == k {
                return Some(i);
            }
            i = i + 1;
        }
        None
    }

    /// The version constraint of `key`, if it is present.
    pub fn get(&self, key: &str) -> (r: Option<&str>)
        ensures
            r matches Some(v) ==> exists|i: int| 0 <= i < self@.len() && self@[i] == (key@, v@),
            r is None ==> !has_key(self@, key@),
    {
        match self.position(key) {
            Some(i) => Some(self.entries[i].1.as_str()),
            None => None,
        }
    }

    /// Sets the constraint of `key` to `value`, in place where the key is
    /// present, at the end where it is not.
    pub fn insert(&mut self, key: String, value: String)
        ensures
            final(self)@ == inserted(old(self)@, key@, value@),
    {
        proof {
            use_type_invariant(&*self);
            lemma_inserted_unique(self@, key@, value@);
        }
        let ghost pre = self@;
        let pos = self.position(key.as_str());
        let mut entries: Vec<(String, String)> = Vec::new();
        std::mem::swap(&mut self.entries, &mut entries);
        match pos {
            Some(i) => {
                assert(has_key(pre, key@));
                let ghost j = choose|j: int| 0 <= j < pre.len() && pre[j].0 == key@;
                assert(j == i);
                entries.set(i, (key, value));
            },
            None => {
                entries.push((key, value));
            },
        }
        assert(dep_view(entries@) =~= inserted(pre, key@, value@));
        self.entries = entries;
    }

    /// Replaces the version constraint of entry `i`, keeping its key.
    pub(crate) fn set_value(&mut self, i: usize, value: String)
        requires
            i < old(self)@.len(),
        ensures
            final(self)@ == old(self)@.update(i as int, (old(self)@[i as int].0, value@)),
    {
        proof {
            use_type_invariant(&*self);
        }
        let ghost pre = self@;
        let key = self.entries[i].0.clone();
        let mut entries: Vec<(String, String)> = Vec::new();
        std::mem::swap(&mut self.entries, &mut entries);
        entries.set(i, (key, value));
        assert(dep_view(entries@) =~= pre.update(i as int, (pre[i as int].0, value@)));
        assert(forall|k: int| 0 <= k < pre.len() ==> dep_view(entries@)[k].0 == pre[k].0);
        self.entries = entries;
    }

    /// Appends an entry whose key is not yet present.
    pub(crate) fn push_new(&mut self, key: String, value: String)
        requires
            !has_key(old(self)@, key@),
        ensures
            final(self)@ == old(self)@.push((key@, value@)),
    {
        proof {
            use_type_invariant(&*self);
        }
        let ghost pre = self@;
        let mut entries: Vec<(String, String)> = Vec::new();
        std::mem::swap(&mut self.entries, &mut entries);
        entries.push((key, value));
        assert(dep_view(entries@) =~= pre.push((key@, value@)));
        self.entries = entries;
    }
}

/// The patterns of a directive section, each with a version constraint, in
/// insertion order.
#[derive(Debug)]
pub struct PatternMap {
    entries: Vec<(PackagePattern, String)>,
}

impl View for PatternMap {
    type V = Seq<Entry>;

    closed spec fn view(&self) -> Seq<Entry> {
        pattern_view(self.entries@)
    }
}

impl PatternMap {
    /// Keys are unique.
    #[verifier::type_invariant]
    pub open spec fn inv(&self) -> bool {
        keys_unique(self@)
    }

    /// The empty map.
    pub fn new() -> (r: PatternMap)
        ensures
            r@ == Seq::<Entry>::empty(),
    {
        let r = PatternMap { entries: Vec::new() };
        assert(r@ =~= Seq::<Entry>::empty());
        r
    }

    /// The number of entries.
    pub fn len(&self) -> (r: usize)
        ensures
            r == self@.len(),
    {
        self.entries.len()
    }

    /// Whether the map has no entry.
    pub fn is_empty(&self) -> (r: bool)
        ensures
            r == (self@.len() == 0),
    {
        self.entries.len() == 0
    }

    /// The pattern of entry `i`.
    pub fn pattern(&self, i: usize) -> (r: &PackagePattern)
        requires
            i < self@.len(),
        ensures
            r@ == self@[i as int].0,
    {
        &self.entries[i].0
    }

    /// The version constraint of entry `i`.
    pub fn value(&self, i: usize) -> (r: &str)
        requires
            i < self@.len(),
        ensures
            r@ == self@[i as int].1,
    {
        self.entries[i].1.as_str()
    }

    /// The position of the pattern equal to `pattern`, if one is present.
    pub fn position(&self, pattern: &PackagePattern) -> (r: Option<usize>)
        ensures
            r matches Some(i) ==> i < self@.len() && self@[i as int].0 == pattern@,
            r is None ==> !has_key(self@, pattern@),
    {
        let mut i: usize = 0;
        while i < self.entries.len()
            invariant
                i <= self@.len(),
                self@.len() == self.entries@.len(),
                forall|j: int| 0 <= j < i ==> self@[j].0 != pattern@,
            decreases self.entries.len() - i,
        {
            if self.entries[i].0 == *pattern {
                return Some(i);
            }
            i = i + 1;
        }
        None
    }

    /// Sets the constraint of `pattern` to `value`, in place where an equal
    /// pattern is present, at the end where none is.
    pub fn insert(&mut self, pattern: PackagePattern, value: String)
        ensures
            final(self)@ == inserted(old(self)@, pattern@, value@),
    {
        proof {
            use_type_invariant(&*self);
            lemma_inserted_unique(self@, pattern@, value@);
        }
        let ghost pre = self@;
        let pos = self.position(&pattern);
        let mut entries: Vec<(PackagePattern, String)> = Vec::new();
        std::mem::swap(&mut self.entries, &mut entries);
        match pos {
            Some(i) => {
                assert(pre[i as int].0 == pattern@);
                assert(has_key(pre, pattern@));
                let ghost j = choose|j: int| 0 <= j < pre.len() && pre[j].0 == pattern@;
                assert(j == i);
                entries.set(i, (pattern, value));
            },
            None => {
                entries.push((pattern, value));
            },
        }
        assert(pattern_view(entries@) =~= inserted(pre, pattern@, value@));
        self.entries = entries;
    }
}

} // verus!
