//! Package patterns: a raw glob kept for display and identity, beside the
//! matcher compiled from it.

use vstd::prelude::*;

use vstd::std_specs::cmp::PartialEqSpec;

use crate::glob::{compile, glob_match, glob_regex, regex_compiles, run_matcher, CompileError, Matcher};

verus! {

/// A glob over package names (`acme/*`). Two patterns are equal when their
/// raw texts are; the compiled matcher never takes part in identity.
#[derive(Debug)]
pub struct PackagePattern {
    pattern: String,
    matcher: Matcher,
}

impl View for PackagePattern {
    type V = Seq<char>;

    closed spec fn view(&self) -> Seq<char> {
        self.pattern@
    }
}

impl PackagePattern {
    #[verifier::type_invariant]
    spec fn inv(&self) -> bool {
        self.matcher@ == glob_regex(self.pattern@)
    }

    /// Compiles `pattern`; the result keeps `pattern` as its raw text.
    /// Compiling succeeds exactly when the regular expression engine accepts
    /// the expression written for `pattern`, which it refuses only past its
    /// size limits.
    pub fn new(pattern: &str) -> (r: Result<PackagePattern, CompileError>)
        ensures
            r is Ok <==> regex_compiles(glob_regex(pattern@)),
            r matches Ok(p) ==> p@ == pattern@,
    {
        match compile(pattern) {
            Ok(matcher) => Ok(PackagePattern { pattern: String::from_str(pattern), matcher }),
            Err(e) => Err(e),
        }
    }

    /// Whether the whole of `package` is covered by this pattern.
    pub fn matches(&self, package: &str) -> (r: bool)
        ensures
            r == glob_match(self@, package@),
    {
        proof {
            use_type_invariant(self);
        }
        run_matcher(&self.matcher, package, Ghost(self.pattern@))
    }

    /// The raw text of the pattern.
    pub fn as_str(&self) -> (r: &str)
        ensures
            r@ == self@,
    {
        self.pattern.as_str()
    }
}

impl PartialEq for PackagePattern {
    fn eq(&self, other: &PackagePattern) -> (r: bool)
        ensures
            r == (self@ == other@),
    {
        self.pattern == other.pattern
    }
}

impl vstd::std_specs::cmp::PartialEqSpecImpl for PackagePattern {
    open spec fn obeys_eq_spec() -> bool {
        true
    }

    open spec fn eq_spec(&self, other: &PackagePattern) -> bool {
        self@ == other@
    }
}

impl Eq for PackagePattern {

}

impl From<PackagePattern> for String {
    fn from(p: PackagePattern) -> (r: String)
        ensures
            r@ == p@,
    {
        p.pattern
    }
}

impl vstd::std_specs::convert::FromSpecImpl<PackagePattern> for String {
    open spec fn obeys_from_spec() -> bool {
        false
    }

    closed spec fn from_spec(p: PackagePattern) -> String {
        p.pattern
    }
}

impl core::hash::Hash for PackagePattern {
    /// Relies on `Hash` for `String`: only the raw text feeds the hasher, so
    /// equal patterns hash alike.
    #[verifier::external_body]
    fn hash<H: core::hash::Hasher>(&self, state: &mut H) {
        self.pattern.hash(state)
    }
}

impl TryFrom<&str> for PackagePattern {
    type Error = CompileError;

    fn try_from(value: &str) -> (r: Result<PackagePattern, CompileError>)
        ensures
            r is Ok <==> regex_compiles(glob_regex(value@)),
            r matches Ok(p) ==> p@ == value@,
    {
        PackagePattern::new(value)
    }
}

impl vstd::std_specs::convert::TryFromSpecImpl<&str> for PackagePattern {
    open spec fn obeys_try_from_spec() -> bool {
        false
    }

    open spec fn try_from_spec(value: &str) -> Result<PackagePattern, CompileError> {
        arbitrary()
    }
}

impl TryFrom<String> for PackagePattern {
    type Error = CompileError;

    fn try_from(value: String) -> (r: Result<PackagePattern, CompileError>)
        ensures
            r is Ok <==> regex_compiles(glob_regex(value@)),
            r matches Ok(p) ==> p@ == value@,
    {
        PackagePattern::new(value.as_str())
    }
}

impl vstd::std_specs::convert::TryFromSpecImpl<String> for PackagePattern {
    open spec fn obeys_try_from_spec() -> bool {
        false
    }

    open spec fn try_from_spec(value: String) -> Result<PackagePattern, CompileError> {
        arbitrary()
    }
}

/// Patterns built from the same raw text are equal, and accept the same
/// names, whatever their compiled form.
pub proof fn lemma_equal_raw_equal_patterns(p: PackagePattern, q: PackagePattern, name: Seq<char>)
    requires
        p@ == q@,
    ensures
        p.eq_spec(&q),
        glob_match(p@, name) == glob_match(q@, name),
{
}

} // verus!
