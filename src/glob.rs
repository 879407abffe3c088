//! Glob patterns over package names, and the regular expressions that run them.
//!
//! In a glob `*` stands for any run of characters (`/` included) and every
//! other character stands for itself; a glob must cover the whole name.

use vstd::prelude::*;

verus! {

/// What `name` must look like for `glob` to accept it.
pub open spec fn glob_match(glob: Seq<char>, name: Seq<char>) -> bool
    decreases glob.len() + name.len(),
{
    if glob.len() == 0 {
        name.len() == 0
    } else if glob[0] == '*' {
        glob_match(glob.drop_first(), name) || (name.len() > 0 && glob_match(glob, name.drop_first()))
    } else {
        name.len() > 0 && name[0] == glob[0] && glob_match(glob.drop_first(), name.drop_first())
    }
}

/// The characters that carry a meaning in a regular expression.
pub open spec fn is_meta(c: char) -> bool {
    c == '\\' || c == '.' || c == '+' || c == '*' || c == '?' || c == '(' || c == ')' || c == '|'
        || c == '[' || c == ']' || c == '{' || c == '}' || c == '^' || c == '$' || c == '#'
        || c == '&' || c == '-' || c == '~'
}

/// One character, written so that a regular expression reads it literally.
pub open spec fn escaped_char(c: char) -> Seq<char> {
    if is_meta(c) {
        seq!['\\', c]
    } else {
        seq![c]
    }
}

/// A text, written so that a regular expression reads it literally.
pub open spec fn escaped(s: Seq<char>) -> Seq<char>
    decreases s.len(),
{
    if s.len() == 0 {
        Seq::empty()
    } else {
        escaped(s.drop_last()) + escaped_char(s.last())
    }
}

/// The body of the regular expression for a glob: `.*` for each `*`, every
/// other character escaped.
pub open spec fn glob_body(glob: Seq<char>) -> Seq<char>
    decreases glob.len(),
{
    if glob.len() == 0 {
        Seq::empty()
    } else {
        glob_body(glob.drop_last()) + if glob.last() == '*' {
            seq!['.', '*']
        } else {
            escaped_char(glob.last())
        }
    }
}

/// The whole regular expression for a glob: `.` also matches line breaks, and
/// the body is anchored at both ends.
pub open spec fn glob_regex(glob: Seq<char>) -> Seq<char> {
    seq!['(', '?', 's', ')', '^'] + glob_body(glob) + seq!['$']
}

#[verifier::external_type_specification]
#[verifier::external_body]
pub struct ExRegex(regex::Regex);

#[verifier::external_type_specification]
#[verifier::external_body]
pub struct ExRegexError(regex::Error);

/// A compiled regular expression together with the text it was compiled from.
#[derive(Debug)]
pub struct Matcher {
    source: String,
    regex: regex::Regex,
}

impl View for Matcher {
    type V = Seq<char>;

    closed spec fn view(&self) -> Seq<char> {
        self.source@
    }
}

/// Relies on regex::escape: a backslash goes before each meta character
/// (those of `is_meta`), and every character is kept in order.
#[verifier::external_body]
fn escape(text: &str) -> (r: String)
    ensures
        r@ == escaped(text@),
{
    regex::escape(text)
}

/// Whether the regular expression engine accepts `source`: its syntax is
/// valid and the compiled program stays within the default size limits.
/// The answer depends on the text alone.
pub uninterp spec fn regex_compiles(source: Seq<char>) -> bool;

/// Relies on regex::Regex::new: it succeeds exactly when the engine accepts
/// the text, and on success the compiled expression is kept beside the text
/// it came from. Compilation may fail, for instance when the expression
/// exceeds the crate's size limit.
#[verifier::external_body]
fn compile_regex(source: String) -> (r: Result<Matcher, regex::Error>)
    ensures
        r is Ok <==> regex_compiles(source@),
        r matches Ok(m) ==> m@ == source@,
{
    match regex::Regex::new(&source) {
        Ok(regex) => Ok(Matcher { source, regex }),
        Err(e) => Err(e),
    }
}

/// Relies on regex::Regex::is_match for an expression built by `glob_regex`:
/// under the `s` flag `.*` matches any run of characters, an escaped
/// character matches itself, and `^` and `$` anchor at the ends of the text.
#[verifier::external_body]
fn regex_is_match(m: &Matcher, text: &str) -> (r: bool)
    ensures
        forall|glob: Seq<char>| #[trigger] glob_regex(glob) == m@ ==> r == glob_match(glob, text@),
{
    m.regex.is_match(text)
}

/// The error of a pattern that cannot be compiled.
#[derive(Debug, Clone, Copy, PartialEq, Eq, Structural)]
pub enum CompileError {
    /// The regular expression engine refused the pattern.
    Rejected,
}

/// Writes out the regular expression that runs `glob`.
pub fn regex_source(glob: &str) -> (r: String)
    ensures
        r@ == glob_regex(glob@),
{
    let n = glob.unicode_len();
    let mut body = String::new();
    let mut start: usize = 0;
    let mut i: usize = 0;
    proof {
        reveal_strlit("(?s)^");
        reveal_strlit("$");
        assert(glob@.subrange(0, 0) =~= Seq::<char>::empty());
    }
    while i < n
        invariant
            n == glob@.len(),
            start <= i <= n,
            glob_body(glob@.subrange(0, i as int)) == body@ + escaped(glob@.subrange(start as int, i as int)),
        decreases n - i,
    {
        let c = glob.get_char(i);
        proof {
            let prev = glob@.subrange(0, i as int);
            let next = glob@.subrange(0, i + 1);
            assert(next.drop_last() =~= prev);
            assert(next.last() == c);
            let seg = glob@.subrange(start as int, i + 1);
            assert(seg.drop_last() =~= glob@.subrange(start as int, i as int));
        }
        let ghost old_body = body@;
        if c == '*' {
            let seg = glob.substring_char(start, i);
            let e = escape(seg);
            body.append(e.as_str());
            body.append(".*");
            proof {
                reveal_strlit(".*");
            }
            assert(body@ == old_body + e@ + seq!['.', '*']);
            start = i + 1;
            assert(glob@.subrange(start as int, start as int) =~= Seq::<char>::empty());
            assert(escaped(glob@.subrange(start as int, i + 1)) =~= Seq::<char>::empty());
            assert(body@ + escaped(glob@.subrange(start as int, i + 1)) =~= old_body + e@ + seq![
                '.',
                '*',
            ]);
        } else {
            assert(body@ + escaped(glob@.subrange(start as int, i + 1)) =~= old_body + escaped(
                glob@.subrange(start as int, i as int),
            ) + escaped_char(c));
        }
        i = i + 1;
    }
    assert(glob@.subrange(0, n as int) =~= glob@);
    let seg = glob.substring_char(start, n);
    let e = escape(seg);
    body.append(e.as_str());
    let mut text = String::from_str("(?s)^");
    text.append(body.as_str());
    text.append("$");
    text
}

/// Compiles `glob` into a matcher for it.
pub(crate) fn compile(glob: &str) -> (r: Result<Matcher, CompileError>)
    ensures
        r is Ok <==> regex_compiles(glob_regex(glob@)),
        r matches Ok(m) ==> m@ == glob_regex(glob@),
{
    let source = regex_source(glob);
    match compile_regex(source) {
        Ok(m) => Ok(m),
        Err(_) => Err(CompileError::Rejected),
    }
}

/// Whether the glob that `m` was compiled from accepts `name`.
pub(crate) fn run_matcher(m: &Matcher, name: &str, Ghost(glob): Ghost<Seq<char>>) -> (r: bool)
    requires
        m@ == glob_regex(glob),
    ensures
        r == glob_match(glob, name@),
{
    regex_is_match(m, name)
}

/// Every glob accepts its own text: each `*` stands for itself.
pub proof fn lemma_glob_matches_itself(glob: Seq<char>)
    ensures
        glob_match(glob, glob),
    decreases glob.len(),
{
    if glob.len() > 0 {
        lemma_glob_matches_itself(glob.drop_first());
        if glob[0] == '*' {
            assert(glob_match(glob, glob.drop_first()));
        }
    }
}

/// A glob without `*` accepts exactly its own text.
pub proof fn lemma_literal_glob(glob: Seq<char>, name: Seq<char>)
    requires
        !glob.contains('*'),
    ensures
        glob_match(glob, name) <==> name == glob,
    decreases glob.len(),
{
    if glob.len() > 0 {
        assert(glob[0] != '*') by {
            assert(glob[0] == glob[0]);
        }
        let rest = glob.drop_first();
        assert(!rest.contains('*')) by {
            if rest.contains('*') {
                let i = choose|i: int| 0 <= i < rest.len() && rest[i] == '*';
                assert(glob[i + 1] == '*');
            }
        }
        if name.len() > 0 {
            lemma_literal_glob(rest, name.drop_first());
            if name == glob {
                assert(name.drop_first() == rest);
            }
            if name[0] == glob[0] && name.drop_first() == rest {
                assert(name =~= glob) by {
                    assert forall|i: int| 0 <= i < name.len() implies name[i] == glob[i] by {
                        if i > 0 {
                            assert(name[i] == name.drop_first()[i - 1]);
                        }
                    }
                }
            }
        }
    } else {
        if name.len() == 0 {
            assert(name =~= glob);
        }
    }
}

/// The empty glob accepts the empty name and nothing else.
pub proof fn lemma_empty_glob(name: Seq<char>)
    ensures
        glob_match(Seq::empty(), name) <==> name.len() == 0,
{
}

/// A lone `*` accepts every name.
pub proof fn lemma_star_accepts_all(name: Seq<char>)
    ensures
        glob_match(seq!['*'], name),
    decreases name.len(),
{
    let star = seq!['*'];
    assert(star[0] == '*');
    assert(star.drop_first() =~= Seq::<char>::empty());
    if name.len() > 0 {
        lemma_star_accepts_all(name.drop_first());
    } else {
        assert(glob_match(star.drop_first(), name));
    }
}

proof fn lemma_double_star_head(rest: Seq<char>, name: Seq<char>)
    ensures
        glob_match(seq!['*', '*'] + rest, name) == glob_match(seq!['*'] + rest, name),
    decreases name.len(),
{
    let two = seq!['*', '*'] + rest;
    let one = seq!['*'] + rest;
    assert(two[0] == '*');
    assert(one[0] == '*');
    assert(two.drop_first() =~= one);
    assert(one.drop_first() =~= rest);
    if name.len() > 0 {
        lemma_double_star_head(rest, name.drop_first());
    }
}

/// Two `*` in a row accept what a single `*` accepts.
pub proof fn lemma_double_star(prefix: Seq<char>, rest: Seq<char>, name: Seq<char>)
    ensures
        glob_match(prefix + seq!['*', '*'] + rest, name) == glob_match(prefix + seq!['*'] + rest, name),
    decreases prefix.len() + name.len(),
{
    let two = prefix + seq!['*', '*'] + rest;
    let one = prefix + seq!['*'] + rest;
    if prefix.len() == 0 {
        assert(two =~= seq!['*', '*'] + rest);
        assert(one =~= seq!['*'] + rest);
        lemma_double_star_head(rest, name);
    } else {
        let tail = prefix.drop_first();
        assert(two[0] == prefix[0]);
        assert(one[0] == prefix[0]);
        assert(two.drop_first() =~= tail + seq!['*', '*'] + rest);
        assert(one.drop_first() =~= tail + seq!['*'] + rest);
        lemma_double_star(tail, rest, name);
        if name.len() > 0 {
            lemma_double_star(tail, rest, name.drop_first());
            lemma_double_star(prefix, rest, name.drop_first());
        }
    }
}

} // verus!
