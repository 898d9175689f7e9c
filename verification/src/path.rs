//! Path patterns: a `Path` wraps a pattern string together with its compiled
//! regular expression, and decides whether a request path satisfies it.
//!
//! Matching follows the regular-expression convention of the underlying
//! engine: the pattern matches anywhere inside the request path unless the
//! pattern itself anchors to the start (`^`) or end (`$`) of the path.

use vstd::prelude::*;

verus! {

/// Whether `pattern` is a valid regular expression, that is, whether
/// compiling it succeeds. Valid only: compilation depends on the pattern
/// alone.
pub uninterp spec fn regex_valid(pattern: Seq<char>) -> bool;

/// Whether the regular expression `pattern` matches somewhere inside
/// `path`. The result depends on the pattern and the path alone.
pub uninterp spec fn regex_accepts(pattern: Seq<char>, path: Seq<char>) -> bool;

#[verifier::external_type_specification]
#[verifier::external_body]
pub struct ExRegex(regex::Regex);

/// A compiled path pattern, immutable once constructed.
///
/// The compiled matcher is built from `pattern` by the one constructor of
/// this type and never changes afterwards, so matching against a `Path`
/// is matching against its pattern.
#[derive(Debug)]
pub struct Path {
    pattern: String,
    matcher: regex::Regex,
}

impl View for Path {
    type V = Seq<char>;

    closed spec fn view(&self) -> Seq<char> {
        self.pattern@
    }
}

/// Relies on `regex::Regex::new`: it returns `Ok` exactly when the pattern
/// is a valid regular expression; the returned `Path` stores the pattern
/// beside the matcher compiled from that very pattern.
#[verifier::external_body]
fn compile_path(pattern: &str) -> (r: Option<Path>)
    ensures
        r is Some <==> regex_valid(pattern@),
        r is Some ==> r.unwrap()@ == pattern@,
{
    match regex::Regex::new(pattern) {
        Ok(matcher) => Some(Path { pattern: pattern.to_owned(), matcher }),
        Err(_) => None,
    }
}

/// Relies on `regex::Regex::is_match`: whether the compiled pattern matches
/// somewhere inside `path`, a pure function of the pattern and the path
/// (the matcher of `p` is compiled from `p`'s stored pattern).
#[verifier::external_body]
fn regex_is_match(p: &Path, path: &str) -> (m: bool)
    ensures
        m == regex_accepts(p@, path@),
{
    p.matcher.is_match(path)
}

impl Path {
    /// Compiles `pattern` into a `Path`. The pattern must be a valid
    /// regular expression; an invalid pattern is a configuration error
    /// that callers surface before this point (see [`Path::try_new`]).
    pub fn new(pattern: &str) -> (p: Path)
        requires
            regex_valid(pattern@),
        ensures
            p@ == pattern@,
    {
        match compile_path(pattern) {
            Some(p) => p,
            None => unreached(),
        }
    }

    /// Compiles `pattern` into a `Path`, returning `None` exactly when the
    /// pattern is not a valid regular expression.
    pub fn try_new(pattern: &str) -> (r: Option<Path>)
        ensures
            r is Some <==> regex_valid(pattern@),
            r is Some ==> r.unwrap()@ == pattern@,
    {
        compile_path(pattern)
    }

    /// Whether this pattern matches the request path: a pure, total
    /// predicate, free of side effects; the pattern was compiled once, at
    /// construction.
    pub fn is_match(&self, path: &str) -> (m: bool)
        ensures
            m == regex_accepts(self@, path@),
    {
        regex_is_match(self, path)
    }
}

} // verus!
