//! Glob patterns that decide which changed paths are of interest.
use vstd::prelude::*;

verus! {

#[verifier::external_type_specification]
#[verifier::external_body]
pub struct ExGlobPattern(glob::Pattern);

/// Whether `glob::Pattern::new` accepts the pattern text.
pub uninterp spec fn glob_compiles(pattern: Seq<char>) -> bool;

/// Whether the pattern compiled from `pattern` matches `path`
/// (`glob::Pattern::matches_with`, case sensitive, with `*`, `?` and `[...]`
/// kept within one path segment; only `**` spans separators).
pub uninterp spec fn glob_matches(pattern: Seq<char>, path: Seq<char>) -> bool;

/// Why a pattern text was rejected.
#[derive(Debug)]
pub struct PatternError {
    /// Character index at which the text stopped making sense.
    pub position: usize,
    /// What was wrong there.
    pub message: String,
}

/// Relies on `glob::Pattern::new`: it succeeds exactly on the texts it
/// accepts; the error's fields are moved over as they are.
#[verifier::external_body]
fn compile(text: &str) -> (r: Result<glob::Pattern, PatternError>)
    ensures
        r is Ok <==> glob_compiles(text@),
{
    glob::Pattern::new(text).map_err(|e| PatternError { position: e.pos, message: e.msg.to_string() })
}

/// Relies on the derived `Clone` of `glob::Pattern`, which copies every field.
#[verifier::external_body]
fn copy_compiled(p: &glob::Pattern) -> glob::Pattern {
    p.clone()
}

/// A compiled glob pattern together with the text it was compiled from.
///
/// `compiled` is always the result of compiling `text`: `new` is the only
/// constructor, and `clone` copies both halves.
#[derive(Debug)]
pub struct GlobPattern {
    text: String,
    compiled: glob::Pattern,
}

impl View for GlobPattern {
    type V = Seq<char>;

    closed spec fn view(&self) -> Seq<char> {
        self.text@
    }
}

impl GlobPattern {
    /// The text is one that glob compiles.
    #[verifier::type_invariant]
    spec fn inv(&self) -> bool {
        glob_compiles(self.text@)
    }

    /// Compiles `text`; fails exactly when glob rejects it.
    pub fn new(text: &str) -> (r: Result<GlobPattern, PatternError>)
        ensures
            r is Ok <==> glob_compiles(text@),
            r matches Ok(p) ==> p@ == text@,
    {
        match compile(text) {
            Ok(compiled) => Ok(GlobPattern { text: text.to_string(), compiled }),
            Err(e) => Err(e),
        }
    }

    /// The text the pattern was compiled from.
    pub fn as_str(&self) -> (r: &str)
        ensures
            r@ == self@,
            glob_compiles(r@),
    {
        proof {
            use_type_invariant(self);
        }
        self.text.as_str()
    }

    /// Relies on `glob::Pattern::matches_with`, on the pattern that was
    /// compiled from `self.text`, with separators matched only literally.
    #[verifier::external_body]
    pub(crate) fn matches(&self, path: &str) -> (r: bool)
        ensures
            r == glob_matches(self@, path@),
    {
        let options = glob::MatchOptions { require_literal_separator: true, ..glob::MatchOptions::new() };
        self.compiled.matches_with(path, options)
    }
}

impl Clone for GlobPattern {
    fn clone(&self) -> (r: GlobPattern)
        ensures
            r@ == self@,
    {
        proof {
            use_type_invariant(self);
        }
        GlobPattern { text: self.text.clone(), compiled: copy_compiled(&self.compiled) }
    }
}

/// The texts of a sequence of patterns.
pub open spec fn texts(pats: Seq<GlobPattern>) -> Seq<Seq<char>> {
    pats.map_values(|p: GlobPattern| p@)
}

/// `path` matches at least one of the pattern texts.
pub open spec fn matches_any(pats: Seq<Seq<char>>, path: Seq<char>) -> bool {
    exists|i: int| 0 <= i < pats.len() && glob_matches(#[trigger] pats[i], path)
}

/// A path qualifies when it matches some watched pattern and no exclude
/// pattern. With no watched pattern nothing qualifies.
pub open spec fn qualifies_by(patterns: Seq<Seq<char>>, excluded: Seq<Seq<char>>, path: Seq<char>) -> bool {
    matches_any(patterns, path) && !matches_any(excluded, path)
}

/// Whether `path` matches at least one of `pats`.
pub fn any_matches(pats: &[GlobPattern], path: &str) -> (r: bool)
    ensures
        r == matches_any(texts(pats@), path@),
{
    let mut i: usize = 0;
    while i < pats.len()
        invariant
            i <= pats@.len(),
            forall|j: int| 0 <= j < i ==> !glob_matches(#[trigger] texts(pats@)[j], path@),
        decreases pats@.len() - i,
    {
        if pats[i].matches(path) {
            assert(glob_matches(texts(pats@)[i as int], path@));
            return true;
        }
        i = i + 1;
    }
    false
}

/// The pattern filter: `path` matches at least one of `patterns` and none of
/// `excluded`.
pub fn qualifies(path: &str, patterns: &[GlobPattern], excluded: &[GlobPattern]) -> (r: bool)
    ensures
        r == qualifies_by(texts(patterns@), texts(excluded@), path@),
{
    any_matches(patterns, path) && !any_matches(excluded, path)
}

/// With no watched pattern no path qualifies, whatever is excluded.
pub proof fn lemma_no_patterns_nothing_qualifies(excluded: Seq<Seq<char>>, path: Seq<char>)
    ensures
        !qualifies_by(Seq::empty(), excluded, path),
{
}

} // verus!
