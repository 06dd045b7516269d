//! Regular expressions, matched by the `regex` crate.
use vstd::prelude::*;
use vstd::string::*;

verus! {

#[verifier::external_type_specification]
#[verifier::external_body]
pub struct ExRegex(regex::Regex);

#[verifier::external_type_specification]
#[verifier::external_body]
pub struct ExRegexError(regex::Error);

/// Whether the `regex` crate accepts `pattern` (with its default limits).
pub uninterp spec fn regex_compiles(pattern: Seq<char>) -> bool;

/// Whether the `regex` crate finds a match of `pattern` anywhere in
/// `haystack`.
pub uninterp spec fn regex_finds(pattern: Seq<char>, haystack: Seq<char>) -> bool;

/// `regex::Regex::new`: compiles `pattern`. The crate's result depends on the
/// pattern alone (its size limits are fixed by default); it is an error
/// exactly when the pattern is not accepted.
#[verifier::external_body]
fn regex_new(pattern: &str) -> (r: Result<regex::Regex, regex::Error>)
    ensures
        r is Ok == regex_compiles(pattern@),
{
    regex::Regex::new(pattern)
}

/// A compiled regular expression together with the pattern it was compiled
/// from. A `Pattern` is only made by [`Pattern::new`], which keeps both.
pub struct Pattern {
    source: String,
    re: regex::Regex,
}

impl Pattern {
    /// The pattern this regular expression was compiled from.
    pub closed spec fn source(&self) -> Seq<char> {
        self.source@
    }

    /// Compiles `pattern`; `None` when the `regex` crate refuses it.
    pub fn new(pattern: &str) -> (r: Option<Pattern>)
        ensures
            r is Some == regex_compiles(pattern@),
            r matches Some(p) ==> p.source() == pattern@,
    {
        match regex_new(pattern) {
            Ok(re) => Some(Pattern { source: String::from_str(pattern), re }),
            Err(_) => None,
        }
    }

    /// Whether the pattern matches somewhere in `haystack`.
    pub fn is_match(&self, haystack: &str) -> (b: bool)
        ensures
            b == regex_finds(self.source(), haystack@),
    {
        regex_is_match(self, haystack)
    }
}

/// `regex::Regex::is_match`: whether the compiled pattern matches anywhere in
/// `haystack`. The claim rests on `p.re` having been compiled from
/// `p.source`, which [`Pattern::new`] ensures.
#[verifier::external_body]
fn regex_is_match(p: &Pattern, haystack: &str) -> (b: bool)
    ensures
        b == regex_finds(p.source(), haystack@),
{
    p.re.is_match(haystack)
}

/// What the `regex` crate's `captures_iter` finds of `pattern` in
/// `haystack`: for each match in order, the whole match and groups 1 and 2
/// (none where a group did not take part or does not exist).
pub uninterp spec fn regex_captures(pattern: Seq<char>, haystack: Seq<char>) -> Seq<(Seq<char>, Option<Seq<char>>, Option<Seq<char>>)>;

/// One match: the whole match and the first two groups.
#[derive(Debug, Clone)]
pub struct Captured {
    pub full: String,
    pub group1: Option<String>,
    pub group2: Option<String>,
}

impl View for Captured {
    type V = (Seq<char>, Option<Seq<char>>, Option<Seq<char>>);

    open spec fn view(&self) -> (Seq<char>, Option<Seq<char>>, Option<Seq<char>>) {
        (self.full@, match self.group1 {
            Some(g) => Some(g@),
            None => None,
        }, match self.group2 {
            Some(g) => Some(g@),
            None => None,
        })
    }
}

pub open spec fn captured_views(v: Seq<Captured>) -> Seq<(Seq<char>, Option<Seq<char>>, Option<Seq<char>>)> {
    v.map_values(|c: Captured| c@)
}

/// `regex::Regex::captures_iter`: the matches of `p` in `haystack`, in
/// order, each as its whole match and groups 1 and 2. Named, not stated; it
/// rests on `p.re` having been compiled from `p.source`.
#[verifier::external_body]
fn regex_captures_iter(p: &Pattern, haystack: &str) -> (r: Vec<Captured>)
    ensures
        captured_views(r@) == regex_captures(p.source(), haystack@),
{
    p.re.captures_iter(haystack).map(|c| Captured {
        full: c[0].to_string(),
        group1: c.get(1).map(|m| m.as_str().to_string()),
        group2: c.get(2).map(|m| m.as_str().to_string()),
    }).collect()
}

impl Pattern {
    /// The matches of the pattern in `haystack`, in order.
    pub fn captures(&self, haystack: &str) -> (r: Vec<Captured>)
        ensures
            captured_views(r@) == regex_captures(self.source(), haystack@),
    {
        regex_captures_iter(self, haystack)
    }
}

} // verus!
