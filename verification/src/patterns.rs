//! Pattern lists and regular-expression matching.
//!
//! `ls` filters directory entries by a list of regular expressions.  The
//! expressions are compiled and matched by the `regex` crate; the library
//! relies on it through the trusted items below, which name what compilation
//! and matching return so that the filter's contract can be exact.

use vstd::prelude::*;
use crate::VppStatLsError;

verus! {

/// A list of regular-expression pattern strings handed to `ls`.
#[derive(Debug, Clone)]
pub struct VppStringVec {
    pub strings: Vec<String>,
}

impl View for VppStringVec {
    type V = Seq<Seq<char>>;

    open spec fn view(&self) -> Seq<Seq<char>> {
        Seq::new(self.strings@.len(), |k: int| self.strings@[k]@)
    }
}

impl VppStringVec {
    pub fn new() -> (r: Self)
        ensures
            r@ =~= Seq::<Seq<char>>::empty(),
    {
        VppStringVec { strings: Vec::new() }
    }

    pub fn push(&mut self, s: &str)
        ensures
            final(self)@ =~= old(self)@.push(s@),
    {
        self.strings.push(s.to_owned());
        proof {
            assert(final(self)@ =~= old(self)@.push(s@));
        }
    }

    pub fn len(&self) -> (n: usize)
        ensures
            n == self@.len(),
    {
        self.strings.len()
    }

    /// The pattern at `index`.
    pub fn get(&self, index: usize) -> (r: &String)
        requires
            index < self@.len(),
        ensures
            r@ == self@[index as int],
    {
        &self.strings[index]
    }
}

#[verifier::external_type_specification]
#[verifier::external_body]
pub struct ExRegex(regex::Regex);

#[verifier::external_type_specification]
#[verifier::external_body]
pub struct ExRegexError(regex::Error);

/// Whether a pattern string compiles as a regular expression (under the
/// regex crate's default limits).
pub uninterp spec fn regex_compiles(pat: Seq<char>) -> bool;

/// The pattern a compiled regular expression was built from.
pub uninterp spec fn regex_pattern(re: regex::Regex) -> Seq<char>;

/// Whether the regular expression compiled from `pat` matches anywhere in
/// `text` (a substring match, not anchored).
pub uninterp spec fn regex_match(pat: Seq<char>, text: Seq<char>) -> bool;

/// Relies on regex::Regex::new: compiles the pattern, returning an error
/// exactly when the pattern is invalid (or exceeds the default size limit);
/// the compiled value remembers the pattern it was built from.
#[verifier::external_body]
fn regex_new(pat: &str) -> (r: Result<regex::Regex, regex::Error>)
    ensures
        r is Ok <==> regex_compiles(pat@),
        r matches Ok(re) ==> regex_pattern(re) == pat@,
{
    regex::Regex::new(pat)
}

/// Relies on regex::Regex::is_match: true if and only if the regular
/// expression matches anywhere in the haystack; the outcome depends only on
/// the pattern and the haystack.
#[verifier::external_body]
fn regex_is_match(re: &regex::Regex, text: &str) -> (r: bool)
    ensures
        r == regex_match(regex_pattern(*re), text@),
{
    re.is_match(text)
}

/// The patterns of a list of compiled regular expressions.
pub open spec fn pats_of(regexes: Seq<regex::Regex>) -> Seq<Seq<char>> {
    Seq::new(regexes.len(), |k: int| regex_pattern(regexes[k]))
}

/// Some pattern in the list matches the name.
pub open spec fn spec_name_matches(pats: Seq<Seq<char>>, name: Seq<char>) -> bool {
    exists|k: int| 0 <= k < pats.len() && regex_match(pats[k], name)
}

/// Compiles every pattern of the list, failing fast on the first invalid
/// one.  Succeeds if and only if every pattern compiles.
pub fn compile_patterns(patterns: &VppStringVec) -> (r: Result<Vec<regex::Regex>, VppStatLsError>)
    ensures
        r is Ok <==> (forall|i: int| 0 <= i < patterns@.len() ==> regex_compiles(patterns@[i])),
        r matches Ok(v) ==> pats_of(v@) =~= patterns@,
        r is Err ==> r == Result::<Vec<regex::Regex>, VppStatLsError>::Err(
            VppStatLsError::RegexCompileError,
        ),
{
    let n: usize = patterns.len();
    let mut out: Vec<regex::Regex> = Vec::new();
    let mut i: usize = 0;
    while i < n
        invariant
            n == patterns@.len(),
            0 <= i <= n,
            out@.len() == i,
            forall|x: int| 0 <= x < i ==> regex_compiles(#[trigger] patterns@[x]),
            forall|x: int| 0 <= x < i ==> regex_pattern(#[trigger] out@[x]) == patterns@[x],
        decreases n - i,
    {
        match regex_new(patterns.get(i).as_str()) {
            Ok(re) => {
                out.push(re);
            },
            Err(_) => {
                assert(!regex_compiles(patterns@[i as int]));
                return Err(VppStatLsError::RegexCompileError);
            },
        }
        i += 1;
    }
    proof {
        assert(pats_of(out@) =~= patterns@);
    }
    Ok(out)
}

/// Tests whether any of the compiled expressions matches the name.
pub fn name_matches(regexes: &Vec<regex::Regex>, name: &String) -> (b: bool)
    ensures
        b == spec_name_matches(pats_of(regexes@), name@),
{
    let n: usize = regexes.len();
    let mut k: usize = 0;
    while k < n
        invariant
            n == regexes@.len(),
            0 <= k <= n,
            forall|x: int| 0 <= x < k ==> !regex_match(
                regex_pattern(#[trigger] regexes@[x]),
                name@,
            ),
        decreases n - k,
    {
        if regex_is_match(&regexes[k], name.as_str()) {
            proof {
                assert(pats_of(regexes@)[k as int] == regex_pattern(regexes@[k as int]));
            }
            return true;
        }
        k += 1;
    }
    proof {
        assert forall|x: int| 0 <= x < pats_of(regexes@).len() implies !regex_match(
            pats_of(regexes@)[x],
            name@,
        ) by {
            assert(pats_of(regexes@)[x] == regex_pattern(regexes@[x]));
        }
    }
    false
}

} // verus!
