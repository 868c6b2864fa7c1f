//! The pattern compiler: turns pattern text into a reusable matcher whose
//! expensive compilation is deferred to first use and then cached.

use vstd::prelude::*;

use crate::error::{BuildError, BuildErrorV};

verus! {

/// Whether the pattern compiler accepts the given pattern text.
///
/// Acceptance means the text compiles, with whitespace set insignificant and
/// within the configured size limit, and passes the lazy builder's own
/// syntax check; both are functions of the text alone.
pub uninterp spec fn pattern_valid(text: Seq<char>) -> bool;

/// The verdict of the compiled form of `text` on `input`.
pub uninterp spec fn pattern_match(text: Seq<char>, input: Seq<char>) -> bool;

/// Whitespace characters, which carry no meaning inside pattern text.
pub open spec fn pattern_space(c: char) -> bool {
    c == ' ' || c == '\t' || c == '\n' || c == '\r' || c == '\u{b}' || c == '\u{c}'
}

/// The pattern text with all whitespace removed.
pub open spec fn strip_spaces(text: Seq<char>) -> Seq<char> {
    text.filter(|c: char| !pattern_space(c))
}

/// Pattern text whose whitespace is certainly insignificant for matching: it
/// holds no escape (an escaped whitespace character would be significant),
/// no comment mark (a comment runs to the next line break), no character
/// class (a class may hold a named character set, which is recognized letter
/// by letter), and no group mark (a group may toggle the whitespace flag
/// inline).
pub open spec fn plain_pattern(text: Seq<char>) -> bool {
    forall|i: int|
        0 <= i < text.len() ==> text[i] != '\\' && text[i] != '#' && text[i] != '[' && text[i]
            != '('
}

/// Whether the text holds no counted-repetition mark.  Inside one, the lazy
/// builder's verbatim up-front syntax check reads a repetition bound digit by
/// digit, so whitespace splitting a bound can decide acceptance.
pub open spec fn brace_free(text: Seq<char>) -> bool {
    forall|i: int| 0 <= i < text.len() ==> text[i] != '{'
}

/// The lazily compiled regular expression of `regex_cache`, carried opaquely.
#[verifier::external_type_specification]
#[verifier::external_body]
pub struct ExLazyRegex(regex_cache::LazyRegex);

/// The compilation error of `regex_cache`, carried opaquely.
#[verifier::external_type_specification]
#[verifier::external_body]
pub struct ExRegexError(regex_cache::Error);

/// Relies on `regex_cache::LazyRegex`'s `Clone`: the clone shares the cached
/// compiled form; nothing is claimed of it.
pub assume_specification[ <regex_cache::LazyRegex as Clone>::clone ](
    re: &regex_cache::LazyRegex,
) -> regex_cache::LazyRegex;

/// Relies on `regex::RegexBuilder::build` and
/// `regex_cache::LazyRegexBuilder::build`: the text is compiled eagerly
/// first, with whitespace set insignificant and the same size limit the
/// deferred compilation uses, and then handed to the lazy builder, whose own
/// up-front syntax check reads the text verbatim.  `Ok` therefore means the
/// deferred compilation on first use repeats a compilation that has already
/// succeeded, so it cannot fail; both checks are functions of the text
/// alone.  On text free of escapes, comment, class and group marks both
/// checks skip whitespace wherever it stands — except inside a repetition
/// bound, which the verbatim check reads digit by digit — so without braces
/// acceptance is that of the whitespace-stripped text.
#[verifier::external_body]
fn build_pattern(text: &str) -> (r: Result<regex_cache::LazyRegex, regex_cache::Error>)
    ensures
        r is Ok <==> pattern_valid(text@),
        plain_pattern(text@) && brace_free(text@) ==> (r is Ok <==> pattern_valid(
            strip_spaces(text@),
        )),
{
    regex::RegexBuilder::new(text).ignore_whitespace(true).size_limit(10 * (1 << 20)).build()?;
    regex_cache::LazyRegexBuilder::new(text).ignore_whitespace(true).build()
}

/// A compiled, reusable pattern-matching value.
///
/// The matching machinery is built lazily on first use and cached inside
/// `regex`, under internal synchronization, so a `Matcher` shared between
/// threads never recompiles and never exposes a partially compiled state.
/// The source text is kept beside it so a record can be re-derived.
#[derive(Debug)]
pub struct Matcher {
    source: String,
    regex: regex_cache::LazyRegex,
}

/// Every matcher was made by [`Matcher::compile`], so its source text is a
/// pattern the compiler accepts.
#[verifier::type_invariant]
pub open spec fn matcher_wf(m: Matcher) -> bool {
    pattern_valid(m@)
}

impl View for Matcher {
    type V = Seq<char>;

    /// A matcher is modelled by its source text.
    closed spec fn view(&self) -> Seq<char> {
        self.source@
    }
}

impl DeepView for Matcher {
    type V = Seq<char>;

    open spec fn deep_view(&self) -> Seq<char> {
        self.view()
    }
}

impl Clone for Matcher {
    /// A clone carries the same pattern text, sharing the cached compiled
    /// form.
    fn clone(&self) -> (r: Matcher)
        ensures
            r@ == self@,
    {
        proof {
            use_type_invariant(self);
        }
        Matcher { source: self.source.clone(), regex: self.regex.clone() }
    }
}

impl Matcher {
    /// Compile pattern text into a matcher, rejecting text the compiler
    /// cannot compile; the compiled form the matcher itself carries is still
    /// built lazily on first use and then cached.
    pub fn compile(text: &str) -> (r: Result<Matcher, BuildError>)
        ensures
            r is Ok <==> pattern_valid(text@),
            plain_pattern(text@) && brace_free(text@) ==> (r is Ok <==> pattern_valid(
                strip_spaces(text@),
            )),
            r matches Ok(m) ==> m@ == text@,
            r matches Err(e) ==> e@ == (BuildErrorV::Pattern { text: text@ }),
    {
        match build_pattern(text) {
            Ok(regex) => Ok(Matcher { source: text.to_owned(), regex }),
            Err(_) => Err(BuildError::Pattern { text: text.to_owned() }),
        }
    }

    /// The pattern text this matcher was compiled from.
    pub fn source(&self) -> (r: &str)
        ensures
            r@ == self@,
    {
        self.source.as_str()
    }

    /// Whether the pattern accepts the input.
    ///
    /// Relies on `regex_cache::LazyRegex::is_match`: the first call builds
    /// the compiled form once, under the crate's internal lock — a repeat of
    /// the compilation [`Matcher::compile`] already performed, so it cannot
    /// fail — and the verdict is a function of the source text and the input
    /// alone.  The pattern is compiled with whitespace set insignificant, so
    /// on text free of escapes, comment, class and group marks the verdict is
    /// that of the whitespace-stripped text.
    #[verifier::external_body]
    pub fn is_match(&self, input: &str) -> (r: bool)
        ensures
            r == pattern_match(self@, input@),
            plain_pattern(self@) ==> r == pattern_match(strip_spaces(self@), input@),
    {
        self.regex.is_match(input)
    }
}

/// Whitespace in pattern text carries no matching meaning: two matchers
/// whose sources differ only in whitespace, and hold no escape, comment,
/// class or group mark, return the same verdict on every input.  The
/// verdicts are those of the two calls that produced them.
pub fn matchers_agree(a: &Matcher, b: &Matcher, input: &str) -> (r: (bool, bool))
    requires
        plain_pattern(a@),
        plain_pattern(b@),
        strip_spaces(a@) == strip_spaces(b@),
    ensures
        r.0 == r.1,
        r.0 == pattern_match(a@, input@),
        r.1 == pattern_match(b@, input@),
{
    (a.is_match(input), b.is_match(input))
}

/// Whitespace in pattern text does not decide compilation either: two texts
/// that differ only in whitespace, and hold no escape, comment, class, group
/// or counted-repetition mark, either both compile or both fail.  The
/// verdicts are those of the two calls that produced them.
pub fn compiles_alike(a: &str, b: &str) -> (r: (bool, bool))
    requires
        plain_pattern(a@) && brace_free(a@),
        plain_pattern(b@) && brace_free(b@),
        strip_spaces(a@) == strip_spaces(b@),
    ensures
        r.0 == r.1,
        r.0 == pattern_valid(a@),
        r.1 == pattern_valid(b@),
{
    (Matcher::compile(a).is_ok(), Matcher::compile(b).is_ok())
}

} // verus!
