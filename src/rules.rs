use vstd::prelude::*;

use crate::bound::{Bound, Interval, Scalar};
use crate::error::{outcome, Error, ValidationResult};
use crate::rule::{Check, Rule};

verus! {

/// A check that the value lies in a bound.
pub struct Bounded<T> {
    pub bound: Bound<T>,
}

impl<T: Scalar> Check<T> for Bounded<T> {
    open spec fn wf(&self) -> bool {
        true
    }

    open spec fn verdict(&self, input: &T) -> Option<Seq<char>> {
        if self.bound.admits(input.as_int()) {
            None
        } else {
            Some(self.bound.message())
        }
    }

    fn check(&self, input: &T) -> (r: ValidationResult) {
        if self.bound.contains(input) {
            Ok(())
        } else {
            Err(Error::new(self.bound.describe()))
        }
    }
}

/// A rule that accepts the values that `interval` admits: a single value, a
/// half-open range `a..b`, `a..`, `..b`, `..`, or a `Bound`.
pub fn bound<T: Scalar, R: Interval<T>>(interval: R) -> (r: Rule<Bounded<T>>)
    ensures
        r.check.bound == interval.bound_spec(),
{
    Rule { check: Bounded { bound: interval.to_bound() } }
}

/// The position of the first character of `text` that `allowed` lacks.
pub open spec fn is_first_outside(text: Seq<char>, allowed: Seq<char>, k: int) -> bool {
    &&& 0 <= k < text.len()
    &&& !allowed.contains(text[k])
    &&& forall|j: int| 0 <= j < k ==> allowed.contains(#[trigger] text[j])
}

/// The message that rejects the character `c`.
pub open spec fn refusal(c: char) -> Seq<char> {
    "cannot contain the character '"@ + seq![c] + "'"@
}

/// A check that every character of the text is one of a set.
pub struct Whitelist {
    pub allowed: String,
}

impl Check<str> for Whitelist {
    open spec fn wf(&self) -> bool {
        true
    }

    open spec fn verdict(&self, input: &str) -> Option<Seq<char>> {
        if forall|i: int| 0 <= i < input@.len() ==> self.allowed@.contains(#[trigger] input@[i]) {
            None
        } else {
            let k = choose|k: int| is_first_outside(input@, self.allowed@, k);
            Some(refusal(input@[k]))
        }
    }

    fn check(&self, input: &str) -> (r: ValidationResult) {
        let n = input.unicode_len();
        let mut i: usize = 0;
        while i < n
            invariant
                n == input@.len(),
                0 <= i <= n,
                forall|j: int| 0 <= j < i ==> self.allowed@.contains(#[trigger] input@[j]),
            decreases n - i,
        {
            let c = input.get_char(i);
            if !contains_char(self.allowed.as_str(), c) {
                proof {
                    assert(is_first_outside(input@, self.allowed@, i as int));
                    let k = choose|k: int| is_first_outside(input@, self.allowed@, k);
                    if k < i {
                        assert(self.allowed@.contains(input@[k]));
                    }
                    if k > i {
                        assert(self.allowed@.contains(input@[i as int]));
                    }
                }
                let message = String::from_str("cannot contain the character '");
                let message = message.concat(char_text(c).as_str()).concat("'");
                return Err(Error::new(message));
            }
            i = i + 1;
        }
        Ok(())
    }
}

/// Relies on `char`'s `to_string`: the string of that one character.
#[verifier::external_body]
fn char_text(c: char) -> (r: String)
    ensures
        r@ == seq![c],
{
    c.to_string()
}

/// Whether `c` occurs in `s`.
fn contains_char(s: &str, c: char) -> (r: bool)
    ensures
        r == s@.contains(c),
{
    let n = s.unicode_len();
    let mut i: usize = 0;
    while i < n
        invariant
            n == s@.len(),
            0 <= i <= n,
            forall|j: int| 0 <= j < i ==> s@[j] != c,
        decreases n - i,
    {
        if s.get_char(i) == c {
            assert(s@[i as int] == c);
            return true;
        }
        i = i + 1;
    }
    false
}

/// A rule that accepts a text whose characters all occur in `whitelist`,
/// and otherwise names the first that does not.
pub fn whitelist_chars(whitelist: &str) -> (r: Rule<Whitelist>)
    ensures
        r.check.allowed@ == whitelist@,
{
    Rule { check: Whitelist { allowed: whitelist.to_owned() } }
}

#[verifier::external_type_specification]
#[verifier::external_body]
pub struct ExRegex(::regex::Regex);

/// Whether `regex::Regex::new` compiles `pattern`.
pub uninterp spec fn pattern_compiles(pattern: Seq<char>) -> bool;

/// Whether the regular expression `pattern` matches somewhere in `text`.
pub uninterp spec fn pattern_accepts(pattern: Seq<char>, text: Seq<char>) -> bool;

/// Relies on `regex::Regex::new`: it returns `Ok` exactly when the pattern
/// parses and fits the default size limit, which depends on the pattern
/// alone.
#[verifier::external_body]
fn compile(pattern: &str) -> (r: Option<::regex::Regex>)
    ensures
        r is Some <==> pattern_compiles(pattern@),
{
    ::regex::Regex::new(pattern).ok()
}

/// Relies on `regex::Regex::is_match`: true exactly when the compiled
/// expression matches somewhere in `text`. A `Pattern` is built only by
/// `match_regex`, which compiles its expression from the pattern it keeps,
/// so the match is that of `p.source()`.
#[verifier::external_body]
fn search(p: &Pattern, text: &str) -> (r: bool)
    ensures
        r == pattern_accepts(p.source(), text@),
{
    p.regex.is_match(text)
}

/// A check that a regular expression matches the text. The expression is
/// compiled once, when the rule is built, from the pattern kept beside it.
pub struct Pattern {
    regex: ::regex::Regex,
    source: String,
    description: String,
}

impl Pattern {
    /// The pattern the expression was compiled from.
    pub closed spec fn source(&self) -> Seq<char> {
        self.source@
    }

    /// What a matching text is, as the rejection message puts it.
    pub closed spec fn description(&self) -> Seq<char> {
        self.description@
    }
}

impl Check<str> for Pattern {
    open spec fn wf(&self) -> bool {
        true
    }

    open spec fn verdict(&self, input: &str) -> Option<Seq<char>> {
        if pattern_accepts(self.source(), input@) {
            None
        } else {
            Some("must be "@ + self.description())
        }
    }

    fn check(&self, input: &str) -> (r: ValidationResult) {
        if search(self, input) {
            Ok(())
        } else {
            Err(Error::new(String::from_str("must be ").concat(self.description.as_str())))
        }
    }
}

/// A pattern that does not compile: the rule that should hold it cannot be
/// built. This is a fault of the caller, not a rejected value.
#[derive(Debug, PartialEq, Eq, Clone)]
pub struct PatternError {
    pattern: String,
}

impl View for PatternError {
    type V = Seq<char>;

    closed spec fn view(&self) -> Seq<char> {
        self.pattern@
    }
}

impl PatternError {
    /// The pattern that did not compile.
    pub fn get_pattern(&self) -> (r: String)
        ensures
            r@ == self@,
    {
        self.pattern.clone()
    }
}

/// A rule that accepts a text that `pattern` matches somewhere, and rejects
/// any other with "must be " and `description`. A pattern that does not
/// compile gives `Err` here, before any value is checked.
pub fn match_regex(pattern: &str, description: &str) -> (r: Result<Rule<Pattern>, PatternError>)
    ensures
        r is Ok <==> pattern_compiles(pattern@),
        r matches Ok(rule) ==> rule.check.source() == pattern@ && rule.check.description()
            == description@,
        r matches Err(e) ==> e@ == pattern@,
{
    match compile(pattern) {
        Some(re) => Ok(
            Rule {
                check: Pattern {
                    regex: re,
                    source: pattern.to_owned(),
                    description: description.to_owned(),
                },
            },
        ),
        None => Err(PatternError { pattern: pattern.to_owned() }),
    }
}

/// The pattern of an email address: a local part, `@`, and a domain with a dot.
pub const EMAIL_PATTERN: &'static str = r"^[^@]+@[^@]+\.[^@]+$";

/// A rule that accepts a text shaped like `local@domain.tld`, with no second
/// `@`; it does not claim to follow the full address grammar.
pub fn email() -> (r: Result<Rule<Pattern>, PatternError>)
    ensures
        r is Ok <==> pattern_compiles(EMAIL_PATTERN@),
        r matches Ok(rule) ==> rule.check.source() == EMAIL_PATTERN@ && rule.check.description()
            == "a valid email"@,
{
    match_regex(EMAIL_PATTERN, "a valid email")
}

} // verus!
