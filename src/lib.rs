//! Composable validation rules: small checks that are built, named, nested
//! into structured data and sequenced into one pass/fail verdict whose error
//! message says which part of the value failed.

mod bound;
mod error;
mod laws;
mod rule;
mod rules;

pub use bound::{decimal, digit_char, digits, Bound, Interval, Scalar};
pub use error::{outcome, Error, ValidationResult};
pub use laws::{
    exact_bound_admits_only_its_value, mapping_prefixes_the_message, naming_prefixes_the_message,
    nesting_prefixes_the_message, range_bound_admits_its_interval, range_bound_is_half_open,
    sequence_stops_at_first_failure, whitelist_accepts_allowed_text,
    whitelist_names_first_refused_char,
};
pub use rule::{is_pure, prefix, result_of, Both, Check, Custom, Mapped, Named, Nested, Rule};
pub use rules::{
    bound, email, is_first_outside, match_regex, pattern_accepts, pattern_compiles, refusal,
    whitelist_chars, Bounded, Pattern, PatternError, Whitelist, EMAIL_PATTERN,
};

use vstd::prelude::*;

verus! {

/// A value that knows how to check itself.
pub trait Validate: 'static {
    /// `None` when the value is valid, else the message of the rejection.
    spec fn verdict(&self) -> Option<Seq<char>>;

    fn validate(&self) -> (r: ValidationResult)
        ensures
            outcome(r) == self.verdict(),
    ;
}

impl Validate for () {
    open spec fn verdict(&self) -> Option<Seq<char>> {
        None
    }

    fn validate(&self) -> (r: ValidationResult) {
        Ok(())
    }
}

impl<T: Validate> Validate for Option<T> {
    open spec fn verdict(&self) -> Option<Seq<char>> {
        match self {
            Some(data) => data.verdict(),
            None => None,
        }
    }

    fn validate(&self) -> (r: ValidationResult) {
        match self {
            Some(data) => data.validate(),
            None => Ok(()),
        }
    }
}

impl<T: Validate> Validate for Box<T> {
    open spec fn verdict(&self) -> Option<Seq<char>> {
        (**self).verdict()
    }

    fn validate(&self) -> (r: ValidationResult) {
        (**self).validate()
    }
}

} // verus!
