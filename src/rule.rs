use vstd::prelude::*;

use crate::error::{outcome, Error, ValidationResult};

verus! {

/// A check on values of type `T`: what it decides is `verdict`, which
/// `check` computes.
pub trait Check<T: ?Sized> {
    /// The conditions under which the check can run.
    spec fn wf(&self) -> bool;

    /// `None` when `input` is accepted, else the message of the rejection.
    spec fn verdict(&self, input: &T) -> Option<Seq<char>>;

    fn check(&self, input: &T) -> (r: ValidationResult)
        requires
            self.wf(),
        ensures
            outcome(r) == self.verdict(input),
    ;
}

/// A verdict with `label` and a space put in front of its message, if any.
pub open spec fn prefix(label: Seq<char>, verdict: Option<Seq<char>>) -> Option<Seq<char>> {
    match verdict {
        None => None,
        Some(m) => Some(label + " "@ + m),
    }
}

/// A validation rule: a check, held as a value that can be combined further.
/// What the rule decides on an input is `check.verdict`.
pub struct Rule<C> {
    pub check: C,
}

/// A check whose messages are prefixed with a label.
pub struct Named<C> {
    pub label: String,
    pub inner: C,
}

impl<T: ?Sized, C: Check<T>> Check<T> for Named<C> {
    open spec fn wf(&self) -> bool {
        self.inner.wf()
    }

    open spec fn verdict(&self, input: &T) -> Option<Seq<char>> {
        prefix(self.label@, self.inner.verdict(input))
    }

    fn check(&self, input: &T) -> (r: ValidationResult) {
        match self.inner.check(input) {
            Ok(()) => Ok(()),
            Err(e) => Err(e.prefixed(self.label.as_str())),
        }
    }
}

/// Two checks in sequence: the second runs only when the first accepts.
pub struct Both<A, B> {
    pub first: A,
    pub second: B,
}

impl<T: ?Sized, A: Check<T>, B: Check<T>> Check<T> for Both<A, B> {
    open spec fn wf(&self) -> bool {
        self.first.wf() && self.second.wf()
    }

    open spec fn verdict(&self, input: &T) -> Option<Seq<char>> {
        match self.first.verdict(input) {
            None => self.second.verdict(input),
            Some(m) => Some(m),
        }
    }

    fn check(&self, input: &T) -> (r: ValidationResult) {
        match self.first.check(input) {
            Ok(()) => self.second.check(input),
            Err(e) => Err(e),
        }
    }
}

/// Whether `f` can be called on every input and gives one result for each.
pub open spec fn is_pure<T: ?Sized, U, F: Fn(&T) -> U>(f: F) -> bool {
    &&& forall|x: &T| #[trigger] f.requires((x,))
    &&& forall|x: &T, a: U, b: U|
        #[trigger] f.ensures((x,), a) && #[trigger] f.ensures((x,), b) ==> a == b
}

/// What the pure function `f` returns on `x`.
pub open spec fn result_of<T: ?Sized, U, F: Fn(&T) -> U>(f: F, x: &T) -> U {
    choose|y: U| f.ensures((x,), y)
}

/// A check on a field that `get` borrows from the value; its messages are
/// prefixed with the field's label.
pub struct Nested<U: ?Sized, F, C> {
    pub label: String,
    pub get: F,
    pub inner: C,
    pub field: core::marker::PhantomData<U>,
}

impl<T: ?Sized, U: ?Sized, F: Fn(&T) -> &U, C: Check<U>> Check<T> for Nested<U, F, C> {
    open spec fn wf(&self) -> bool {
        is_pure(self.get) && self.inner.wf()
    }

    open spec fn verdict(&self, input: &T) -> Option<Seq<char>> {
        prefix(self.label@, self.inner.verdict(result_of(self.get, input)))
    }

    fn check(&self, input: &T) -> (r: ValidationResult) {
        let field = (self.get)(input);
        match self.inner.check(field) {
            Ok(()) => Ok(()),
            Err(e) => Err(e.prefixed(self.label.as_str())),
        }
    }
}

/// A check on a value that `get` computes from the input; its messages are
/// prefixed with the computed value's label.
pub struct Mapped<F, C> {
    pub label: String,
    pub get: F,
    pub inner: C,
}

impl<T: ?Sized, U, F: Fn(&T) -> U, C: Check<U>> Check<T> for Mapped<F, C> {
    open spec fn wf(&self) -> bool {
        is_pure(self.get) && self.inner.wf()
    }

    open spec fn verdict(&self, input: &T) -> Option<Seq<char>> {
        prefix(self.label@, self.inner.verdict(&result_of(self.get, input)))
    }

    fn check(&self, input: &T) -> (r: ValidationResult) {
        let value = (self.get)(input);
        match self.inner.check(&value) {
            Ok(()) => Ok(()),
            Err(e) => Err(e.prefixed(self.label.as_str())),
        }
    }
}

/// A check that a caller's predicate makes.
pub struct Custom<F> {
    pub predicate: F,
}

impl<T: ?Sized, F: Fn(&T) -> ValidationResult> Check<T> for Custom<F> {
    open spec fn wf(&self) -> bool {
        is_pure(self.predicate)
    }

    open spec fn verdict(&self, input: &T) -> Option<Seq<char>> {
        outcome(result_of(self.predicate, input))
    }

    fn check(&self, input: &T) -> (r: ValidationResult) {
        (self.predicate)(input)
    }
}

impl<C> Rule<C> {
    /// Runs the rule on `input`.
    pub fn validate<T: ?Sized>(&self, input: &T) -> (r: ValidationResult) where C: Check<T>
        requires
            self.check.wf(),
        ensures
            outcome(r) == self.check.verdict(input),
    {
        self.check.check(input)
    }

    /// This rule, with `label` and a space put in front of each of its messages.
    pub fn name(self, label: &str) -> (r: Rule<Named<C>>)
        ensures
            r.check.label@ == label@,
            r.check.inner == self.check,
    {
        Rule { check: Named { label: label.to_owned(), inner: self.check } }
    }

    /// A rule over `T` that runs `rule` on the field `get` borrows, with
    /// `label` and a space put in front of its messages.
    pub fn nest<T: ?Sized, U: ?Sized, F: Fn(&T) -> &U>(
        label: &str,
        get: F,
        rule: Rule<C>,
    ) -> (r: Rule<Nested<U, F, C>>)
        where C: Check<U>
        ensures
            r.check.label@ == label@,
            r.check.get == get,
            r.check.inner == rule.check,
            r.check.wf() <==> is_pure(get) && rule.check.wf(),
            forall|x: &T| #[trigger]
                r.check.verdict(x) == prefix(label@, rule.check.verdict(result_of(get, x))),
    {
        let label = label.to_owned();
        Rule { check: Nested { label, get, inner: rule.check, field: core::marker::PhantomData } }
    }

    /// A rule over `T` that runs `rule` on the value `get` computes, with
    /// `label` and a space put in front of its messages.
    pub fn map<T: ?Sized, U, F: Fn(&T) -> U>(
        label: &str,
        get: F,
        rule: Rule<C>,
    ) -> (r: Rule<Mapped<F, C>>)
        where C: Check<U>
        ensures
            r.check.label@ == label@,
            r.check.get == get,
            r.check.inner == rule.check,
            r.check.wf() <==> is_pure(get) && rule.check.wf(),
            forall|x: &T| #[trigger]
                r.check.verdict(x) == prefix(label@, rule.check.verdict(&result_of(get, x))),
    {
        Rule { check: Mapped { label: label.to_owned(), get, inner: rule.check } }
    }
}

impl<F> Rule<Custom<F>> {
    /// A rule that runs `predicate`.
    pub fn from<T: ?Sized>(predicate: F) -> (r: Rule<Custom<F>>)
        where F: Fn(&T) -> ValidationResult
        ensures
            r.check.predicate == predicate,
            r.check.wf() <==> is_pure(predicate),
            forall|x: &T| #[trigger] r.check.verdict(x) == outcome(result_of(predicate, x)),
    {
        Rule { check: Custom { predicate } }
    }
}

impl<A, B> core::ops::Add<Rule<B>> for Rule<A> {
    type Output = Rule<Both<A, B>>;

    /// This rule, then `other` where this one accepts.
    fn add(self, other: Rule<B>) -> (r: Rule<Both<A, B>>) {
        Rule { check: Both { first: self.check, second: other.check } }
    }
}

impl<A, B> vstd::std_specs::ops::AddSpecImpl<Rule<B>> for Rule<A> {
    open spec fn obeys_add_spec() -> bool {
        true
    }

    open spec fn add_req(self, other: Rule<B>) -> bool {
        true
    }

    open spec fn add_spec(self, other: Rule<B>) -> Rule<Both<A, B>> {
        Rule { check: Both { first: self.check, second: other.check } }
    }
}

} // verus!
