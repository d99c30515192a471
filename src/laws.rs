use vstd::prelude::*;

use crate::bound::{Bound, Scalar};
use vstd::std_specs::ops::AddSpec;

use crate::rule::{is_pure, Check, Mapped, Named, Nested, Rule};
use crate::rules::{is_first_outside, refusal, Bounded, Whitelist};

verus! {

/// A range bound `a..b` accepts a value exactly when it is at least `a` and
/// below `b`.
pub proof fn range_bound_admits_its_interval<T: Scalar>(r: Rule<Bounded<T>>, a: T, b: T, v: T)
    requires
        r.check.bound == Bound::Range(a, b),
    ensures
        r.check.verdict(&v) is None <==> a.as_int() <= v.as_int() < b.as_int(),
{
}

/// A range bound `a..b` rejects `b` and, when `a < b`, accepts `a`.
pub proof fn range_bound_is_half_open<T: Scalar>(r: Rule<Bounded<T>>, a: T, b: T)
    requires
        r.check.bound == Bound::Range(a, b),
    ensures
        r.check.verdict(&b) is Some,
        a.as_int() < b.as_int() ==> r.check.verdict(&a) is None,
{
}

/// An exact bound on `k` accepts `k` and rejects every other value.
pub proof fn exact_bound_admits_only_its_value<T: Scalar>(r: Rule<Bounded<T>>, k: T, v: T)
    requires
        r.check.bound == Bound::Exact(k),
    ensures
        r.check.verdict(&k) is None,
        v.as_int() != k.as_int() ==> r.check.verdict(&v) is Some,
{
}

/// Where `r1` rejects a value, `r1 + r2` rejects it with `r1`'s own
/// message, whatever `r2` is.
pub proof fn sequence_stops_at_first_failure<T: ?Sized, A: Check<T>, B: Check<T>>(
    r1: Rule<A>,
    r2: Rule<B>,
    x: &T,
)
    requires
        r1.check.verdict(x) is Some,
    ensures
        r1.add_spec(r2).check.verdict(x) == r1.check.verdict(x),
{
}

/// Where a rule rejects a value with message `m`, the same rule named `label`
/// rejects it with `label`, a space, and `m`.
pub proof fn naming_prefixes_the_message<T: ?Sized, C: Check<T>>(
    r: Rule<C>,
    named: Rule<Named<C>>,
    x: &T,
    m: Seq<char>,
)
    requires
        named.check.inner == r.check,
        r.check.verdict(x) == Some(m),
    ensures
        named.check.verdict(x) == Some(named.check.label@ + " "@ + m),
{
}

/// Where a rule rejects a field `x` with message `m`, the rule nested under
/// `label` rejects any value whose field is `x` with `label`, a space, and `m`.
pub proof fn nesting_prefixes_the_message<T: ?Sized, U: ?Sized, F: Fn(&T) -> &U, C: Check<U>>(
    r: Rule<C>,
    nested: Rule<Nested<U, F, C>>,
    outer: &T,
    x: &U,
    m: Seq<char>,
)
    requires
        nested.check.inner == r.check,
        is_pure(nested.check.get),
        nested.check.get.ensures((outer,), x),
        r.check.verdict(x) == Some(m),
    ensures
        nested.check.verdict(outer) == Some(nested.check.label@ + " "@ + m),
{
}

/// Where a rule rejects a computed value `x` with message `m`, the rule
/// mapped under `label` rejects any input that computes to `x` with `label`,
/// a space, and `m`.
pub proof fn mapping_prefixes_the_message<T: ?Sized, U, F: Fn(&T) -> U, C: Check<U>>(
    r: Rule<C>,
    mapped: Rule<Mapped<F, C>>,
    input: &T,
    x: U,
    m: Seq<char>,
)
    requires
        mapped.check.inner == r.check,
        is_pure(mapped.check.get),
        mapped.check.get.ensures((input,), x),
        r.check.verdict(&x) == Some(m),
    ensures
        mapped.check.verdict(input) == Some(mapped.check.label@ + " "@ + m),
{
}

/// A whitelist accepts a text exactly when each of its characters is allowed.
pub proof fn whitelist_accepts_allowed_text(w: Rule<Whitelist>, x: &str)
    ensures
        w.check.verdict(x) is None <==> forall|i: int|
            0 <= i < x@.len() ==> w.check.allowed@.contains(#[trigger] x@[i]),
{
}

/// A whitelist that rejects a text names its first character that is not
/// allowed.
pub proof fn whitelist_names_first_refused_char(w: Rule<Whitelist>, x: &str, k: int)
    requires
        is_first_outside(x@, w.check.allowed@, k),
    ensures
        w.check.verdict(x) == Some(refusal(x@[k])),
{
    let j = choose|j: int| is_first_outside(x@, w.check.allowed@, j);
    assert(!(forall|i: int| 0 <= i < x@.len() ==> w.check.allowed@.contains(#[trigger] x@[i])));
    if j < k {
        assert(w.check.allowed@.contains(x@[j]));
    }
    if k < j {
        assert(w.check.allowed@.contains(x@[k]));
    }
}

} // verus!
