use vstd::prelude::*;

use core::ops::{Range, RangeFrom, RangeFull, RangeTo};

verus! {

/// An interval of admitted values.
#[derive(Debug, Clone, Copy, PartialEq, Eq)]
pub enum Bound<T> {
    /// Only this value.
    Exact(T),
    /// From the first value, included, to the second, excluded.
    Range(T, T),
    /// This value and every greater one.
    RangeFrom(T),
    /// Every value below this one.
    RangeTo(T),
    /// Every value.
    Unbounded,
}

/// An integer that a bound can hold and compare.
pub trait Scalar: Copy {
    spec fn as_int(&self) -> int;

    /// The same integer, widened.
    fn wide(&self) -> (r: i128)
        ensures
            r as int == self.as_int(),
    ;
}

/// A value that stands for an interval: a range, a single value, or a bound.
pub trait Interval<T> {
    spec fn bound_spec(&self) -> Bound<T>;

    fn to_bound(self) -> (r: Bound<T>)
        ensures
            r == self.bound_spec(),
    ;
}

/// The character of a decimal digit.
pub open spec fn digit_char(d: nat) -> char {
    if d < 10 {
        ((d + 48) as u8) as char
    } else {
        '?'
    }
}

/// The decimal digits of `n`, with no leading zero.
pub open spec fn digits(n: nat) -> Seq<char>
    decreases n,
{
    if n < 10 {
        seq![digit_char(n)]
    } else {
        digits(n / 10).push(digit_char(n % 10))
    }
}

/// How `v` is written in decimal, with a minus sign when negative.
pub open spec fn decimal(v: int) -> Seq<char> {
    if v < 0 {
        seq!['-'] + digits((-v) as nat)
    } else {
        digits(v as nat)
    }
}

/// Relies on std's `Display` for integers, through `to_string`: the decimal
/// digits, after a `-` when the value is negative.
#[verifier::external_body]
fn decimal_text(v: i128) -> (r: String)
    ensures
        r@ == decimal(v as int),
{
    v.to_string()
}

impl<T: Scalar> Bound<T> {
    /// Whether the bound admits the integer `v`.
    pub open spec fn admits(&self, v: int) -> bool {
        match *self {
            Bound::Exact(k) => v == k.as_int(),
            Bound::Range(a, b) => a.as_int() <= v && v < b.as_int(),
            Bound::RangeFrom(a) => a.as_int() <= v,
            Bound::RangeTo(b) => v < b.as_int(),
            Bound::Unbounded => true,
        }
    }

    /// The message of a value that the bound does not admit.
    pub open spec fn message(&self) -> Seq<char> {
        match *self {
            Bound::Exact(k) => "must equal "@ + decimal(k.as_int()),
            Bound::Range(a, b) => "must be >= "@ + decimal(a.as_int()) + " and < "@ + decimal(b.as_int()),
            Bound::RangeFrom(a) => "must be >= "@ + decimal(a.as_int()),
            Bound::RangeTo(b) => "must be < "@ + decimal(b.as_int()),
            Bound::Unbounded => Seq::empty(),
        }
    }

    /// Whether the bound admits `value`.
    pub fn contains(&self, value: &T) -> (r: bool)
        ensures
            r == self.admits(value.as_int()),
    {
        let v = value.wide();
        match self {
            Bound::Exact(k) => v == k.wide(),
            Bound::Range(a, b) => a.wide() <= v && v < b.wide(),
            Bound::RangeFrom(a) => a.wide() <= v,
            Bound::RangeTo(b) => v < b.wide(),
            Bound::Unbounded => true,
        }
    }

    /// The message of a value that the bound does not admit.
    pub fn describe(&self) -> (r: String)
        ensures
            r@ == self.message(),
    {
        match self {
            Bound::Exact(k) => String::from_str("must equal ").concat(decimal_text(k.wide()).as_str()),
            Bound::Range(a, b) => {
                let head = String::from_str("must be >= ").concat(decimal_text(a.wide()).as_str());
                head.concat(" and < ").concat(decimal_text(b.wide()).as_str())
            },
            Bound::RangeFrom(a) => String::from_str("must be >= ").concat(decimal_text(a.wide()).as_str()),
            Bound::RangeTo(b) => String::from_str("must be < ").concat(decimal_text(b.wide()).as_str()),
            Bound::Unbounded => String::new(),
        }
    }
}

#[verifier::external_type_specification]
#[verifier::reject_recursive_types(Idx)]
pub struct ExRangeFrom<Idx>(RangeFrom<Idx>);

#[verifier::external_type_specification]
#[verifier::reject_recursive_types(Idx)]
pub struct ExRangeTo<Idx>(RangeTo<Idx>);

#[verifier::external_type_specification]
pub struct ExRangeFull(RangeFull);

impl<T> Interval<T> for Bound<T> {
    open spec fn bound_spec(&self) -> Bound<T> {
        *self
    }

    fn to_bound(self) -> (r: Bound<T>) {
        self
    }
}

impl<T> Interval<T> for Range<T> {
    open spec fn bound_spec(&self) -> Bound<T> {
        Bound::Range(self.start, self.end)
    }

    fn to_bound(self) -> (r: Bound<T>) {
        Bound::Range(self.start, self.end)
    }
}

impl<T> Interval<T> for RangeFrom<T> {
    open spec fn bound_spec(&self) -> Bound<T> {
        Bound::RangeFrom(self.start)
    }

    fn to_bound(self) -> (r: Bound<T>) {
        Bound::RangeFrom(self.start)
    }
}

impl<T> Interval<T> for RangeTo<T> {
    open spec fn bound_spec(&self) -> Bound<T> {
        Bound::RangeTo(self.end)
    }

    fn to_bound(self) -> (r: Bound<T>) {
        Bound::RangeTo(self.end)
    }
}

impl<T> Interval<T> for RangeFull {
    open spec fn bound_spec(&self) -> Bound<T> {
        Bound::Unbounded
    }

    fn to_bound(self) -> (r: Bound<T>) {
        Bound::Unbounded
    }
}

impl Scalar for u8 {
    open spec fn as_int(&self) -> int {
        *self as int
    }

    fn wide(&self) -> (r: i128) {
        *self as i128
    }
}

impl Interval<u8> for u8 {
    open spec fn bound_spec(&self) -> Bound<u8> {
        Bound::Exact(*self)
    }

    fn to_bound(self) -> (r: Bound<u8>) {
        Bound::Exact(self)
    }
}

impl Scalar for u16 {
    open spec fn as_int(&self) -> int {
        *self as int
    }

    fn wide(&self) -> (r: i128) {
        *self as i128
    }
}

impl Interval<u16> for u16 {
    open spec fn bound_spec(&self) -> Bound<u16> {
        Bound::Exact(*self)
    }

    fn to_bound(self) -> (r: Bound<u16>) {
        Bound::Exact(self)
    }
}

impl Scalar for u32 {
    open spec fn as_int(&self) -> int {
        *self as int
    }

    fn wide(&self) -> (r: i128) {
        *self as i128
    }
}

impl Interval<u32> for u32 {
    open spec fn bound_spec(&self) -> Bound<u32> {
        Bound::Exact(*self)
    }

    fn to_bound(self) -> (r: Bound<u32>) {
        Bound::Exact(self)
    }
}

impl Scalar for u64 {
    open spec fn as_int(&self) -> int {
        *self as int
    }

    fn wide(&self) -> (r: i128) {
        *self as i128
    }
}

impl Interval<u64> for u64 {
    open spec fn bound_spec(&self) -> Bound<u64> {
        Bound::Exact(*self)
    }

    fn to_bound(self) -> (r: Bound<u64>) {
        Bound::Exact(self)
    }
}

impl Scalar for usize {
    open spec fn as_int(&self) -> int {
        *self as int
    }

    fn wide(&self) -> (r: i128) {
        *self as i128
    }
}

impl Interval<usize> for usize {
    open spec fn bound_spec(&self) -> Bound<usize> {
        Bound::Exact(*self)
    }

    fn to_bound(self) -> (r: Bound<usize>) {
        Bound::Exact(self)
    }
}

impl Scalar for i8 {
    open spec fn as_int(&self) -> int {
        *self as int
    }

    fn wide(&self) -> (r: i128) {
        *self as i128
    }
}

impl Interval<i8> for i8 {
    open spec fn bound_spec(&self) -> Bound<i8> {
        Bound::Exact(*self)
    }

    fn to_bound(self) -> (r: Bound<i8>) {
        Bound::Exact(self)
    }
}

impl Scalar for i16 {
    open spec fn as_int(&self) -> int {
        *self as int
    }

    fn wide(&self) -> (r: i128) {
        *self as i128
    }
}

impl Interval<i16> for i16 {
    open spec fn bound_spec(&self) -> Bound<i16> {
        Bound::Exact(*self)
    }

    fn to_bound(self) -> (r: Bound<i16>) {
        Bound::Exact(self)
    }
}

impl Scalar for i32 {
    open spec fn as_int(&self) -> int {
        *self as int
    }

    fn wide(&self) -> (r: i128) {
        *self as i128
    }
}

impl Interval<i32> for i32 {
    open spec fn bound_spec(&self) -> Bound<i32> {
        Bound::Exact(*self)
    }

    fn to_bound(self) -> (r: Bound<i32>) {
        Bound::Exact(self)
    }
}

impl Scalar for i64 {
    open spec fn as_int(&self) -> int {
        *self as int
    }

    fn wide(&self) -> (r: i128) {
        *self as i128
    }
}

impl Interval<i64> for i64 {
    open spec fn bound_spec(&self) -> Bound<i64> {
        Bound::Exact(*self)
    }

    fn to_bound(self) -> (r: Bound<i64>) {
        Bound::Exact(self)
    }
}

impl Scalar for isize {
    open spec fn as_int(&self) -> int {
        *self as int
    }

    fn wide(&self) -> (r: i128) {
        *self as i128
    }
}

impl Interval<isize> for isize {
    open spec fn bound_spec(&self) -> Bound<isize> {
        Bound::Exact(*self)
    }

    fn to_bound(self) -> (r: Bound<isize>) {
        Bound::Exact(self)
    }
}

} // verus!
