use vstd::arithmetic::div_mod::{lemma_fundamental_div_mod, lemma_mod_multiples_basic};
use vstd::prelude::*;

verus! {

/// A value and its negation have the same divisors.
pub proof fn lemma_negation_keeps_divisibility(x: int, d: int)
    requires
        d > 0,
    ensures
        ((-x) % d == 0) == (x % d == 0),
{
    lemma_fundamental_div_mod(x, d);
    lemma_fundamental_div_mod(-x, d);
    if x % d == 0 {
        assert(-x == (-(x / d)) * d) by (nonlinear_arith)
            requires
                x == d * (x / d),
        ;
        lemma_mod_multiples_basic(-(x / d), d);
    }
    if (-x) % d == 0 {
        assert(x == (-((-x) / d)) * d) by (nonlinear_arith)
            requires
                -x == d * ((-x) / d),
        ;
        lemma_mod_multiples_basic(-((-x) / d), d);
    }
}

/// An integer type seen as the mathematical integer each value stands for.
pub trait Numeric: Copy + Sized {
    /// The integer this value stands for.
    spec fn value(&self) -> int;

    /// The largest integer the type can hold.
    spec fn greatest() -> int;

    /// No value lies above the largest one.
    proof fn lemma_at_most_greatest(x: Self)
        ensures
            x.value() <= Self::greatest(),
    ;

    /// Remainder of the division by a positive divisor, as `%` computes it:
    /// zero exactly when the divisor divides the value.
    fn rem(self, divisor: Self) -> (r: Self)
        requires
            divisor.value() > 0,
        ensures
            (r.value() == 0) == (self.value() % divisor.value() == 0),
            self.value() >= 0 ==> r.value() == self.value() % divisor.value(),
    ;

    /// The same integer in the widest signed type.
    fn widen(self) -> (r: i128)
        ensures
            r as int == self.value(),
    ;

    /// Whether the two values are equal.
    fn equals(self, other: Self) -> (r: bool)
        ensures
            r == (self.value() == other.value()),
    ;

    /// Whether this value is greater than or equal to the other.
    fn at_least(self, other: Self) -> (r: bool)
        ensures
            r == (self.value() >= other.value()),
    ;
}

/// Adding one.
pub trait Inc: Numeric {
    type Output: Numeric;

    fn inc(self) -> (r: Self::Output)
        requires
            self.value() < Self::greatest(),
        ensures
            r.value() == self.value() + 1,
    ;
}

/// The constant zero.
pub trait Zero: Numeric {
    fn zero() -> (r: Self)
        ensures
            r.value() == 0,
    ;
}

/// The constant three.
pub trait Three: Numeric {
    fn three() -> (r: Self)
        ensures
            r.value() == 3,
    ;
}

/// The constant five.
pub trait Five: Numeric {
    fn five() -> (r: Self)
        ensures
            r.value() == 5,
    ;
}

impl Numeric for usize {
    open spec fn value(&self) -> int {
        *self as int
    }

    open spec fn greatest() -> int {
        usize::MAX as int
    }

    proof fn lemma_at_most_greatest(x: usize) {
    }

    fn rem(self, divisor: usize) -> (r: usize) {
        self % divisor
    }

    fn widen(self) -> (r: i128) {
        self as i128
    }

    fn equals(self, other: usize) -> (r: bool) {
        self == other
    }

    fn at_least(self, other: usize) -> (r: bool) {
        self >= other
    }
}

impl Inc for usize {
    type Output = usize;

    fn inc(self) -> (r: usize) {
        self + 1
    }
}

impl Zero for usize {
    fn zero() -> (r: usize) {
        0
    }
}

impl Three for usize {
    fn three() -> (r: usize) {
        3
    }
}

impl Five for usize {
    fn five() -> (r: usize) {
        5
    }
}

impl Numeric for u8 {
    open spec fn value(&self) -> int {
        *self as int
    }

    open spec fn greatest() -> int {
        u8::MAX as int
    }

    proof fn lemma_at_most_greatest(x: u8) {
    }

    fn rem(self, divisor: u8) -> (r: u8) {
        self % divisor
    }

    fn widen(self) -> (r: i128) {
        self as i128
    }

    fn equals(self, other: u8) -> (r: bool) {
        self == other
    }

    fn at_least(self, other: u8) -> (r: bool) {
        self >= other
    }
}

impl Inc for u8 {
    type Output = u8;

    fn inc(self) -> (r: u8) {
        self + 1
    }
}

impl Zero for u8 {
    fn zero() -> (r: u8) {
        0
    }
}

impl Three for u8 {
    fn three() -> (r: u8) {
        3
    }
}

impl Five for u8 {
    fn five() -> (r: u8) {
        5
    }
}

impl Numeric for u16 {
    open spec fn value(&self) -> int {
        *self as int
    }

    open spec fn greatest() -> int {
        u16::MAX as int
    }

    proof fn lemma_at_most_greatest(x: u16) {
    }

    fn rem(self, divisor: u16) -> (r: u16) {
        self % divisor
    }

    fn widen(self) -> (r: i128) {
        self as i128
    }

    fn equals(self, other: u16) -> (r: bool) {
        self == other
    }

    fn at_least(self, other: u16) -> (r: bool) {
        self >= other
    }
}

impl Inc for u16 {
    type Output = u16;

    fn inc(self) -> (r: u16) {
        self + 1
    }
}

impl Zero for u16 {
    fn zero() -> (r: u16) {
        0
    }
}

impl Three for u16 {
    fn three() -> (r: u16) {
        3
    }
}

impl Five for u16 {
    fn five() -> (r: u16) {
        5
    }
}

impl Numeric for u32 {
    open spec fn value(&self) -> int {
        *self as int
    }

    open spec fn greatest() -> int {
        u32::MAX as int
    }

    proof fn lemma_at_most_greatest(x: u32) {
    }

    fn rem(self, divisor: u32) -> (r: u32) {
        self % divisor
    }

    fn widen(self) -> (r: i128) {
        self as i128
    }

    fn equals(self, other: u32) -> (r: bool) {
        self == other
    }

    fn at_least(self, other: u32) -> (r: bool) {
        self >= other
    }
}

impl Inc for u32 {
    type Output = u32;

    fn inc(self) -> (r: u32) {
        self + 1
    }
}

impl Zero for u32 {
    fn zero() -> (r: u32) {
        0
    }
}

impl Three for u32 {
    fn three() -> (r: u32) {
        3
    }
}

impl Five for u32 {
    fn five() -> (r: u32) {
        5
    }
}

impl Numeric for u64 {
    open spec fn value(&self) -> int {
        *self as int
    }

    open spec fn greatest() -> int {
        u64::MAX as int
    }

    proof fn lemma_at_most_greatest(x: u64) {
    }

    fn rem(self, divisor: u64) -> (r: u64) {
        self % divisor
    }

    fn widen(self) -> (r: i128) {
        self as i128
    }

    fn equals(self, other: u64) -> (r: bool) {
        self == other
    }

    fn at_least(self, other: u64) -> (r: bool) {
        self >= other
    }
}

impl Inc for u64 {
    type Output = u64;

    fn inc(self) -> (r: u64) {
        self + 1
    }
}

impl Zero for u64 {
    fn zero() -> (r: u64) {
        0
    }
}

impl Three for u64 {
    fn three() -> (r: u64) {
        3
    }
}

impl Five for u64 {
    fn five() -> (r: u64) {
        5
    }
}

impl Numeric for isize {
    open spec fn value(&self) -> int {
        *self as int
    }

    open spec fn greatest() -> int {
        isize::MAX as int
    }

    proof fn lemma_at_most_greatest(x: isize) {
    }

    fn rem(self, divisor: isize) -> (r: isize) {
        proof {
            lemma_negation_keeps_divisibility(self as int, divisor as int);
        }
        self % divisor
    }

    fn widen(self) -> (r: i128) {
        self as i128
    }

    fn equals(self, other: isize) -> (r: bool) {
        self == other
    }

    fn at_least(self, other: isize) -> (r: bool) {
        self >= other
    }
}

impl Inc for isize {
    type Output = isize;

    fn inc(self) -> (r: isize) {
        self + 1
    }
}

impl Zero for isize {
    fn zero() -> (r: isize) {
        0
    }
}

impl Three for isize {
    fn three() -> (r: isize) {
        3
    }
}

impl Five for isize {
    fn five() -> (r: isize) {
        5
    }
}

impl Numeric for i16 {
    open spec fn value(&self) -> int {
        *self as int
    }

    open spec fn greatest() -> int {
        i16::MAX as int
    }

    proof fn lemma_at_most_greatest(x: i16) {
    }

    fn rem(self, divisor: i16) -> (r: i16) {
        proof {
            lemma_negation_keeps_divisibility(self as int, divisor as int);
        }
        self % divisor
    }

    fn widen(self) -> (r: i128) {
        self as i128
    }

    fn equals(self, other: i16) -> (r: bool) {
        self == other
    }

    fn at_least(self, other: i16) -> (r: bool) {
        self >= other
    }
}

impl Inc for i16 {
    type Output = i16;

    fn inc(self) -> (r: i16) {
        self + 1
    }
}

impl Zero for i16 {
    fn zero() -> (r: i16) {
        0
    }
}

impl Three for i16 {
    fn three() -> (r: i16) {
        3
    }
}

impl Five for i16 {
    fn five() -> (r: i16) {
        5
    }
}

impl Numeric for i32 {
    open spec fn value(&self) -> int {
        *self as int
    }

    open spec fn greatest() -> int {
        i32::MAX as int
    }

    proof fn lemma_at_most_greatest(x: i32) {
    }

    fn rem(self, divisor: i32) -> (r: i32) {
        proof {
            lemma_negation_keeps_divisibility(self as int, divisor as int);
        }
        self % divisor
    }

    fn widen(self) -> (r: i128) {
        self as i128
    }

    fn equals(self, other: i32) -> (r: bool) {
        self == other
    }

    fn at_least(self, other: i32) -> (r: bool) {
        self >= other
    }
}

impl Inc for i32 {
    type Output = i32;

    fn inc(self) -> (r: i32) {
        self + 1
    }
}

impl Zero for i32 {
    fn zero() -> (r: i32) {
        0
    }
}

impl Three for i32 {
    fn three() -> (r: i32) {
        3
    }
}

impl Five for i32 {
    fn five() -> (r: i32) {
        5
    }
}

impl Numeric for i64 {
    open spec fn value(&self) -> int {
        *self as int
    }

    open spec fn greatest() -> int {
        i64::MAX as int
    }

    proof fn lemma_at_most_greatest(x: i64) {
    }

    fn rem(self, divisor: i64) -> (r: i64) {
        proof {
            lemma_negation_keeps_divisibility(self as int, divisor as int);
        }
        self % divisor
    }

    fn widen(self) -> (r: i128) {
        self as i128
    }

    fn equals(self, other: i64) -> (r: bool) {
        self == other
    }

    fn at_least(self, other: i64) -> (r: bool) {
        self >= other
    }
}

impl Inc for i64 {
    type Output = i64;

    fn inc(self) -> (r: i64) {
        self + 1
    }
}

impl Zero for i64 {
    fn zero() -> (r: i64) {
        0
    }
}

impl Three for i64 {
    fn three() -> (r: i64) {
        3
    }
}

impl Five for i64 {
    fn five() -> (r: i64) {
        5
    }
}

} // verus!
