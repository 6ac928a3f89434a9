//! An exact scalar: the ring of 64-bit machine integers.
use vstd::prelude::*;
use crate::scalar::{Additive, ExactScalar, Scalar};

verus! {

/// A point of the integer lattice. Arithmetic wraps around, so the ring laws
/// hold of every value; the order is that of the signed integers.
#[derive(Clone, Copy, Debug, PartialEq, Eq, Structural)]
pub struct Lattice {
    pub value: i64,
}

/// Whether `r` is the largest integer whose square does not exceed `n`.
pub open spec fn is_integer_root(n: int, r: int) -> bool {
    0 <= r && r * r <= n < (r + 1) * (r + 1)
}

/// The largest integer whose square does not exceed `n`.
pub open spec fn integer_root(n: int) -> int {
    choose|r: int| is_integer_root(n, r)
}

proof fn lemma_square_monotonic(a: int, b: int)
    requires
        0 <= a <= b,
    ensures
        a * a <= b * b,
{
    assert(a * a <= b * b) by (nonlinear_arith)
        requires
            0 <= a <= b,
    ;
}

/// The integer root is the only `r` with `r * r <= n < (r + 1) * (r + 1)`.
pub proof fn lemma_integer_root_unique(n: int, r: int)
    requires
        is_integer_root(n, r),
    ensures
        integer_root(n) == r,
{
    let s = integer_root(n);
    assert(is_integer_root(n, s));
    if s < r {
        lemma_square_monotonic(s + 1, r);
    } else if r < s {
        lemma_square_monotonic(r + 1, s);
    }
}

impl Lattice {
    pub fn new(value: i64) -> (r: Self)
        ensures
            r.value == value,
    {
        Lattice { value }
    }

    /// The quotient rounded toward zero; zero where the divisor is zero.
    pub open spec fn quotient(a: i64, b: i64) -> i64 {
        if b == 0 {
            0i64
        } else if a == i64::MIN && b == -1 {
            i64::MIN
        } else if (a >= 0) == (b > 0) {
            (Self::magnitude(a) / Self::magnitude(b)) as i64
        } else {
            (-(Self::magnitude(a) / Self::magnitude(b))) as i64
        }
    }

    pub open spec fn magnitude(a: i64) -> int {
        if a < 0 { -(a as int) } else { a as int }
    }
}

fn magnitude_of(a: i64) -> (r: u64)
    ensures
        r == Lattice::magnitude(a),
{
    if a >= 0 {
        a as u64
    } else if a == i64::MIN {
        0x8000_0000_0000_0000u64
    } else {
        (-a) as u64
    }
}

fn root_of(n: u64) -> (r: u64)
    ensures
        r == integer_root(n as int),
        r <= 0xffff_ffff,
{
    let mut lo: u64 = 0;
    let mut hi: u64 = 0x1_0000_0000;
    while hi - lo > 1
        invariant
            lo < hi <= 0x1_0000_0000,
            lo * lo <= n,
            n < hi * hi,
        decreases hi - lo,
    {
        let mid: u64 = lo + (hi - lo) / 2;
        assert(mid * mid <= 0xffff_ffff * 0xffff_ffff) by (nonlinear_arith)
            requires
                0 <= mid <= 0xffff_ffff,
        ;
        if mid * mid <= n {
            lo = mid;
        } else {
            hi = mid;
        }
    }
    proof {
        lemma_integer_root_unique(n as int, lo as int);
    }
    lo
}

impl Additive for Lattice {
    open spec fn zero_spec() -> Self {
        Lattice { value: 0 }
    }

    open spec fn plus_spec(self, rhs: Self) -> Self {
        Lattice { value: vstd::wrapping::i64_specs::wrapping_add(self.value, rhs.value) }
    }

    fn zero() -> (r: Self) {
        Lattice { value: 0 }
    }

    fn plus(self, rhs: Self) -> (r: Self) {
        Lattice { value: self.value.wrapping_add(rhs.value) }
    }
}

impl Scalar for Lattice {
    open spec fn rank(self) -> i64 {
        self.value
    }

    open spec fn one_spec() -> Self {
        Lattice { value: 1 }
    }

    open spec fn infinity_spec() -> Self {
        Lattice { value: i64::MAX }
    }

    open spec fn from_count_spec(n: usize) -> Self {
        Lattice { value: if n <= i64::MAX { n as i64 } else { i64::MAX } }
    }

    open spec fn minus_spec(self, rhs: Self) -> Self {
        Lattice { value: vstd::wrapping::i64_specs::wrapping_sub(self.value, rhs.value) }
    }

    open spec fn times_spec(self, rhs: Self) -> Self {
        Lattice { value: vstd::wrapping::i64_specs::wrapping_mul(self.value, rhs.value) }
    }

    open spec fn over_spec(self, rhs: Self) -> Self {
        Lattice { value: Self::quotient(self.value, rhs.value) }
    }

    open spec fn negated_spec(self) -> Self {
        Lattice { value: vstd::wrapping::i64_specs::wrapping_sub(0, self.value) }
    }

    open spec fn root_spec(self) -> Self {
        Lattice { value: if self.value < 0 { 0 } else { integer_root(self.value as int) as i64 } }
    }

    fn one() -> (r: Self) {
        Lattice { value: 1 }
    }

    fn infinity() -> (r: Self) {
        Lattice { value: i64::MAX }
    }

    fn from_count(n: usize) -> (r: Self) {
        let wide: u64 = n as u64;
        if wide <= 0x7fff_ffff_ffff_ffffu64 {
            Lattice { value: wide as i64 }
        } else {
            Lattice { value: i64::MAX }
        }
    }

    fn minus(self, rhs: Self) -> (r: Self) {
        Lattice { value: self.value.wrapping_sub(rhs.value) }
    }

    fn times(self, rhs: Self) -> (r: Self) {
        Lattice { value: self.value.wrapping_mul(rhs.value) }
    }

    fn over(self, rhs: Self) -> (r: Self) {
        if rhs.value == 0 {
            Lattice { value: 0 }
        } else if self.value == i64::MIN && rhs.value == -1 {
            Lattice { value: i64::MIN }
        } else {
            let q: u64 = magnitude_of(self.value) / magnitude_of(rhs.value);
            assert(q <= Self::magnitude(self.value)) by (nonlinear_arith)
                requires
                    q == Self::magnitude(self.value) / Self::magnitude(rhs.value),
                    Self::magnitude(rhs.value) >= 1,
                    Self::magnitude(self.value) >= 0,
            ;
            if (self.value >= 0) == (rhs.value > 0) {
                assert(q <= i64::MAX) by (nonlinear_arith)
                    requires
                        q == Self::magnitude(self.value) / Self::magnitude(rhs.value),
                        Self::magnitude(self.value) <= 0x8000_0000_0000_0000,
                        Self::magnitude(rhs.value) >= 1,
                        Self::magnitude(self.value) == 0x8000_0000_0000_0000
                            ==> Self::magnitude(rhs.value) >= 2,
                ;
                Lattice { value: q as i64 }
            } else if q == 0x8000_0000_0000_0000u64 {
                Lattice { value: i64::MIN }
            } else {
                Lattice { value: -(q as i64) }
            }
        }
    }

    fn negated(self) -> (r: Self) {
        let zero: i64 = 0;
        Lattice { value: zero.wrapping_sub(self.value) }
    }

    fn root(self) -> (r: Self) {
        if self.value < 0 {
            Lattice { value: 0 }
        } else {
            Lattice { value: root_of(self.value as u64) as i64 }
        }
    }

    fn lt(self, rhs: Self) -> (r: bool) {
        self.value < rhs.value
    }
}

impl ExactScalar for Lattice {
    proof fn law_plus_zero(a: Self) {
    }

    proof fn law_times_zero(a: Self) {
    }

    proof fn law_times_one(a: Self) {
    }

    proof fn law_plus_minus(a: Self, b: Self) {
    }

    proof fn law_plus_negated(a: Self) {
    }

    proof fn law_negated_negated(a: Self) {
    }

    proof fn law_zero_below_one() {
    }
}

} // verus!
