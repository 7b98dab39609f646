//! Closed-form arithmetic helpers.

use vstd::prelude::*;

use crate::num::Numeric;

verus! {

/// Trait for the gaussian sum of a contiguous range of whole numbers.
pub trait GaussSum: Numeric {
    /// Computes the gaussian sum `self * (self + 1) / 2` in constant
    /// time; the product of the two consecutive values is never
    /// negative, so the result is the sum `1 + 2 + ... + self` whenever
    /// `self` is not negative.
    fn gauss_sum(self) -> (r: Self)
        requires
            self.as_int() + 1 <= Self::max_spec(),
            self.as_int() * (self.as_int() + 1) <= Self::max_spec(),
        ensures
            r.as_int() == self.as_int() * (self.as_int() + 1) / 2,
    ;
}

impl GaussSum for u8 {
    fn gauss_sum(self) -> (r: Self) {
        proof {
            assert(Self::max_spec() == u8::MAX as int);
            assert(self as int * (self as int + 1) >= 0) by (nonlinear_arith);
        }
        self * (self + 1) / 2
    }
}

impl GaussSum for u16 {
    fn gauss_sum(self) -> (r: Self) {
        proof {
            assert(Self::max_spec() == u16::MAX as int);
            assert(self as int * (self as int + 1) >= 0) by (nonlinear_arith);
        }
        self * (self + 1) / 2
    }
}

impl GaussSum for u32 {
    fn gauss_sum(self) -> (r: Self) {
        proof {
            assert(Self::max_spec() == u32::MAX as int);
            assert(self as int * (self as int + 1) >= 0) by (nonlinear_arith);
        }
        self * (self + 1) / 2
    }
}

impl GaussSum for u64 {
    fn gauss_sum(self) -> (r: Self) {
        proof {
            assert(Self::max_spec() == u64::MAX as int);
            assert(self as int * (self as int + 1) >= 0) by (nonlinear_arith);
        }
        self * (self + 1) / 2
    }
}

impl GaussSum for u128 {
    fn gauss_sum(self) -> (r: Self) {
        proof {
            assert(Self::max_spec() == u128::MAX as int);
            assert(self as int * (self as int + 1) >= 0) by (nonlinear_arith);
        }
        self * (self + 1) / 2
    }
}

impl GaussSum for usize {
    fn gauss_sum(self) -> (r: Self) {
        proof {
            assert(Self::max_spec() == usize::MAX as int);
            assert(self as int * (self as int + 1) >= 0) by (nonlinear_arith);
        }
        self * (self + 1) / 2
    }
}

impl GaussSum for i8 {
    fn gauss_sum(self) -> (r: Self) {
        proof {
            assert(Self::min_spec() == i8::MIN as int && Self::max_spec() == i8::MAX as int);
            assert(self as int * (self as int + 1) >= 0) by (nonlinear_arith);
        }
        let p = self * (self + 1);
        ((p as u8) / 2) as i8
    }
}

impl GaussSum for i16 {
    fn gauss_sum(self) -> (r: Self) {
        proof {
            assert(Self::min_spec() == i16::MIN as int && Self::max_spec() == i16::MAX as int);
            assert(self as int * (self as int + 1) >= 0) by (nonlinear_arith);
        }
        let p = self * (self + 1);
        ((p as u16) / 2) as i16
    }
}

impl GaussSum for i32 {
    fn gauss_sum(self) -> (r: Self) {
        proof {
            assert(Self::min_spec() == i32::MIN as int && Self::max_spec() == i32::MAX as int);
            assert(self as int * (self as int + 1) >= 0) by (nonlinear_arith);
        }
        let p = self * (self + 1);
        ((p as u32) / 2) as i32
    }
}

impl GaussSum for i64 {
    fn gauss_sum(self) -> (r: Self) {
        proof {
            assert(Self::min_spec() == i64::MIN as int && Self::max_spec() == i64::MAX as int);
            assert(self as int * (self as int + 1) >= 0) by (nonlinear_arith);
        }
        let p = self * (self + 1);
        ((p as u64) / 2) as i64
    }
}

impl GaussSum for i128 {
    fn gauss_sum(self) -> (r: Self) {
        proof {
            assert(Self::min_spec() == i128::MIN as int && Self::max_spec() == i128::MAX as int);
            assert(self as int * (self as int + 1) >= 0) by (nonlinear_arith);
        }
        let p = self * (self + 1);
        ((p as u128) / 2) as i128
    }
}

impl GaussSum for isize {
    fn gauss_sum(self) -> (r: Self) {
        proof {
            assert(Self::min_spec() == isize::MIN as int && Self::max_spec() == isize::MAX as int);
            assert(self as int * (self as int + 1) >= 0) by (nonlinear_arith);
        }
        let p = self * (self + 1);
        ((p as usize) / 2) as isize
    }
}

} // verus!
