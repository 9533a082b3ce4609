//! Clamping of scalar values, with the NaN policy made explicit: a NaN
//! anywhere among the value and the two bounds yields NaN, never a
//! silently clamped number.

use vstd::prelude::*;
use crate::scalar::Scalar;
use crate::scalar::NAN_BITS;
use crate::scalar::is_nan_single;
use crate::scalar::ge_single;
use crate::scalar::le_single;
use crate::scalar::gt_single;

verus! {

/// What `constrain` returns: NaN if any operand is NaN; the value
/// itself when it lies within the bounds; otherwise the bound it
/// crossed.
pub open spec fn constrain_single(x: u32, a: u32, b: u32) -> u32 {
    if is_nan_single(x) || is_nan_single(a) || is_nan_single(b) {
        NAN_BITS
    } else if ge_single(x, a) && le_single(x, b) {
        x
    } else if gt_single(x, b) {
        b
    } else {
        a
    }
}

/// Clamping, NaN-aware.
pub trait FloatExt: Sized {
    fn constrain(&self, start: Self, end: Self) -> Self;
}

impl FloatExt for Scalar {
    /// Clamp the value to `[start, end]`.
    ///
    /// For an ordered pair of non-NaN bounds the result lies within
    /// them; a value already within the bounds comes back bit-exact;
    /// a NaN among the operands yields the canonical NaN.
    fn constrain(&self, start: Scalar, end: Scalar) -> (r: Scalar)
        ensures
            r.bits == constrain_single(self.bits, start.bits, end.bits),
            (is_nan_single(self.bits) || is_nan_single(start.bits) || is_nan_single(end.bits))
                ==> r.bits == NAN_BITS,
            (!is_nan_single(self.bits) && ge_single(self.bits, start.bits) && le_single(
                self.bits,
                end.bits,
            )) ==> r == *self,
            (!is_nan_single(self.bits) && !is_nan_single(start.bits) && !is_nan_single(end.bits)
                && le_single(start.bits, end.bits)) ==> (ge_single(r.bits, start.bits) && le_single(
                r.bits,
                end.bits,
            )),
    {
        if self.is_nan() || start.is_nan() || end.is_nan() {
            Scalar { bits: NAN_BITS }
        } else if self.ge_val(&start) && self.le_val(&end) {
            *self
        } else if self.gt_val(&end) {
            end
        } else {
            start
        }
    }
}

} // verus!
