//! Single- and double-precision values carried by their IEEE-754 bit
//! patterns.
//!
//! The checker never performs floating-point arithmetic itself: every
//! quantity that enters a decision arrives as a bit pattern, and the
//! decisions — NaN detection, equality, ordering — are implemented and
//! verified here over the integer encoding.  For values that are not
//! NaN, ordering two encodings is the same as ordering their
//! sign-magnitude images, with the two zeroes mapping to the same
//! image; that image is the specification the executable comparisons
//! are proved against.

use vstd::prelude::*;

verus! {

/// Bit pattern of the canonical single-precision quiet NaN.
pub const NAN_BITS: u32 = 0x7fc0_0000;

/// A single-precision value, carried by its bit pattern.
#[derive(Clone, Copy, Debug, PartialEq, Eq, Structural)]
pub struct Scalar {
    pub bits: u32,
}

/// A double-precision value, carried by its bit pattern.
#[derive(Clone, Copy, Debug, PartialEq, Eq, Structural)]
pub struct Wide {
    pub bits: u64,
}

/// Magnitude (sign bit cleared) of a single-precision bit pattern.
pub open spec fn mag_single(b: u32) -> u32 {
    b & 0x7fff_ffffu32
}

/// A single-precision pattern is NaN when its magnitude exceeds that
/// of infinity.
pub open spec fn is_nan_single(b: u32) -> bool {
    mag_single(b) > 0x7f80_0000u32
}

/// Sign-magnitude image of a single-precision pattern: the integer
/// whose order agrees with the IEEE-754 order of non-NaN values.  Both
/// zeroes map to 0.
pub open spec fn image_single(b: u32) -> int {
    if b >= 0x8000_0000u32 {
        -(mag_single(b) as int)
    } else {
        mag_single(b) as int
    }
}

/// IEEE-754 equality of two single-precision patterns: false if either
/// is NaN, and otherwise equality of the images (the two zeroes are
/// equal, every other value has a unique encoding).
pub open spec fn eq_single(a: u32, b: u32) -> bool {
    &&& !is_nan_single(a)
    &&& !is_nan_single(b)
    &&& image_single(a) == image_single(b)
}

/// IEEE-754 strict order of two single-precision patterns: false if
/// either is NaN.
pub open spec fn lt_single(a: u32, b: u32) -> bool {
    &&& !is_nan_single(a)
    &&& !is_nan_single(b)
    &&& image_single(a) < image_single(b)
}

pub open spec fn le_single(a: u32, b: u32) -> bool {
    &&& !is_nan_single(a)
    &&& !is_nan_single(b)
    &&& image_single(a) <= image_single(b)
}

pub open spec fn gt_single(a: u32, b: u32) -> bool {
    lt_single(b, a)
}

pub open spec fn ge_single(a: u32, b: u32) -> bool {
    le_single(b, a)
}

/// Magnitude (sign bit cleared) of a double-precision bit pattern.
pub open spec fn mag_wide(b: u64) -> u64 {
    b & 0x7fff_ffff_ffff_ffffu64
}

/// A double-precision pattern is NaN when its magnitude exceeds that
/// of infinity.
pub open spec fn is_nan_wide(b: u64) -> bool {
    mag_wide(b) > 0x7ff0_0000_0000_0000u64
}

/// Sign-magnitude image of a double-precision pattern.
pub open spec fn image_wide(b: u64) -> int {
    if b >= 0x8000_0000_0000_0000u64 {
        -(mag_wide(b) as int)
    } else {
        mag_wide(b) as int
    }
}

/// IEEE-754 strict order of two double-precision patterns: false if
/// either is NaN.
pub open spec fn lt_wide(a: u64, b: u64) -> bool {
    &&& !is_nan_wide(a)
    &&& !is_nan_wide(b)
    &&& image_wide(a) < image_wide(b)
}

/// A single-precision pattern is its sign bit plus its magnitude; the
/// magnitude stays below the sign bit.
proof fn lemma_split_single(b: u32)
    ensures
        b >= 0x8000_0000u32 ==> b == 0x8000_0000u32 + (b & 0x7fff_ffffu32),
        b < 0x8000_0000u32 ==> b == (b & 0x7fff_ffffu32),
        (b & 0x7fff_ffffu32) < 0x8000_0000u32,
{
    assert(b >= 0x8000_0000u32 ==> b == 0x8000_0000u32 + (b & 0x7fff_ffffu32)) by (bit_vector);
    assert(b < 0x8000_0000u32 ==> b == (b & 0x7fff_ffffu32)) by (bit_vector);
    assert((b & 0x7fff_ffffu32) < 0x8000_0000u32) by (bit_vector);
}

impl Scalar {
    /// The pattern of positive zero.
    pub fn zero() -> (r: Scalar)
        ensures
            r.bits == 0u32,
    {
        Scalar { bits: 0 }
    }

    pub fn is_nan(&self) -> (r: bool)
        ensures
            r == is_nan_single(self.bits),
    {
        (self.bits & 0x7fff_ffff) > 0x7f80_0000
    }

    /// IEEE-754 equality: false whenever either operand is NaN; the
    /// two zeroes compare equal.
    pub fn eq_val(&self, other: &Scalar) -> (r: bool)
        ensures
            r == eq_single(self.bits, other.bits),
    {
        let ma: u32 = self.bits & 0x7fff_ffff;
        let mb: u32 = other.bits & 0x7fff_ffff;
        proof {
            lemma_split_single(self.bits);
            lemma_split_single(other.bits);
        }
        if ma > 0x7f80_0000 || mb > 0x7f80_0000 {
            false
        } else if ma == 0 && mb == 0 {
            true
        } else {
            self.bits == other.bits
        }
    }

    /// IEEE-754 strict less-than: false whenever either operand is
    /// NaN.
    pub fn lt_val(&self, other: &Scalar) -> (r: bool)
        ensures
            r == lt_single(self.bits, other.bits),
    {
        let ma: u32 = self.bits & 0x7fff_ffff;
        let mb: u32 = other.bits & 0x7fff_ffff;
        if ma > 0x7f80_0000 || mb > 0x7f80_0000 {
            false
        } else {
            let neg_a: bool = self.bits >= 0x8000_0000;
            let neg_b: bool = other.bits >= 0x8000_0000;
            if neg_a && neg_b {
                mb < ma
            } else if neg_a && !neg_b {
                ma != 0 || mb != 0
            } else if !neg_a && neg_b {
                false
            } else {
                ma < mb
            }
        }
    }

    pub fn le_val(&self, other: &Scalar) -> (r: bool)
        ensures
            r == le_single(self.bits, other.bits),
    {
        self.lt_val(other) || self.eq_val(other)
    }

    pub fn gt_val(&self, other: &Scalar) -> (r: bool)
        ensures
            r == gt_single(self.bits, other.bits),
    {
        other.lt_val(self)
    }

    pub fn ge_val(&self, other: &Scalar) -> (r: bool)
        ensures
            r == ge_single(self.bits, other.bits),
    {
        other.le_val(self)
    }
}

impl Wide {
    /// The pattern of positive zero.
    pub fn zero() -> (r: Wide)
        ensures
            r.bits == 0u64,
    {
        Wide { bits: 0 }
    }

    pub fn is_nan(&self) -> (r: bool)
        ensures
            r == is_nan_wide(self.bits),
    {
        (self.bits & 0x7fff_ffff_ffff_ffff) > 0x7ff0_0000_0000_0000
    }

    /// IEEE-754 strict less-than: false whenever either operand is
    /// NaN.
    pub fn lt_val(&self, other: &Wide) -> (r: bool)
        ensures
            r == lt_wide(self.bits, other.bits),
    {
        let ma: u64 = self.bits & 0x7fff_ffff_ffff_ffff;
        let mb: u64 = other.bits & 0x7fff_ffff_ffff_ffff;
        if ma > 0x7ff0_0000_0000_0000 || mb > 0x7ff0_0000_0000_0000 {
            false
        } else {
            let neg_a: bool = self.bits >= 0x8000_0000_0000_0000;
            let neg_b: bool = other.bits >= 0x8000_0000_0000_0000;
            if neg_a && neg_b {
                mb < ma
            } else if neg_a && !neg_b {
                ma != 0 || mb != 0
            } else if !neg_a && neg_b {
                false
            } else {
                ma < mb
            }
        }
    }
}

} // verus!
