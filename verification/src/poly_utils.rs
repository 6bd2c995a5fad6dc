//! A 4-wide lane type and element-wise helpers.
//!
//! `Fix4` plays the role of a 4-lane SIMD register: four fixed-point values
//! processed together.  The helpers mirror the lane-wise fused operations the
//! engine uses (`a + b*c`, `a - b*c`, linear interpolation) and the two
//! swizzles that reorder stereo voices.

use vstd::prelude::*;

verus! {

use crate::fixed::{
    fx_add, fx_add_spec, fx_clamp, fx_clamp_spec, fx_div, fx_div_spec, fx_min, fx_mul, fx_mul_spec,
    fx_sub, fx_sub_spec,
};

/// Four fixed-point lanes.
#[derive(Clone, Copy, PartialEq, Eq, Structural, Debug)]
pub struct Fix4 {
    pub l0: i64,
    pub l1: i64,
    pub l2: i64,
    pub l3: i64,
}

/// Lane-wise saturating sum.
pub open spec fn fx4_add_spec(x: Fix4, y: Fix4) -> Fix4 {
    Fix4 {
        l0: fx_add_spec(x.l0 as int, y.l0 as int) as i64,
        l1: fx_add_spec(x.l1 as int, y.l1 as int) as i64,
        l2: fx_add_spec(x.l2 as int, y.l2 as int) as i64,
        l3: fx_add_spec(x.l3 as int, y.l3 as int) as i64,
    }
}

/// Lane-wise saturating difference.
pub open spec fn fx4_sub_spec(x: Fix4, y: Fix4) -> Fix4 {
    Fix4 {
        l0: fx_sub_spec(x.l0 as int, y.l0 as int) as i64,
        l1: fx_sub_spec(x.l1 as int, y.l1 as int) as i64,
        l2: fx_sub_spec(x.l2 as int, y.l2 as int) as i64,
        l3: fx_sub_spec(x.l3 as int, y.l3 as int) as i64,
    }
}

/// Lane-wise saturating product.
pub open spec fn fx4_mul_spec(x: Fix4, y: Fix4) -> Fix4 {
    Fix4 {
        l0: fx_mul_spec(x.l0 as int, y.l0 as int) as i64,
        l1: fx_mul_spec(x.l1 as int, y.l1 as int) as i64,
        l2: fx_mul_spec(x.l2 as int, y.l2 as int) as i64,
        l3: fx_mul_spec(x.l3 as int, y.l3 as int) as i64,
    }
}

/// `a + b*c`, lane-wise.
pub open spec fn mul_add_fx_spec(a: Fix4, b: Fix4, c: Fix4) -> Fix4 {
    fx4_add_spec(a, fx4_mul_spec(b, c))
}

/// `a - b*c`, lane-wise.
pub open spec fn mul_sub_fx_spec(a: Fix4, b: Fix4, c: Fix4) -> Fix4 {
    fx4_sub_spec(a, fx4_mul_spec(b, c))
}

/// All four lanes equal.
pub open spec fn fx4_splat_spec(v: i64) -> Fix4 {
    Fix4 { l0: v, l1: v, l2: v, l3: v }
}

/// Lane-wise minimum.
pub open spec fn fx4_min_spec(x: Fix4, y: Fix4) -> Fix4 {
    Fix4 {
        l0: if x.l0 <= y.l0 { x.l0 } else { y.l0 },
        l1: if x.l1 <= y.l1 { x.l1 } else { y.l1 },
        l2: if x.l2 <= y.l2 { x.l2 } else { y.l2 },
        l3: if x.l3 <= y.l3 { x.l3 } else { y.l3 },
    }
}

/// Lane-wise clamp.
pub open spec fn fx4_clamp_spec(x: Fix4, lo: i64, hi: i64) -> Fix4 {
    Fix4 {
        l0: fx_clamp_spec(x.l0 as int, lo as int, hi as int) as i64,
        l1: fx_clamp_spec(x.l1 as int, lo as int, hi as int) as i64,
        l2: fx_clamp_spec(x.l2 as int, lo as int, hi as int) as i64,
        l3: fx_clamp_spec(x.l3 as int, lo as int, hi as int) as i64,
    }
}

/// Lane-wise saturating quotient by a positive scalar.
pub open spec fn fx4_divs_spec(x: Fix4, d: i64) -> Fix4 {
    Fix4 {
        l0: fx_div_spec(x.l0 as int, d as int) as i64,
        l1: fx_div_spec(x.l1 as int, d as int) as i64,
        l2: fx_div_spec(x.l2 as int, d as int) as i64,
        l3: fx_div_spec(x.l3 as int, d as int) as i64,
    }
}

/// The saturating sum of the four lanes.
pub open spec fn fx4_reduce_spec(v: Fix4) -> i64 {
    fx_add_spec(
        fx_add_spec(fx_add_spec(v.l0 as int, v.l1 as int), v.l2 as int),
        v.l3 as int,
    ) as i64
}

/// The front and back stereo pairs swapped: lanes `[2, 3, 0, 1]`.
pub open spec fn swap_voices_spec(a: Fix4) -> Fix4 {
    Fix4 { l0: a.l2, l1: a.l3, l2: a.l0, l3: a.l1 }
}

impl Fix4 {
    /// All four lanes set to the same value.
    pub fn splat(v: i64) -> (r: Fix4)
        ensures
            r == fx4_splat_spec(v),
    {
        Fix4 { l0: v, l1: v, l2: v, l3: v }
    }

    /// All four lanes zero.
    pub fn zero() -> (r: Fix4)
        ensures
            r == fx4_splat_spec(0),
    {
        Fix4 { l0: 0, l1: 0, l2: 0, l3: 0 }
    }

    /// Lane-wise saturating sum.
    pub fn add4(self, y: Fix4) -> (r: Fix4)
        ensures
            r == fx4_add_spec(self, y),
    {
        Fix4 {
            l0: fx_add(self.l0, y.l0),
            l1: fx_add(self.l1, y.l1),
            l2: fx_add(self.l2, y.l2),
            l3: fx_add(self.l3, y.l3),
        }
    }

    /// Lane-wise saturating difference.
    pub fn sub4(self, y: Fix4) -> (r: Fix4)
        ensures
            r == fx4_sub_spec(self, y),
    {
        Fix4 {
            l0: fx_sub(self.l0, y.l0),
            l1: fx_sub(self.l1, y.l1),
            l2: fx_sub(self.l2, y.l2),
            l3: fx_sub(self.l3, y.l3),
        }
    }

    /// Lane-wise saturating product.
    pub fn mul4(self, y: Fix4) -> (r: Fix4)
        ensures
            r == fx4_mul_spec(self, y),
    {
        Fix4 {
            l0: fx_mul(self.l0, y.l0),
            l1: fx_mul(self.l1, y.l1),
            l2: fx_mul(self.l2, y.l2),
            l3: fx_mul(self.l3, y.l3),
        }
    }

    /// Lane-wise minimum with another vector.
    pub fn min4(self, y: Fix4) -> (r: Fix4)
        ensures
            r == fx4_min_spec(self, y),
    {
        Fix4 {
            l0: fx_min(self.l0, y.l0),
            l1: fx_min(self.l1, y.l1),
            l2: fx_min(self.l2, y.l2),
            l3: fx_min(self.l3, y.l3),
        }
    }

    /// Lane-wise clamp to `[lo, hi]`.
    pub fn clamp4(self, lo: i64, hi: i64) -> (r: Fix4)
        requires
            lo <= hi,
        ensures
            r == fx4_clamp_spec(self, lo, hi),
    {
        Fix4 {
            l0: fx_clamp(self.l0, lo, hi),
            l1: fx_clamp(self.l1, lo, hi),
            l2: fx_clamp(self.l2, lo, hi),
            l3: fx_clamp(self.l3, lo, hi),
        }
    }

    /// Lane-wise saturating quotient by a positive scalar.
    pub fn div4s(self, d: i64) -> (r: Fix4)
        requires
            d > 0,
        ensures
            r == fx4_divs_spec(self, d),
    {
        Fix4 {
            l0: fx_div(self.l0, d),
            l1: fx_div(self.l1, d),
            l2: fx_div(self.l2, d),
            l3: fx_div(self.l3, d),
        }
    }

    /// Saturating sum of the four lanes.
    pub fn reduce_sum(self) -> (r: i64)
        ensures
            r == fx4_reduce_spec(self),
    {
        fx_add(fx_add(fx_add(self.l0, self.l1), self.l2), self.l3)
    }
}

/// `a + b*c`, lane-wise.
pub fn mul_add_fx(a: Fix4, b: Fix4, c: Fix4) -> (r: Fix4)
    ensures
        r == mul_add_fx_spec(a, b, c),
{
    a.add4(b.mul4(c))
}

/// `a - b*c`, lane-wise.
pub fn mul_sub_fx(a: Fix4, b: Fix4, c: Fix4) -> (r: Fix4)
    ensures
        r == mul_sub_fx_spec(a, b, c),
{
    a.sub4(b.mul4(c))
}

/// Linear interpolation `from + (to - from)*t`, lane-wise.
pub fn interpolate_fx(from: Fix4, to: Fix4, t: Fix4) -> (r: Fix4)
    ensures
        r == mul_add_fx_spec(from, fx4_sub_spec(to, from), t),
{
    mul_add_fx(from, to.sub4(from), t)
}

/// A freshly allocated buffer of `n` zero samples.
pub fn zeros(n: usize) -> (v: Vec<i64>)
    ensures
        v@.len() == n,
        forall|i: int| 0 <= i < n ==> v@[i] == 0,
{
    let mut v: Vec<i64> = Vec::new();
    while v.len() < n
        invariant
            v@.len() <= n,
            forall|i: int| 0 <= i < v@.len() ==> v@[i] == 0,
        decreases n - v@.len(),
    {
        v.push(0);
    }
    v
}

/// Overwrite every sample of a buffer with zero, keeping its length.
pub fn zero_fill(v: &mut Vec<i64>)
    ensures
        final(v)@.len() == old(v)@.len(),
        forall|i: int| 0 <= i < final(v)@.len() ==> final(v)@[i] == 0,
{
    let n = v.len();
    let mut k: usize = 0;
    while k < n
        invariant
            n == v@.len(),
            k <= n,
            forall|i: int| 0 <= i < k ==> v@[i] == 0,
        decreases n - k,
    {
        v[k] = 0;
        k = k + 1;
    }
}

/// Swap the front and back stereo pairs: lanes `[2, 3, 0, 1]`.
pub fn swap_voices_x4(a: Fix4) -> (r: Fix4)
    ensures
        r == swap_voices_spec(a),
{
    Fix4 { l0: a.l2, l1: a.l3, l2: a.l0, l3: a.l1 }
}

/// Swap the channels inside each stereo pair: lanes `[1, 0, 3, 2]`.
pub fn swap_stereo_x4(a: Fix4) -> (r: Fix4)
    ensures
        r == (Fix4 { l0: a.l1, l1: a.l0, l2: a.l3, l3: a.l2 }),
{
    Fix4 { l0: a.l1, l1: a.l0, l2: a.l3, l3: a.l2 }
}

} // verus!
