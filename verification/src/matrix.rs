//! 4x4 blocks of fixed-point lanes: fractional-delay interpolation kernels,
//! an in-place transpose, and weighted row reductions.

use vstd::prelude::*;

verus! {

use crate::fixed::FX_ONE;
use crate::poly_utils::{
    fx4_add_spec, fx4_mul_spec, fx4_splat_spec, fx4_sub_spec, mul_add_fx, mul_add_fx_spec,
    mul_sub_fx, mul_sub_fx_spec, Fix4,
};

/// One sixth, in fixed point.
pub const FX_SIXTH: i64 = 174763;

/// Minus one sixth, in fixed point.
pub const FX_NEG_SIXTH: i64 = -174763;

/// One half, in fixed point.
pub const FX_HALF: i64 = 524288;

/// Minus one half, in fixed point.
pub const FX_NEG_HALF: i64 = -524288;

/// Two, in fixed point.
pub const FX_TWO: i64 = 2097152;

/// Three, in fixed point.
pub const FX_THREE: i64 = 3145728;

/// Four, in fixed point.
pub const FX_FOUR: i64 = 4194304;

/// Five, in fixed point.
pub const FX_FIVE: i64 = 5242880;

/// A 4x4 block of fixed-point values, stored as four 4-wide rows.
#[derive(Clone, Copy, Debug)]
pub struct Matrix {
    pub rows: [Fix4; 4],
}

/// The all-zero block.
pub open spec fn matrix_zero_spec() -> Matrix {
    Matrix {
        rows: [
            fx4_splat_spec(0),
            fx4_splat_spec(0),
            fx4_splat_spec(0),
            fx4_splat_spec(0),
        ],
    }
}

/// The cubic polynomial kernel for fractional position `t` (between the
/// samples indexed -1, 0, 1, 2), built lane-wise from `t`:
/// row -1 is `-1/6 * t * (t-1) * (t-2)`, row 0 is `1/2 * (t+1) * (t-1) * (t-2)`,
/// row 1 is `-1/2 * (t+1) * t * (t-2)`, row 2 is `1/6 * (t+1) * t * (t-1)`.
#[verifier::opaque]
pub open spec fn polynomial_kernel_spec(t_from: Fix4) -> Matrix {
    let t_prev = fx4_add_spec(t_from, fx4_splat_spec(FX_ONE));
    let t_to = fx4_sub_spec(t_from, fx4_splat_spec(FX_ONE));
    let t_next = fx4_sub_spec(t_from, fx4_splat_spec(FX_TWO));
    let t_prev_from = fx4_mul_spec(t_prev, t_from);
    let t_to_next = fx4_mul_spec(t_to, t_next);
    Matrix {
        rows: [
            fx4_mul_spec(fx4_mul_spec(t_from, t_to_next), fx4_splat_spec(FX_NEG_SIXTH)),
            fx4_mul_spec(fx4_mul_spec(t_prev, t_to_next), fx4_splat_spec(FX_HALF)),
            fx4_mul_spec(fx4_mul_spec(t_prev_from, t_next), fx4_splat_spec(FX_NEG_HALF)),
            fx4_mul_spec(fx4_mul_spec(t_prev_from, t_to), fx4_splat_spec(FX_SIXTH)),
        ],
    }
}

/// The Catmull-Rom kernel (cubic, tension one half) for fractional
/// position `t`, built lane-wise from the half powers of `t`.
#[verifier::opaque]
pub open spec fn catmull_kernel_spec(t: Fix4) -> Matrix {
    let half_t = fx4_mul_spec(t, fx4_splat_spec(FX_HALF));
    let half_t2 = fx4_mul_spec(t, half_t);
    let half_t3 = fx4_mul_spec(half_t2, t);
    let half_three_t3 = fx4_mul_spec(half_t3, fx4_splat_spec(FX_THREE));
    Matrix {
        rows: [
            fx4_sub_spec(
                fx4_sub_spec(fx4_mul_spec(half_t2, fx4_splat_spec(FX_TWO)), half_t3),
                half_t,
            ),
            fx4_add_spec(
                mul_sub_fx_spec(half_three_t3, half_t2, fx4_splat_spec(FX_FIVE)),
                fx4_splat_spec(FX_ONE),
            ),
            fx4_sub_spec(
                mul_add_fx_spec(half_t, half_t2, fx4_splat_spec(FX_FOUR)),
                half_three_t3,
            ),
            fx4_sub_spec(half_t3, half_t2),
        ],
    }
}

/// The transpose of a block.
pub open spec fn transpose_spec(m: Matrix) -> Matrix {
    Matrix {
        rows: [
            Fix4 { l0: m.rows[0].l0, l1: m.rows[1].l0, l2: m.rows[2].l0, l3: m.rows[3].l0 },
            Fix4 { l0: m.rows[0].l1, l1: m.rows[1].l1, l2: m.rows[2].l1, l3: m.rows[3].l1 },
            Fix4 { l0: m.rows[0].l2, l1: m.rows[1].l2, l2: m.rows[2].l2, l3: m.rows[3].l2 },
            Fix4 { l0: m.rows[0].l3, l1: m.rows[1].l3, l2: m.rows[2].l3, l3: m.rows[3].l3 },
        ],
    }
}

/// The row-wise product reduction `sum_i self_i * other_i`.
pub open spec fn multiply_and_sum_rows_spec(m: Matrix, other: Matrix) -> Fix4 {
    mul_add_fx_spec(
        mul_add_fx_spec(
            mul_add_fx_spec(fx4_mul_spec(m.rows[0], other.rows[0]), m.rows[1], other.rows[1]),
            m.rows[2],
            other.rows[2],
        ),
        m.rows[3],
        other.rows[3],
    )
}

/// The lane-wise sum of the four rows.
pub open spec fn sum_rows_spec(m: Matrix) -> Fix4 {
    fx4_add_spec(fx4_add_spec(fx4_add_spec(m.rows[0], m.rows[1]), m.rows[2]), m.rows[3])
}

impl Default for Matrix {
    /// The all-zero block.
    fn default() -> (r: Matrix)
        ensures
            r == matrix_zero_spec(),
    {
        Matrix {
            rows: [Fix4::zero(), Fix4::zero(), Fix4::zero(), Fix4::zero()],
        }
    }
}

impl Matrix {
    /// Build the cubic polynomial interpolation kernel for fractional
    /// position `t_from`.
    pub fn polynomial_interpolation_matrix(t_from: Fix4) -> (r: Matrix)
        ensures
            r == polynomial_kernel_spec(t_from),
    {
        proof {
            reveal(polynomial_kernel_spec);
        }
        let t_prev = t_from.add4(Fix4::splat(FX_ONE));
        let t_to = t_from.sub4(Fix4::splat(FX_ONE));
        let t_next = t_from.sub4(Fix4::splat(FX_TWO));
        let t_prev_from = t_prev.mul4(t_from);
        let t_to_next = t_to.mul4(t_next);
        Matrix {
            rows: [
                t_from.mul4(t_to_next).mul4(Fix4::splat(FX_NEG_SIXTH)),
                t_prev.mul4(t_to_next).mul4(Fix4::splat(FX_HALF)),
                t_prev_from.mul4(t_next).mul4(Fix4::splat(FX_NEG_HALF)),
                t_prev_from.mul4(t_to).mul4(Fix4::splat(FX_SIXTH)),
            ],
        }
    }

    /// Build the Catmull-Rom interpolation kernel for fractional position `t`.
    pub fn catmull_interpolation_matrix(t: Fix4) -> (r: Matrix)
        ensures
            r == catmull_kernel_spec(t),
    {
        proof {
            reveal(catmull_kernel_spec);
        }
        let half_t = t.mul4(Fix4::splat(FX_HALF));
        let half_t2 = t.mul4(half_t);
        let half_t3 = half_t2.mul4(t);
        let half_three_t3 = half_t3.mul4(Fix4::splat(FX_THREE));
        Matrix {
            rows: [
                half_t2.mul4(Fix4::splat(FX_TWO)).sub4(half_t3).sub4(half_t),
                mul_sub_fx(half_three_t3, half_t2, Fix4::splat(FX_FIVE)).add4(
                    Fix4::splat(FX_ONE),
                ),
                mul_add_fx(half_t, half_t2, Fix4::splat(FX_FOUR)).sub4(half_three_t3),
                half_t3.sub4(half_t2),
            ],
        }
    }

    /// Transpose the block in place.
    pub fn transpose(&mut self)
        ensures
            *final(self) == transpose_spec(*old(self)),
    {
        let r = Matrix {
            rows: [
                Fix4 {
                    l0: self.rows[0].l0,
                    l1: self.rows[1].l0,
                    l2: self.rows[2].l0,
                    l3: self.rows[3].l0,
                },
                Fix4 {
                    l0: self.rows[0].l1,
                    l1: self.rows[1].l1,
                    l2: self.rows[2].l1,
                    l3: self.rows[3].l1,
                },
                Fix4 {
                    l0: self.rows[0].l2,
                    l1: self.rows[1].l2,
                    l2: self.rows[2].l2,
                    l3: self.rows[3].l2,
                },
                Fix4 {
                    l0: self.rows[0].l3,
                    l1: self.rows[1].l3,
                    l2: self.rows[2].l3,
                    l3: self.rows[3].l3,
                },
            ],
        };
        *self = r;
    }

    /// The row-wise product reduction `sum_i self_i * other_i`, one
    /// interpolated sample per lane.
    pub fn multiply_and_sum_rows(&self, other: &Matrix) -> (r: Fix4)
        ensures
            r == multiply_and_sum_rows_spec(*self, *other),
    {
        let row01 = mul_add_fx(self.rows[0].mul4(other.rows[0]), self.rows[1], other.rows[1]);
        let row012 = mul_add_fx(row01, self.rows[2], other.rows[2]);
        mul_add_fx(row012, self.rows[3], other.rows[3])
    }

    /// The lane-wise sum of the four rows.
    pub fn sum_rows(&self) -> (r: Fix4)
        ensures
            r == sum_rows_spec(*self),
    {
        self.rows[0].add4(self.rows[1]).add4(self.rows[2]).add4(self.rows[3])
    }
}

/// Transposing a block twice gives back the original block: the in-place
/// transpose is its own inverse.
pub proof fn lemma_transpose_involutive(m: Matrix)
    ensures
        transpose_spec(transpose_spec(m)) == m,
{
    let t = transpose_spec(transpose_spec(m));
    assert(t.rows[0] == m.rows[0]);
    assert(t.rows[1] == m.rows[1]);
    assert(t.rows[2] == m.rows[2]);
    assert(t.rows[3] == m.rows[3]);
    assert(t.rows =~= m.rows);
}

} // verus!
