//! A doubled stereo ring buffer with Catmull-Rom fractional reads.
//!
//! Each channel is stored twice: a push writes the sample at the write
//! offset and again one buffer-length later, so any four consecutive
//! positions hold valid data without wrap logic.  A fractional read builds a
//! Catmull-Rom kernel from the fractional part of the requested delay and
//! reduces four consecutive samples of each channel with it.

use vstd::prelude::*;

verus! {

use crate::fixed::{fx_floor_spec, FX_ONE};
use crate::matrix::{catmull_kernel_spec, multiply_and_sum_rows_spec, transpose_spec, Matrix};
use crate::poly_utils::{zero_fill, zeros, Fix4};
use vstd::arithmetic::power2::is_pow2;

/// The largest supported ring size (a power of two well above any sample
/// rate the engine accepts).
pub const MAX_STEREO_SIZE: usize = 1073741824;

/// Two parallel ring buffers of stereo samples, each doubled in length.
pub struct StereoMemory {
    /// The left channel, doubled: `left[i] == left[i + size]`.
    pub left: Vec<i64>,
    /// The right channel, doubled likewise.
    pub right: Vec<i64>,
    /// The ring length; always a power of two, at least four.
    pub size: usize,
    /// The current write position, always below `size`.
    pub offset: usize,
}

/// The ring position a fractional delay reaches back to from a write
/// offset: two before the integer part of `past`, modulo the ring.
pub open spec fn ring_read_index_spec(size: int, offset: int, past: int) -> int {
    (offset + size - (fx_floor_spec(past) + 2) % size) % size
}

/// The Catmull-Rom read of a doubled stereo ring held as two sequences.
#[verifier::opaque]
pub open spec fn stereo_read_spec(
    left: Seq<i64>,
    right: Seq<i64>,
    size: int,
    offset: int,
    past: Fix4,
) -> Fix4 {
    let t = Fix4 {
        l0: StereoMemory::frac_spec(past.l0 as int) as i64,
        l1: StereoMemory::frac_spec(past.l1 as int) as i64,
        l2: StereoMemory::frac_spec(past.l2 as int) as i64,
        l3: StereoMemory::frac_spec(past.l3 as int) as i64,
    };
    let i0 = ring_read_index_spec(size, offset, past.l0 as int);
    let i1 = ring_read_index_spec(size, offset, past.l1 as int);
    let values = Matrix {
        rows: [
            Fix4 { l0: left[i0], l1: left[i0 + 1], l2: left[i0 + 2], l3: left[i0 + 3] },
            Fix4 { l0: right[i1], l1: right[i1 + 1], l2: right[i1 + 2], l3: right[i1 + 3] },
            Fix4 { l0: 0, l1: 0, l2: 0, l3: 0 },
            Fix4 { l0: 0, l1: 0, l2: 0, l3: 0 },
        ],
    };
    multiply_and_sum_rows_spec(catmull_kernel_spec(t), transpose_spec(values))
}

impl StereoMemory {
    /// The structural invariant: power-of-two ring length, doubled buffers,
    /// write offset in range, and every sample mirrored at its double.
    pub open spec fn wf(self) -> bool {
        &&& 4 <= self.size <= MAX_STEREO_SIZE
        &&& is_pow2(self.size as int)
        &&& self.left@.len() == 2 * self.size
        &&& self.right@.len() == 2 * self.size
        &&& self.offset < self.size
        &&& forall|i: int|
            0 <= i < self.size ==> #[trigger] self.left@[i] == self.left@[i + self.size]
        &&& forall|i: int|
            0 <= i < self.size ==> #[trigger] self.right@[i] == self.right@[i + self.size]
    }

    /// Every stored sample is zero.
    pub open spec fn is_cleared(self) -> bool {
        &&& forall|i: int| 0 <= i < self.left@.len() ==> #[trigger] self.left@[i] == 0
        &&& forall|i: int| 0 <= i < self.right@.len() ==> #[trigger] self.right@[i] == 0
    }

    /// The ring position a fractional delay reaches back to from the write
    /// offset: two before the integer part of `past`, modulo the ring.
    pub open spec fn read_index_spec(self, past: int) -> int {
        ring_read_index_spec(self.size as int, self.offset as int, past)
    }

    /// The fractional position of `past` between its bracketing samples,
    /// offset by one for the four-tap stencil.
    pub open spec fn frac_spec(past: int) -> int {
        fx_floor_spec(past) * FX_ONE - past + FX_ONE
    }

    /// The Catmull-Rom read: the kernel of the fractional parts, applied to
    /// four consecutive samples of each channel.
    pub open spec fn get_interpolated_spec(self, past: Fix4) -> Fix4 {
        stereo_read_spec(self.left@, self.right@, self.size as int, self.offset as int, past)
    }

    /// A cleared ring whose length is the smallest power of two (at least
    /// four) that holds `size` samples.
    pub fn new(size: u32) -> (r: StereoMemory)
        requires
            size <= 536870912,
        ensures
            r.wf(),
            r.is_cleared(),
            r.offset == 0,
            r.size >= size,
            r.size == 4 || (r.size as int) < 2 * (size as int),
    {
        let mut s: usize = 4;
        proof {
            vstd::arithmetic::power2::lemma_pow2_unfold(2);
            assert(is_pow2(4)) by {
                reveal_with_fuel(is_pow2, 4);
            }
        }
        while s < size as usize
            invariant
                4 <= s <= MAX_STEREO_SIZE,
                is_pow2(s as int),
                size <= 536870912,
                s == 4 || (s as int) < 2 * (size as int),
            decreases size as int + size as int - s as int,
        {
            proof {
                assert(is_pow2(2 * s as int)) by {
                    reveal_with_fuel(is_pow2, 2);
                }
            }
            s = s * 2;
        }
        StereoMemory { left: zeros(2 * s), right: zeros(2 * s), size: s, offset: 0 }
    }

    /// Advance the write offset and store one stereo sample (lanes 0 and 1)
    /// at it, mirrored at the doubled position.
    pub fn push(&mut self, sample: Fix4)
        requires
            old(self).wf(),
        ensures
            final(self).wf() == old(self).wf(),
            final(self).size == old(self).size,
            final(self).offset == (old(self).offset + 1) % (old(self).size as int),
            final(self).left@ == old(self).left@.update(
                final(self).offset as int,
                sample.l0,
            ).update(final(self).offset + old(self).size, sample.l0),
            final(self).right@ == old(self).right@.update(
                final(self).offset as int,
                sample.l1,
            ).update(final(self).offset + old(self).size, sample.l1),
    {
        let off = (self.offset + 1) % self.size;
        self.offset = off;
        self.left[off] = sample.l0;
        self.left[off + self.size] = sample.l0;
        self.right[off] = sample.l1;
        self.right[off + self.size] = sample.l1;
        proof {
            assert(final(self).wf());
        }
    }

    /// Zero every stored sample; the write offset and the ring length are
    /// kept.
    pub fn clear(&mut self)
        requires
            old(self).wf(),
        ensures
            final(self).wf(),
            final(self).is_cleared(),
            final(self).size == old(self).size,
            final(self).offset == old(self).offset,
            final(self).left@.len() == old(self).left@.len(),
            final(self).right@.len() == old(self).right@.len(),
    {
        zero_fill(&mut self.left);
        zero_fill(&mut self.right);
    }

    /// Read one interpolated stereo sample `past` fixed-point samples behind
    /// the write offset (lane 0: left, lane 1: right).
    pub fn get_interpolated(&self, past: Fix4) -> (r: Fix4)
        requires
            self.wf(),
            0 <= past.l0 <= 201326592000,
            0 <= past.l1 <= 201326592000,
            0 <= past.l2 <= 201326592000,
            0 <= past.l3 <= 201326592000,
        ensures
            r == self.get_interpolated_spec(past),
    {
        proof {
            reveal(stereo_read_spec);
        }
        let t = Fix4 {
            l0: Self::frac_lane(past.l0),
            l1: Self::frac_lane(past.l1),
            l2: Self::frac_lane(past.l2),
            l3: Self::frac_lane(past.l3),
        };
        let kernel = Matrix::catmull_interpolation_matrix(t);
        let i0 = self.read_index(past.l0);
        let i1 = self.read_index(past.l1);
        let mut values = Matrix {
            rows: [
                Fix4 {
                    l0: self.left[i0],
                    l1: self.left[i0 + 1],
                    l2: self.left[i0 + 2],
                    l3: self.left[i0 + 3],
                },
                Fix4 {
                    l0: self.right[i1],
                    l1: self.right[i1 + 1],
                    l2: self.right[i1 + 2],
                    l3: self.right[i1 + 3],
                },
                Fix4::zero(),
                Fix4::zero(),
            ],
        };
        values.transpose();
        kernel.multiply_and_sum_rows(&values)
    }

    /// One lane of the fractional-position computation.
    fn frac_lane(past: i64) -> (r: i64)
        requires
            0 <= past <= 201326592000,
        ensures
            r == Self::frac_spec(past as int),
    {
        let pi = ((past as u64) / (FX_ONE as u64)) as i64;
        pi * FX_ONE - past + FX_ONE
    }

    /// One lane of the ring-position computation.
    fn read_index(&self, past: i64) -> (r: usize)
        requires
            self.wf(),
            0 <= past <= 201326592000,
        ensures
            r == self.read_index_spec(past as int),
            r + 3 < self.left@.len(),
            r + 3 < self.right@.len(),
    {
        proof {
            vstd::arithmetic::div_mod::lemma_div_is_ordered(
                past as int,
                201326592000,
                FX_ONE as int,
            );
            vstd::arithmetic::div_mod::lemma_div_pos_is_pos(past as int, FX_ONE as int);
        }
        let pi = ((past as u64) / (FX_ONE as u64)) as usize;
        let back = (pi + 2) % self.size;
        (self.offset + self.size - back) % self.size
    }
}

} // verus!
