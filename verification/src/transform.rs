use vstd::prelude::*;

use crate::bits::{get_byte, lemma_xor_byte, lemma_zero_byte, u128_byte};
use crate::gfni::{affine_transform, gf_affine_byte};
use crate::m256::{
    interleave_even_mask, interleave_even_val, interleave_odd_mask, interleave_odd_val, M256,
};

verus! {

/// Bits `0..t` of `m`, transposed as an 8x8 bit matrix: input bit
/// `8*i + j` lands at output bit `(7 - j)*8 + i`.
pub open spec fn transpose_rec(m: u64, t: u64) -> u64
    decreases t,
{
    if t == 0 {
        0
    } else {
        transpose_rec(m, (t - 1) as u64) | (((m >> ((t - 1) as u64)) & 1) << ((7 - ((t - 1) % 8))
            * 8 + (t - 1) / 8))
    }
}

/// A 64-bit value read as an 8x8 boolean matrix, transposed.
pub open spec fn transpose_spec(m: u64) -> u64 {
    transpose_rec(m, 64)
}

/// Transpose a 64-bit value representing an 8x8 boolean matrix.
pub fn transpose_8x8(matrix: u64) -> (r: u64)
    ensures
        r == transpose_spec(matrix),
{
    let mut result: u64 = 0;
    let mut t: usize = 0;
    while t < 64
        invariant
            t <= 64,
            result == transpose_rec(matrix, t as u64),
        decreases 64 - t,
    {
        let tt = t as u64;
        let bit = (matrix >> tt) & 1;
        let dst = (7 - (tt % 8)) * 8 + tt / 8;
        proof {
            assert(tt < 64 ==> ((matrix >> tt) & 1) < 2) by (bit_vector);
        }
        result = result | (bit << dst);
        t = t + 1;
    }
    result
}

/// Eight basis-image bytes packed into one 64-bit value, one byte per
/// basis vector in little-endian order.
pub open spec fn pack8(b0: u8, b1: u8, b2: u8, b3: u8, b4: u8, b5: u8, b6: u8, b7: u8) -> u64 {
    (b0 as u64) | ((b1 as u64) << 8) | ((b2 as u64) << 16) | ((b3 as u64) << 24) | ((b4 as u64)
        << 32) | ((b5 as u64) << 40) | ((b6 as u64) << 48) | ((b7 as u64) << 56)
}

/// The packed form of a sequence of eight basis-image bytes.
pub open spec fn pack_bases8(s: Seq<u8>) -> u64 {
    pack8(s[0], s[1], s[2], s[3], s[4], s[5], s[6], s[7])
}

/// Affine transformation of 8-bit lanes built from a caller-supplied
/// linear map: the eight basis-image bytes are packed and bit-transposed
/// once into the matrix layout the byte-wise affine transform expects.
pub struct GfniTransformation {
    pub bases_8x8: u64,
}

impl GfniTransformation {
    /// Build the transformation from the images of the eight basis
    /// vectors of an 8-bit scalar.
    pub fn new(transformation: &Vec<u8>) -> (r: GfniTransformation)
        requires
            transformation.len() == 8,
        ensures
            r.bases_8x8 == transpose_spec(pack_bases8(transformation@)),
    {
        let packed: u64 = (transformation[0] as u64) | ((transformation[1] as u64) << 8) | ((
        transformation[2] as u64) << 16) | ((transformation[3] as u64) << 24) | ((
        transformation[4] as u64) << 32) | ((transformation[5] as u64) << 40) | ((
        transformation[6] as u64) << 48) | ((transformation[7] as u64) << 56);
        GfniTransformation { bases_8x8: transpose_8x8(packed) }
    }

    /// Apply the stored 8x8 matrix to every byte lane of a word.
    pub fn transform(&self, data: M256) -> (r: M256)
        ensures
            forall|k: u128|
                k < 16 ==> u128_byte(r.lo, k) == gf_affine_byte(
                    self.bases_8x8,
                    u128_byte(data.lo, k),
                ),
            forall|k: u128|
                k < 16 ==> u128_byte(r.hi, k) == gf_affine_byte(
                    self.bases_8x8,
                    u128_byte(data.hi, k),
                ),
    {
        affine_transform(data, self.bases_8x8)
    }
}

/// Byte `k` of a limb shifted by `count` whole bytes (left for positive
/// counts, right for negative ones).
pub open spec fn shift_bytes_byte(x: u128, count: int, k: u128) -> u8 {
    if count >= 0 {
        if k >= count {
            u128_byte(x, (k - count) as u128)
        } else {
            0
        }
    } else {
        if k + (-count) < 16 {
            u128_byte(x, (k + (-count)) as u128)
        } else {
            0
        }
    }
}

fn shl_limb_bytes(x: u128, c: usize) -> (r: u128)
    requires
        c <= 8,
    ensures
        forall|k: u128|
            k < 16 ==> u128_byte(r, k) == (if k >= c {
                u128_byte(x, (k - c) as u128)
            } else {
                0
            }),
{
    let r = x << ((8 * c) as u128);
    proof {
        assert(((8 * c) as u128) == ((8 * (c as u128)) as u128));
        assert forall|k: u128|
            k < 16 implies u128_byte(r, k) == (if k >= c {
            u128_byte(x, (k - c) as u128)
        } else {
            0
        }) by {
            crate::bits::lemma_shl_bytes(x, c as u128, k);
        }
    }
    r
}

fn shr_limb_bytes(x: u128, c: usize) -> (r: u128)
    requires
        c <= 8,
    ensures
        forall|k: u128|
            k < 16 ==> u128_byte(r, k) == (if k + c < 16 {
                u128_byte(x, (k + c) as u128)
            } else {
                0
            }),
{
    let r = x >> ((8 * c) as u128);
    proof {
        assert(((8 * c) as u128) == ((8 * (c as u128)) as u128));
        assert forall|k: u128|
            k < 16 implies u128_byte(r, k) == (if k + c < 16 {
            u128_byte(x, (k + c) as u128)
        } else {
            0
        }) by {
            crate::bits::lemma_shr_bytes(x, c as u128, k);
        }
    }
    r
}

/// Shift every 128-bit limb of `value` by `count` whole bytes: positive
/// counts shift left, negative counts shift right. Counts outside
/// `-8..=8` belong to no supported configuration and are not accepted.
pub fn shift_bytes(value: M256, count: i32) -> (r: M256)
    requires
        -8 <= count <= 8,
    ensures
        forall|k: u128| k < 16 ==> u128_byte(r.lo, k) == shift_bytes_byte(value.lo, count as int, k),
        forall|k: u128| k < 16 ==> u128_byte(r.hi, k) == shift_bytes_byte(value.hi, count as int, k),
{
    if count >= 0 {
        let c = count as usize;
        M256 { lo: shl_limb_bytes(value.lo, c), hi: shl_limb_bytes(value.hi, c) }
    } else {
        let c = (-count) as usize;
        M256 { lo: shr_limb_bytes(value.lo, c), hi: shr_limb_bytes(value.hi, c) }
    }
}

/// Selecting alternating blocks: block index of byte `k` at block size
/// `2^(level-3)` bytes, and how the byte index splits around it.
proof fn lemma_blend_index(k: u128, l: u128)
    by (bit_vector)
    requires
        3 <= l <= 6,
        k < 16,
    ensures
        (l == 3 ==> (1u128 << ((l - 3) as u128)) == 1) && (l == 4 ==> (1u128 << ((l - 3) as u128))
            == 2) && (l == 5 ==> (1u128 << ((l - 3) as u128)) == 4) && (l == 6 ==> (1u128 << ((l
            - 3) as u128)) == 8),
        (1u128 << ((l - 2) as u128)) == 2 * (1u128 << ((l - 3) as u128)),
        ((k >> ((l - 3) as u128)) & 1 == 0) ==> k % (1u128 << ((l - 2) as u128)) == k % (1u128 << (
        (l - 3) as u128)),
        ((k >> ((l - 3) as u128)) & 1 != 0) ==> k % (1u128 << ((l - 2) as u128)) == (1u128 << ((l
            - 3) as u128)) + k % (1u128 << ((l - 3) as u128)),
{
}

/// Limb-level blend through the interleave masks: byte `k` comes from
/// `bl` when its block index is even and from `al` when it is odd.
proof fn lemma_blend_limb(al: u128, bl: u128, l: u128, k: u128)
    by (bit_vector)
    requires
        3 <= l <= 6,
        k < 16,
    ensures
        u128_byte((interleave_even_val(l) & bl) | (interleave_odd_val(l) & al), k) == (if (k >> ((l
            - 3) as u128)) & 1 == 0 {
            u128_byte(bl, k)
        } else {
            u128_byte(al, k)
        }),
{
}

/// Merge two words by selecting alternating blocks of `2^level` bits:
/// even-indexed blocks from `b`, odd-indexed blocks from `a`.
pub fn blend_odd_even(a: M256, b: M256, level: usize) -> (r: M256)
    requires
        3 <= level <= 6,
    ensures
        forall|k: u128|
            k < 16 ==> u128_byte(r.lo, k) == (if (k >> (((level - 3) as u128))) & 1 == 0 {
                u128_byte(b.lo, k)
            } else {
                u128_byte(a.lo, k)
            }),
        forall|k: u128|
            k < 16 ==> u128_byte(r.hi, k) == (if (k >> (((level - 3) as u128))) & 1 == 0 {
                u128_byte(b.hi, k)
            } else {
                u128_byte(a.hi, k)
            }),
{
    let even = interleave_even_mask(level);
    let odd = interleave_odd_mask(level);
    let r = M256 {
        lo: (even.lo & b.lo) | (odd.lo & a.lo),
        hi: (even.hi & b.hi) | (odd.hi & a.hi),
    };
    proof {
        assert forall|k: u128|
            k < 16 implies u128_byte(r.lo, k) == (if (k >> (((level - 3) as u128))) & 1 == 0 {
            u128_byte(b.lo, k)
        } else {
            u128_byte(a.lo, k)
        }) by {
            lemma_blend_limb(a.lo, b.lo, level as u128, k);
        }
        assert forall|k: u128|
            k < 16 implies u128_byte(r.hi, k) == (if (k >> (((level - 3) as u128))) & 1 == 0 {
            u128_byte(b.hi, k)
        } else {
            u128_byte(a.hi, k)
        }) by {
            lemma_blend_limb(a.hi, b.hi, level as u128, k);
        }
    }
    r
}

fn blend_range(values: &Vec<M256>, start: usize, cnt: usize) -> (r: M256)
    requires
        cnt == 1 || cnt == 2 || cnt == 4 || cnt == 8 || cnt == 16,
        start + cnt <= values.len(),
    ensures
        forall|k: u128|
            k < 16 ==> u128_byte(r.lo, k) == u128_byte(
                values@[start + ((k as int) % (cnt as int))].lo,
                k,
            ),
        forall|k: u128|
            k < 16 ==> u128_byte(r.hi, k) == u128_byte(
                values@[start + ((k as int) % (cnt as int))].hi,
                k,
            ),
    decreases cnt,
{
    if cnt == 1 {
        values[start]
    } else {
        let half = cnt / 2;
        let lo_part = blend_range(values, start, half);
        let hi_part = blend_range(values, start + half, half);
        let level: usize = if cnt == 2 {
            3
        } else if cnt == 4 {
            4
        } else if cnt == 8 {
            5
        } else {
            6
        };
        let r = blend_odd_even(hi_part, lo_part, level);
        proof {
            assert forall|k: u128|
                k < 16 implies u128_byte(r.lo, k) == u128_byte(
                values@[start + ((k as int) % (cnt as int))].lo,
                k,
            ) && u128_byte(r.hi, k) == u128_byte(
                values@[start + ((k as int) % (cnt as int))].hi,
                k,
            ) by {
                lemma_blend_index(k, level as u128);
            }
        }
        r
    }
}

/// Recombine candidate words into one result: byte position `p` of the
/// output is taken from `values[p mod values.len()]`. Exactly the lane
/// counts 1, 2, 4, 8 and 16 are supported.
pub fn blend_values(values: &Vec<M256>) -> (r: M256)
    requires
        values.len() == 1 || values.len() == 2 || values.len() == 4 || values.len() == 8
            || values.len() == 16,
    ensures
        forall|k: u128|
            k < 16 ==> u128_byte(r.lo, k) == u128_byte(
                values@[(k as int) % (values.len() as int)].lo,
                k,
            ),
        forall|k: u128|
            k < 16 ==> u128_byte(r.hi, k) == u128_byte(
                values@[(k as int) % (values.len() as int)].hi,
                k,
            ),
{
    blend_range(values, 0, values.len())
}

/// The 8x8 block at grid position `(i, j)` of an NxN decomposition: the
/// `j`-th byte of each of the eight basis images for output byte group
/// `i`, packed and transposed.
pub open spec fn nxn_matrix(bases: Seq<u128>, i: int, j: int) -> u64 {
    transpose_spec(
        pack_bases8(Seq::new(8, |k: int| u128_byte(bases[8 * i + k], (j as u128)))),
    )
}

/// XOR of the first `j` partial contributions to byte `k` of a limb: the
/// term for input-byte offset `jj` applies grid entry `(jj, k mod blocks)`
/// to input byte `jj` of byte `k`'s lane.
pub open spec fn nxn_fold(grid: Seq<Seq<u64>>, xl: u128, blocks: int, k: u128, j: int) -> u8
    decreases j,
{
    if j <= 0 {
        0
    } else {
        nxn_fold(grid, xl, blocks, k, j - 1) ^ gf_affine_byte(
            grid[j - 1][(k as int) % blocks],
            u128_byte(xl, ((k as int) / blocks * blocks + (j - 1)) as u128),
        )
    }
}

/// Affine transformation for packed scalars of `blocks * 8` bits: the
/// linear map is decomposed into a `blocks` x `blocks` grid of 8x8
/// matrices, each partial result is shifted into byte position, and the
/// candidates are blended into the final packed output.
pub struct GfniTransformationNxN {
    pub blocks: usize,
    pub bases_8x8: Vec<Vec<u64>>,
}

impl GfniTransformationNxN {
    /// The grid of 8x8 matrices as a sequence of rows.
    pub open spec fn grid(self) -> Seq<Seq<u64>> {
        Seq::new(self.bases_8x8@.len() as nat, |i: int| self.bases_8x8@[i]@)
    }

    /// The grid is square with one row and one column per scalar byte.
    pub open spec fn wf(self) -> bool {
        &&& (self.blocks == 2 || self.blocks == 4 || self.blocks == 8 || self.blocks == 16)
        &&& self.bases_8x8@.len() == self.blocks
        &&& forall|i: int| 0 <= i < self.blocks ==> self.bases_8x8@[i]@.len() == self.blocks
    }

    /// Build the grid from the images of the `8 * blocks` basis vectors
    /// of a scalar of `blocks` bytes.
    pub fn new(transformation: &Vec<u128>, blocks: usize) -> (r: GfniTransformationNxN)
        requires
            blocks == 2 || blocks == 4 || blocks == 8 || blocks == 16,
            transformation.len() == 8 * blocks,
        ensures
            r.blocks == blocks,
            r.wf(),
            forall|i: int, j: int|
                0 <= i < blocks && 0 <= j < blocks ==> r.grid()[i][j] == nxn_matrix(
                    transformation@,
                    i,
                    j,
                ),
    {
        let mut rows: Vec<Vec<u64>> = Vec::new();
        let mut i: usize = 0;
        while i < blocks
            invariant
                i <= blocks,
                rows@.len() == i,
                blocks == 2 || blocks == 4 || blocks == 8 || blocks == 16,
                transformation.len() == 8 * blocks,
                forall|a: int| 0 <= a < i ==> rows@[a]@.len() == blocks,
                forall|a: int, b: int|
                    0 <= a < i && 0 <= b < blocks ==> rows@[a]@[b] == nxn_matrix(
                        transformation@,
                        a,
                        b,
                    ),
            decreases blocks - i,
        {
            let mut row: Vec<u64> = Vec::new();
            let mut j: usize = 0;
            while j < blocks
                invariant
                    i < blocks,
                    j <= blocks,
                    row@.len() == j,
                    blocks == 2 || blocks == 4 || blocks == 8 || blocks == 16,
                    transformation.len() == 8 * blocks,
                    forall|b: int|
                        0 <= b < j ==> row@[b] == nxn_matrix(transformation@, i as int, b),
                decreases blocks - j,
            {
                let b0 = get_byte(transformation[8 * i], j);
                let b1 = get_byte(transformation[8 * i + 1], j);
                let b2 = get_byte(transformation[8 * i + 2], j);
                let b3 = get_byte(transformation[8 * i + 3], j);
                let b4 = get_byte(transformation[8 * i + 4], j);
                let b5 = get_byte(transformation[8 * i + 5], j);
                let b6 = get_byte(transformation[8 * i + 6], j);
                let b7 = get_byte(transformation[8 * i + 7], j);
                let packed: u64 = (b0 as u64) | ((b1 as u64) << 8) | ((b2 as u64) << 16) | ((
                b3 as u64) << 24) | ((b4 as u64) << 32) | ((b5 as u64) << 40) | ((b6 as u64)
                    << 48) | ((b7 as u64) << 56);
                let m = transpose_8x8(packed);
                proof {
                    let s = Seq::new(
                        8,
                        |k: int| u128_byte(transformation@[8 * (i as int) + k], (j as u128)),
                    );
                    assert(packed == pack_bases8(s));
                    assert(m == nxn_matrix(transformation@, i as int, j as int));
                }
                row.push(m);
                j = j + 1;
            }
            rows.push(row);
            i = i + 1;
        }
        GfniTransformationNxN { blocks, bases_8x8: rows }
    }
}

/// Index arithmetic for one lane: for byte `k` in the lane with output
/// position `i = k mod blocks`, the input byte for offset `j` sits at
/// `k - i + j`, inside the same limb.
proof fn lemma_lane_arith(k: int, blocks: int, i: int, j: int)
    requires
        blocks == 2 || blocks == 4 || blocks == 8,
        0 <= k < 16,
        0 <= i < blocks,
        0 <= j < blocks,
        k % blocks == i,
    ensures
        0 <= k - i + j < 16,
        (k / blocks) * blocks == k - i,
        k - i + j == k / blocks * blocks + j,
{
    if blocks == 2 {
        assert((k / 2) * 2 == k - (k % 2));
    } else if blocks == 4 {
        assert((k / 4) * 4 == k - (k % 4));
    } else {
        assert((k / 8) * 8 == k - (k % 8));
    }
}

impl GfniTransformationNxN {
    /// Apply the grid to every `blocks`-byte scalar lane of a word: for
    /// each output byte position, the partial affine images are shifted
    /// into place and XOR-accumulated, and the candidates are blended into
    /// one packed result.
    pub fn transform(&self, data: M256) -> (r: M256)
        requires
            self.wf(),
            self.blocks <= 8,
        ensures
            forall|k: u128|
                k < 16 ==> u128_byte(r.lo, k) == nxn_fold(
                    self.grid(),
                    data.lo,
                    self.blocks as int,
                    k,
                    self.blocks as int,
                ),
            forall|k: u128|
                k < 16 ==> u128_byte(r.hi, k) == nxn_fold(
                    self.grid(),
                    data.hi,
                    self.blocks as int,
                    k,
                    self.blocks as int,
                ),
    {
        let blocks = self.blocks;
        let ghost grid = self.grid();
        let mut packed_values: Vec<M256> = Vec::new();
        let mut i: usize = 0;
        while i < blocks
            invariant
                i <= blocks,
                packed_values@.len() == i,
                self.wf(),
                blocks == self.blocks,
                blocks <= 8,
                grid == self.grid(),
                forall|ii: int, k: u128|
                    0 <= ii < i && k < 16 && (k as int) % (blocks as int) == ii ==> u128_byte(
                        packed_values@[ii].lo,
                        k,
                    ) == nxn_fold(grid, data.lo, blocks as int, k, blocks as int),
                forall|ii: int, k: u128|
                    0 <= ii < i && k < 16 && (k as int) % (blocks as int) == ii ==> u128_byte(
                        packed_values@[ii].hi,
                        k,
                    ) == nxn_fold(grid, data.hi, blocks as int, k, blocks as int),
            decreases blocks - i,
        {
            let mut acc = M256 { lo: 0, hi: 0 };
            proof {
                assert forall|k: u128| k < 16 implies u128_byte(0u128, k) == 0 by {
                    lemma_zero_byte(k);
                }
            }
            let mut j: usize = 0;
            while j < blocks
                invariant
                    i < blocks,
                    j <= blocks,
                    self.wf(),
                    blocks == self.blocks,
                    blocks <= 8,
                    grid == self.grid(),
                    forall|k: u128|
                        k < 16 && (k as int) % (blocks as int) == i ==> u128_byte(acc.lo, k)
                            == nxn_fold(grid, data.lo, blocks as int, k, j as int),
                    forall|k: u128|
                        k < 16 && (k as int) % (blocks as int) == i ==> u128_byte(acc.hi, k)
                            == nxn_fold(grid, data.hi, blocks as int, k, j as int),
                decreases blocks - j,
            {
                let m = self.bases_8x8[j][i];
                let t = affine_transform(data, m);
                let c: i32 = (i as i32) - (j as i32);
                let sh = shift_bytes(t, c);
                let acc2 = acc.bitxor(sh);
                proof {
                    assert forall|k: u128|
                        k < 16 && (k as int) % (blocks as int) == i implies u128_byte(acc2.lo, k)
                        == nxn_fold(grid, data.lo, blocks as int, k, (j + 1) as int) && u128_byte(
                        acc2.hi,
                        k,
                    ) == nxn_fold(grid, data.hi, blocks as int, k, (j + 1) as int) by {
                        lemma_xor_byte(acc.lo, sh.lo, k);
                        lemma_xor_byte(acc.hi, sh.hi, k);
                        lemma_lane_arith(k as int, blocks as int, i as int, j as int);
                    }
                }
                acc = acc2;
                j = j + 1;
            }
            packed_values.push(acc);
            i = i + 1;
        }
        let r = blend_values(&packed_values);
        proof {
            assert forall|k: u128|
                k < 16 implies u128_byte(r.lo, k) == nxn_fold(
                grid,
                data.lo,
                blocks as int,
                k,
                blocks as int,
            ) && u128_byte(r.hi, k) == nxn_fold(grid, data.hi, blocks as int, k, blocks as int) by {
                assert(0 <= (k as int) % (blocks as int) < blocks as int);
            }
        }
        r
    }
}


/// The images of the standard basis vectors under the identity map on a
/// scalar of `blocks` bytes.
pub open spec fn identity_bases(blocks: int) -> Seq<u128> {
    Seq::new((8 * blocks) as nat, |t: int| (1u128 << (t as u128)))
}

proof fn bv_pow2_byte(t: u128, j: u128)
    by (bit_vector)
    requires
        t < 128,
        j < 16,
    ensures
        u128_byte(1u128 << t, j) == (if j == t / 8 {
            (1u8 << ((t % 8) as u8))
        } else {
            0u8
        }),
{
}

proof fn bv_identity_pack()
    by (bit_vector)
    ensures
        pack8(1, 2, 4, 8, 16, 32, 64, 128) == 0x8040201008040201u64,
        pack8(0, 0, 0, 0, 0, 0, 0, 0) == 0u64,
        transpose_spec(0x8040201008040201u64) == crate::gfni::IDENTITY_MAP,
        transpose_spec(0u64) == 0u64,
{
}

/// The grid built from the identity map holds the identity matrix on the
/// diagonal and the zero matrix everywhere else.
proof fn lemma_identity_grid_entry(blocks: int, i: int, j: int)
    requires
        blocks == 2 || blocks == 4 || blocks == 8 || blocks == 16,
        0 <= i < blocks,
        0 <= j < blocks,
    ensures
        nxn_matrix(identity_bases(blocks), i, j) == (if i == j {
            crate::gfni::IDENTITY_MAP
        } else {
            0u64
        }),
{
    let bases = identity_bases(blocks);
    let s = Seq::new(8, |k: int| u128_byte(bases[8 * i + k], (j as u128)));
    bv_identity_pack();
    assert forall|k: int| 0 <= k < 8 implies s[k] == (if i == j {
        (1u8 << ((k % 8) as u8))
    } else {
        0u8
    }) by {
        assert(bases[8 * i + k] == 1u128 << ((8 * i + k) as u128));
        bv_pow2_byte((8 * i + k) as u128, j as u128);
        assert((8 * i + k) / 8 == i && (8 * i + k) % 8 == k);
        assert(((8 * i + k) as u128) / 8 == (i as u128) && ((8 * i + k) as u128) % 8 == (
        k as u128));
    }
    if i == j {
        assert((1u8 << ((0int % 8) as u8)) == 1 && (1u8 << ((1int % 8) as u8)) == 2 && (1u8 << ((
        2int % 8) as u8)) == 4 && (1u8 << ((3int % 8) as u8)) == 8 && (1u8 << ((4int % 8) as u8))
            == 16 && (1u8 << ((5int % 8) as u8)) == 32 && (1u8 << ((6int % 8) as u8)) == 64 && (
        1u8 << ((7int % 8) as u8)) == 128) by (bit_vector);
        assert(pack_bases8(s) == pack8(1, 2, 4, 8, 16, 32, 64, 128));
    } else {
        assert(pack_bases8(s) == pack8(0, 0, 0, 0, 0, 0, 0, 0));
    }
}

proof fn lemma_identity_fold(grid: Seq<Seq<u64>>, xl: u128, blocks: int, k: u128, j: int)
    requires
        blocks == 2 || blocks == 4 || blocks == 8,
        k < 16,
        0 <= j <= blocks,
        forall|a: int, b: int|
            0 <= a < blocks && 0 <= b < blocks ==> grid[a][b] == (if a == b {
                crate::gfni::IDENTITY_MAP
            } else {
                0u64
            }),
    ensures
        nxn_fold(grid, xl, blocks, k, j) == (if j > (k as int) % blocks {
            u128_byte(xl, k)
        } else {
            0u8
        }),
    decreases j,
{
    if j > 0 {
        lemma_identity_fold(grid, xl, blocks, k, j - 1);
        let i = (k as int) % blocks;
        lemma_lane_arith(k as int, blocks, i, j - 1);
        let idx = ((k as int) / blocks * blocks + (j - 1)) as u128;
        if j - 1 == i {
            assert(idx == k);
            crate::gfni::lemma_affine_identity(u128_byte(xl, k));
            crate::bits::lemma_xor_zero(u128_byte(xl, k));
        } else {
            crate::gfni::lemma_affine_zero_matrix(u128_byte(xl, idx));
            crate::bits::lemma_xor_zero(nxn_fold(grid, xl, blocks, k, j - 1));
        }
    }
}

/// A transformation grid built from the identity linear map reproduces
/// its input: every byte of the folded output equals the input byte.
pub proof fn lemma_nxn_identity(t: GfniTransformationNxN, data: M256, k: u128)
    requires
        t.wf(),
        t.blocks == 2 || t.blocks == 4 || t.blocks == 8,
        forall|i: int, j: int|
            0 <= i < t.blocks && 0 <= j < t.blocks ==> t.grid()[i][j] == nxn_matrix(
                identity_bases(t.blocks as int),
                i,
                j,
            ),
        k < 16,
    ensures
        nxn_fold(t.grid(), data.lo, t.blocks as int, k, t.blocks as int) == u128_byte(data.lo, k),
        nxn_fold(t.grid(), data.hi, t.blocks as int, k, t.blocks as int) == u128_byte(data.hi, k),
{
    let blocks = t.blocks as int;
    assert forall|a: int, b: int|
        0 <= a < blocks && 0 <= b < blocks implies t.grid()[a][b] == (if a == b {
        crate::gfni::IDENTITY_MAP
    } else {
        0u64
    }) by {
        lemma_identity_grid_entry(blocks, a, b);
    }
    lemma_identity_fold(t.grid(), data.lo, blocks, k, blocks);
    lemma_identity_fold(t.grid(), data.hi, blocks, k, blocks);
}

} // verus!
