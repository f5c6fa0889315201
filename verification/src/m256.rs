use vstd::prelude::*;

verus! {

/// 256-bit value that is used for 256-bit wide operations.
///
/// The value is a flat bit vector held as two 128-bit limbs in little-endian
/// order: bit `i` of the word is bit `i` of `lo` for `i < 128` and bit
/// `i - 128` of `hi` otherwise.
#[derive(Clone, Copy, Debug, PartialEq, Eq, Structural)]
pub struct M256 {
    pub lo: u128,
    pub hi: u128,
}

/// Plain two-limb array carrier for the word's external representation.
pub struct AlignedData(pub [u128; 2]);

impl M256 {
    /// The all-zero word.
    pub fn zero() -> (r: M256)
        ensures
            r.lo == 0,
            r.hi == 0,
    {
        M256 { lo: 0, hi: 0 }
    }

    /// The word built from the limb pair `(0, 1)`.
    pub fn one() -> (r: M256)
        ensures
            r.lo == 0,
            r.hi == 1,
    {
        M256 { lo: 0, hi: 1 }
    }

    pub fn bitand(self, rhs: M256) -> (r: M256)
        ensures
            r.lo == self.lo & rhs.lo,
            r.hi == self.hi & rhs.hi,
    {
        M256 { lo: self.lo & rhs.lo, hi: self.hi & rhs.hi }
    }

    pub fn bitor(self, rhs: M256) -> (r: M256)
        ensures
            r.lo == self.lo | rhs.lo,
            r.hi == self.hi | rhs.hi,
    {
        M256 { lo: self.lo | rhs.lo, hi: self.hi | rhs.hi }
    }

    pub fn bitxor(self, rhs: M256) -> (r: M256)
        ensures
            r.lo == self.lo ^ rhs.lo,
            r.hi == self.hi ^ rhs.hi,
    {
        M256 { lo: self.lo ^ rhs.lo, hi: self.hi ^ rhs.hi }
    }

    pub fn bitnot(self) -> (r: M256)
        ensures
            r.lo == !self.lo,
            r.hi == !self.hi,
    {
        M256 { lo: !self.lo, hi: !self.hi }
    }

    /// Right shift of the full 256-bit value by `rhs` bits.
    ///
    /// A count of zero is the identity; a count of 256 or more clears the
    /// word; otherwise the two limbs are recombined through a carry term.
    pub fn shr(self, rhs: usize) -> (r: M256)
        ensures
            rhs == 0 ==> r == self,
            rhs >= 256 ==> r.lo == 0 && r.hi == 0,
            128 <= rhs < 256 ==> r.lo == self.hi >> ((rhs - 128) as u128) && r.hi == 0,
            0 < rhs < 128 ==> r.lo == (self.lo >> (rhs as u128)) | (self.hi << ((128 - rhs)
                as u128)) && r.hi == self.hi >> (rhs as u128),
    {
        if rhs >= 256 {
            M256 { lo: 0, hi: 0 }
        } else if rhs == 0 {
            self
        } else if rhs >= 128 {
            M256 { lo: self.hi >> ((rhs - 128) as u128), hi: 0 }
        } else {
            M256 {
                lo: (self.lo >> (rhs as u128)) | (self.hi << ((128 - rhs) as u128)),
                hi: self.hi >> (rhs as u128),
            }
        }
    }

    /// Left shift of the full 256-bit value by `rhs` bits.
    pub fn shl(self, rhs: usize) -> (r: M256)
        ensures
            rhs == 0 ==> r == self,
            rhs >= 256 ==> r.lo == 0 && r.hi == 0,
            128 <= rhs < 256 ==> r.hi == self.lo << ((rhs - 128) as u128) && r.lo == 0,
            0 < rhs < 128 ==> r.hi == (self.hi << (rhs as u128)) | (self.lo >> ((128 - rhs)
                as u128)) && r.lo == self.lo << (rhs as u128),
    {
        if rhs >= 256 {
            M256 { lo: 0, hi: 0 }
        } else if rhs == 0 {
            self
        } else if rhs >= 128 {
            M256 { lo: 0, hi: self.lo << ((rhs - 128) as u128) }
        } else {
            M256 {
                lo: self.lo << (rhs as u128),
                hi: (self.hi << (rhs as u128)) | (self.lo >> ((128 - rhs) as u128)),
            }
        }
    }

    /// Constant-time equality: 1 when the words are equal, 0 otherwise,
    /// with no data-dependent branching.
    pub fn ct_eq(&self, other: &M256) -> (r: u8)
        ensures
            r == 1 <==> *self == *other,
            r == 0 || r == 1,
    {
        let e1 = ct_eq_u128(&self.lo, &other.lo);
        let e2 = ct_eq_u128(&self.hi, &other.hi);
        proof {
            assert((e1 < 2 && e2 < 2) ==> ((e1 & e2) < 2 && ((e1 & e2) == 1 <==> (e1 == 1 && e2
                == 1)))) by (bit_vector);
        }
        e1 & e2
    }

    /// A word drawn uniformly at random over the full bit width.
    pub fn random() -> M256 {
        random_m256()
    }

    /// All-zero for bit 0, all-one for bit 1; other inputs are not accepted.
    pub fn fill_with_bit(val: u8) -> (r: M256)
        requires
            val == 0 || val == 1,
        ensures
            val == 0 ==> r.lo == 0 && r.hi == 0,
            val == 1 ==> r.lo == u128::MAX && r.hi == u128::MAX,
    {
        if val == 0 {
            M256 { lo: 0, hi: 0 }
        } else {
            M256 { lo: u128::MAX, hi: u128::MAX }
        }
    }

    pub fn to_aligned(self) -> (r: AlignedData)
        ensures
            r.0[0] == self.lo,
            r.0[1] == self.hi,
    {
        AlignedData([self.lo, self.hi])
    }

    pub fn from_aligned(data: &AlignedData) -> (r: M256)
        ensures
            r.lo == data.0[0],
            r.hi == data.0[1],
    {
        M256 { lo: data.0[0], hi: data.0[1] }
    }
}

/// Relies on subtle's `ConstantTimeEq` for `u128`: `ct_eq(a, b).unwrap_u8()`
/// is 1 when the two values are equal and 0 otherwise, computed without
/// data-dependent branches.
#[verifier::external_body]
fn ct_eq_u128(a: &u128, b: &u128) -> (r: u8)
    ensures
        r == 1 <==> a == b,
        r == 0 || r == 1,
{
    subtle::ConstantTimeEq::ct_eq(a, b).unwrap_u8()
}

/// Relies on rand's `random`: draws a uniformly random pair of 128-bit
/// limbs from the thread-local generator. Nothing is promised of the value.
#[verifier::external_body]
fn random_m256() -> M256 {
    let v: [u128; 2] = rand::random();
    M256 { lo: v[0], hi: v[1] }
}

impl Default for M256 {
    /// The default word is the all-zero word.
    fn default() -> (r: M256)
        ensures
            r.lo == 0,
            r.hi == 0,
    {
        M256 { lo: 0, hi: 0 }
    }
}

impl From<[u128; 2]> for M256 {
    /// The limb pair `[low, high]` as a word.
    fn from(value: [u128; 2]) -> (r: M256) {
        M256 { lo: value[0], hi: value[1] }
    }
}

impl vstd::std_specs::convert::FromSpecImpl<[u128; 2]> for M256 {
    open spec fn obeys_from_spec() -> bool {
        true
    }

    open spec fn from_spec(value: [u128; 2]) -> M256 {
        M256 { lo: value[0], hi: value[1] }
    }
}

impl From<u128> for M256 {
    /// A single limb fills the low half; the high half is zero.
    fn from(value: u128) -> (r: M256) {
        M256 { lo: value, hi: 0 }
    }
}

impl vstd::std_specs::convert::FromSpecImpl<u128> for M256 {
    open spec fn obeys_from_spec() -> bool {
        true
    }

    open spec fn from_spec(value: u128) -> M256 {
        M256 { lo: value, hi: 0 }
    }
}

impl From<u64> for M256 {
    fn from(value: u64) -> (r: M256) {
        M256 { lo: value as u128, hi: 0 }
    }
}

impl vstd::std_specs::convert::FromSpecImpl<u64> for M256 {
    open spec fn obeys_from_spec() -> bool {
        true
    }

    open spec fn from_spec(value: u64) -> M256 {
        M256 { lo: value as u128, hi: 0 }
    }
}

impl From<u32> for M256 {
    fn from(value: u32) -> (r: M256) {
        M256 { lo: value as u128, hi: 0 }
    }
}

impl vstd::std_specs::convert::FromSpecImpl<u32> for M256 {
    open spec fn obeys_from_spec() -> bool {
        true
    }

    open spec fn from_spec(value: u32) -> M256 {
        M256 { lo: value as u128, hi: 0 }
    }
}

impl From<u16> for M256 {
    fn from(value: u16) -> (r: M256) {
        M256 { lo: value as u128, hi: 0 }
    }
}

impl vstd::std_specs::convert::FromSpecImpl<u16> for M256 {
    open spec fn obeys_from_spec() -> bool {
        true
    }

    open spec fn from_spec(value: u16) -> M256 {
        M256 { lo: value as u128, hi: 0 }
    }
}

impl From<u8> for M256 {
    fn from(value: u8) -> (r: M256) {
        M256 { lo: value as u128, hi: 0 }
    }
}

impl vstd::std_specs::convert::FromSpecImpl<u8> for M256 {
    open spec fn obeys_from_spec() -> bool {
        true
    }

    open spec fn from_spec(value: u8) -> M256 {
        M256 { lo: value as u128, hi: 0 }
    }
}

/// Mask whose even-indexed blocks of `2^level` bits are all ones, repeated
/// on both limbs.
pub open spec fn interleave_even_val(level: u128) -> u128 {
    if level == 0 {
        0x55555555555555555555555555555555u128
    } else if level == 1 {
        0x33333333333333333333333333333333u128
    } else if level == 2 {
        0x0f0f0f0f0f0f0f0f0f0f0f0f0f0f0f0fu128
    } else if level == 3 {
        0x00ff00ff00ff00ff00ff00ff00ff00ffu128
    } else if level == 4 {
        0x0000ffff0000ffff0000ffff0000ffffu128
    } else if level == 5 {
        0x00000000ffffffff00000000ffffffffu128
    } else {
        0x0000000000000000ffffffffffffffffu128
    }
}

/// Mask selecting the odd-indexed blocks of `2^level` bits.
pub open spec fn interleave_odd_val(level: u128) -> u128 {
    !interleave_even_val(level)
}

/// Precomputed mask selecting even-indexed blocks of `2^level` bits from a
/// pair of words.
pub fn interleave_even_mask(level: usize) -> (r: M256)
    requires
        level < 7,
    ensures
        r.lo == interleave_even_val(level as u128),
        r.hi == interleave_even_val(level as u128),
{
    let v: u128 = if level == 0 {
        0x55555555555555555555555555555555u128
    } else if level == 1 {
        0x33333333333333333333333333333333u128
    } else if level == 2 {
        0x0f0f0f0f0f0f0f0f0f0f0f0f0f0f0f0fu128
    } else if level == 3 {
        0x00ff00ff00ff00ff00ff00ff00ff00ffu128
    } else if level == 4 {
        0x0000ffff0000ffff0000ffff0000ffffu128
    } else if level == 5 {
        0x00000000ffffffff00000000ffffffffu128
    } else {
        0x0000000000000000ffffffffffffffffu128
    };
    M256 { lo: v, hi: v }
}

/// Precomputed mask selecting odd-indexed blocks of `2^level` bits from a
/// pair of words.
pub fn interleave_odd_mask(level: usize) -> (r: M256)
    requires
        level < 7,
    ensures
        r.lo == interleave_odd_val(level as u128),
        r.hi == interleave_odd_val(level as u128),
{
    let even = interleave_even_mask(level);
    M256 { lo: !even.lo, hi: !even.hi }
}

/// The bitwise algebra of words: AND distributes over OR, De Morgan's law
/// holds, and XOR of a word with itself clears it.
pub proof fn lemma_word_algebra(x: M256, y: M256, z: M256)
    ensures
        x.bitand_spec(y.bitor_spec(z)) == x.bitand_spec(y).bitor_spec(x.bitand_spec(z)),
        x.bitand_spec(y).not_spec() == x.not_spec().bitor_spec(y.not_spec()),
        x.bitxor_spec(x) == (M256 { lo: 0, hi: 0 }),
{
    let xl = x.lo;
    let xh = x.hi;
    let yl = y.lo;
    let yh = y.hi;
    let zl = z.lo;
    let zh = z.hi;
    assert(xl & (yl | zl) == (xl & yl) | (xl & zl)) by (bit_vector);
    assert(xh & (yh | zh) == (xh & yh) | (xh & zh)) by (bit_vector);
    assert(!(xl & yl) == !xl | !yl) by (bit_vector);
    assert(!(xh & yh) == !xh | !yh) by (bit_vector);
    assert(xl ^ xl == 0) by (bit_vector);
    assert(xh ^ xh == 0) by (bit_vector);
}

impl M256 {
    /// The AND of two words, as a value.
    pub open spec fn bitand_spec(self, rhs: M256) -> M256 {
        M256 { lo: self.lo & rhs.lo, hi: self.hi & rhs.hi }
    }

    /// The OR of two words, as a value.
    pub open spec fn bitor_spec(self, rhs: M256) -> M256 {
        M256 { lo: self.lo | rhs.lo, hi: self.hi | rhs.hi }
    }

    /// The XOR of two words, as a value.
    pub open spec fn bitxor_spec(self, rhs: M256) -> M256 {
        M256 { lo: self.lo ^ rhs.lo, hi: self.hi ^ rhs.hi }
    }

    /// The complement of a word, as a value.
    pub open spec fn not_spec(self) -> M256 {
        M256 { lo: !self.lo, hi: !self.hi }
    }
}

} // verus!
