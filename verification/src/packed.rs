use vstd::prelude::*;

use crate::bits::u128_byte;
use crate::gfni::{
    affine_transform, gf2p8affineinv_epi64_epi8, gf2p8mul_epi8, gf_affine_byte, gfni_inv_byte,
    gfni_mul_byte, lemma_affine_identity, IDENTITY_MAP, AES_TO_TOWER_MAP, TOWER_TO_AES_MAP,
};
use crate::m256::M256;

verus! {

/// Pair of basis-change matrices keyed to a packed field family:
/// `to_aes_map` takes the field's own basis to the AES-native basis and
/// `from_aes_map` takes it back. For fields already in the AES-native
/// basis both maps are the identity and the conversions are skipped.
#[derive(Clone, Copy, Debug, PartialEq, Eq, Structural)]
pub struct GfniStrategy {
    pub to_aes_map: u64,
    pub from_aes_map: u64,
}

impl GfniStrategy {
    /// The strategy for fields in the canonical tower basis.
    pub fn binary_tower() -> (r: GfniStrategy)
        ensures
            r.to_aes_map == TOWER_TO_AES_MAP,
            r.from_aes_map == AES_TO_TOWER_MAP,
    {
        GfniStrategy { to_aes_map: TOWER_TO_AES_MAP, from_aes_map: AES_TO_TOWER_MAP }
    }

    /// The strategy for fields already in the AES-native basis.
    pub fn aes_native() -> (r: GfniStrategy)
        ensures
            r.to_aes_map == IDENTITY_MAP,
            r.from_aes_map == IDENTITY_MAP,
    {
        GfniStrategy { to_aes_map: IDENTITY_MAP, from_aes_map: IDENTITY_MAP }
    }
}

/// A 256-bit word reinterpreted as packed field-element lanes: lane `i` of
/// width `w` bits occupies bit range `[i*w, (i+1)*w)` of the word in
/// little-endian order.
#[derive(Clone, Copy, Debug, PartialEq, Eq, Structural)]
pub struct PackedPrimitiveType {
    pub value: M256,
}

/// The limb pattern produced by repeatedly doubling a scalar of
/// `2^level` bits until it fills 128 bits.
pub open spec fn spread(v: u128, level: usize) -> u128
    decreases 7 - level,
{
    if level >= 7 {
        v
    } else {
        spread(v | (v << ((1u8 << level) as u128)), (level + 1) as usize)
    }
}

impl PackedPrimitiveType {
    /// Wrap a word as a packed value.
    pub fn from_underlier(value: M256) -> (r: PackedPrimitiveType)
        ensures
            r.value == value,
    {
        PackedPrimitiveType { value }
    }

    /// The underlying word.
    pub fn to_underlier(self) -> (r: M256)
        ensures
            r == self.value,
    {
        self.value
    }

    /// Fill every lane of the word with one scalar of `2^tower_level` bits
    /// by repeatedly doubling the bit pattern up to the limb width.
    pub fn broadcast(scalar: u128, tower_level: usize) -> (r: PackedPrimitiveType)
        requires
            tower_level <= 7,
        ensures
            r.value.lo == spread(scalar, tower_level),
            r.value.hi == spread(scalar, tower_level),
    {
        let mut v = scalar;
        let mut n = tower_level;
        while n < 7
            invariant
                n <= 7,
                spread(v, n) == spread(scalar, tower_level),
            decreases 7 - n,
        {
            proof {
                assert(n < 7 ==> (1u8 << n) <= 64) by (bit_vector);
            }
            v = v | (v << ((1u8 << n) as u128));
            n = n + 1;
        }
        PackedPrimitiveType { value: M256 { lo: v, hi: v } }
    }

    /// Lane-wise field multiplication: convert both operands to the
    /// AES-native basis when the strategy's input map is not the identity,
    /// multiply byte lanes in that basis, and convert the product back when
    /// the output map is not the identity.
    pub fn mul(self, rhs: PackedPrimitiveType, strategy: &GfniStrategy) -> (r:
        PackedPrimitiveType)
        ensures
            forall|k: u128|
                k < 16 ==> u128_byte(r.value.lo, k) == gfni_mul_byte(
                    u128_byte(self.value.lo, k),
                    u128_byte(rhs.value.lo, k),
                    strategy.to_aes_map,
                    strategy.from_aes_map,
                ),
            forall|k: u128|
                k < 16 ==> u128_byte(r.value.hi, k) == gfni_mul_byte(
                    u128_byte(self.value.hi, k),
                    u128_byte(rhs.value.hi, k),
                    strategy.to_aes_map,
                    strategy.from_aes_map,
                ),
    {
        let lhs_gfni = if strategy.to_aes_map != IDENTITY_MAP {
            affine_transform(self.value, strategy.to_aes_map)
        } else {
            proof {
                lemma_affine_all_bytes_identity(self.value);
            }
            self.value
        };
        let rhs_gfni = if strategy.to_aes_map != IDENTITY_MAP {
            affine_transform(rhs.value, strategy.to_aes_map)
        } else {
            proof {
                lemma_affine_all_bytes_identity(rhs.value);
            }
            rhs.value
        };
        let prod_gfni = gf2p8mul_epi8(lhs_gfni, rhs_gfni);
        let out = if strategy.from_aes_map != IDENTITY_MAP {
            affine_transform(prod_gfni, strategy.from_aes_map)
        } else {
            proof {
                lemma_affine_all_bytes_identity(prod_gfni);
            }
            prod_gfni
        };
        PackedPrimitiveType { value: out }
    }

    /// Lane-wise multiplicative inverse with zero mapped to zero: convert
    /// to the AES-native basis when needed, then invert and convert back in
    /// one fused step.
    pub fn invert_or_zero(self, strategy: &GfniStrategy) -> (r: PackedPrimitiveType)
        ensures
            forall|k: u128|
                k < 16 ==> u128_byte(r.value.lo, k) == gfni_inv_byte(
                    u128_byte(self.value.lo, k),
                    strategy.to_aes_map,
                    strategy.from_aes_map,
                ),
            forall|k: u128|
                k < 16 ==> u128_byte(r.value.hi, k) == gfni_inv_byte(
                    u128_byte(self.value.hi, k),
                    strategy.to_aes_map,
                    strategy.from_aes_map,
                ),
    {
        let val_gfni = if strategy.to_aes_map != IDENTITY_MAP {
            affine_transform(self.value, strategy.to_aes_map)
        } else {
            proof {
                lemma_affine_all_bytes_identity(self.value);
            }
            self.value
        };
        let inv_gfni = gf2p8affineinv_epi64_epi8(val_gfni, strategy.from_aes_map);
        PackedPrimitiveType { value: inv_gfni }
    }
}

/// The identity matrix leaves every byte of a word unchanged.
proof fn lemma_affine_all_bytes_identity(w: M256)
    ensures
        forall|k: u128|
            k < 16 ==> u128_byte(w.lo, k) == gf_affine_byte(IDENTITY_MAP, u128_byte(w.lo, k)),
        forall|k: u128|
            k < 16 ==> u128_byte(w.hi, k) == gf_affine_byte(IDENTITY_MAP, u128_byte(w.hi, k)),
{
    assert forall|k: u128|
        k < 16 implies u128_byte(w.lo, k) == gf_affine_byte(
        IDENTITY_MAP,
        u128_byte(w.lo, k),
    ) by {
        lemma_affine_identity(u128_byte(w.lo, k));
    }
    assert forall|k: u128|
        k < 16 implies u128_byte(w.hi, k) == gf_affine_byte(
        IDENTITY_MAP,
        u128_byte(w.hi, k),
    ) by {
        lemma_affine_identity(u128_byte(w.hi, k));
    }
}

} // verus!
