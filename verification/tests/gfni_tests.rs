use gfni_tower::gfni::{affine_transform, AES_TO_TOWER_MAP, IDENTITY_MAP, TOWER_TO_AES_MAP};
use gfni_tower::m256::M256;
use gfni_tower::packed::{GfniStrategy, PackedPrimitiveType};

fn ref_alpha(c: u8, bits: u32) -> u8 {
    if bits == 1 {
        c
    } else {
        let half = bits / 2;
        let mask = (1u8 << half) - 1;
        let ch = c >> half;
        let cl = c & mask;
        ((cl ^ ref_alpha(ch, half)) << half) | ch
    }
}

fn ref_tower_mul(a: u8, b: u8, bits: u32) -> u8 {
    if bits == 1 {
        a & b
    } else {
        let half = bits / 2;
        let mask = (1u8 << half) - 1;
        let (ah, al) = (a >> half, a & mask);
        let (bh, bl) = (b >> half, b & mask);
        let t = ref_tower_mul(ah, bh, half);
        let hi = ref_tower_mul(ah, bl, half) ^ ref_tower_mul(al, bh, half) ^ ref_alpha(t, half);
        let lo = ref_tower_mul(al, bl, half) ^ t;
        (hi << half) | lo
    }
}

fn ref_aes_mul(a: u8, b: u8) -> u8 {
    let mut p: u16 = 0;
    for i in 0..8 {
        if (b >> i) & 1 == 1 {
            p ^= (a as u16) << i;
        }
    }
    for i in (8..15).rev() {
        if (p >> i) & 1 == 1 {
            p ^= 0x11b << (i - 8);
        }
    }
    p as u8
}

fn lane0(w: &M256) -> u8 {
    w.lo as u8
}

#[test]
fn test_basis_change_round_trip() {
    for b in 0..=255u8 {
        let w = PackedPrimitiveType::broadcast(b as u128, 3).value;
        let to_aes = affine_transform(w, TOWER_TO_AES_MAP);
        let back = affine_transform(to_aes, AES_TO_TOWER_MAP);
        assert_eq!(back, w);
        let to_tower = affine_transform(w, AES_TO_TOWER_MAP);
        let back2 = affine_transform(to_tower, TOWER_TO_AES_MAP);
        assert_eq!(back2, w);
        assert_eq!(affine_transform(w, IDENTITY_MAP), w);
    }
}

#[test]
fn test_multiply_matches_reference() {
    let strategy = GfniStrategy::binary_tower();
    for a in 0..=255u8 {
        let pa = PackedPrimitiveType::broadcast(a as u128, 3);
        for b in 0..=255u8 {
            let pb = PackedPrimitiveType::broadcast(b as u128, 3);
            let prod = pa.mul(pb, &strategy);
            assert_eq!(lane0(&prod.value), ref_tower_mul(a, b, 8));
        }
    }
}

#[test]
fn test_multiply_aes_native() {
    let strategy = GfniStrategy::aes_native();
    for a in 0..=255u8 {
        let pa = PackedPrimitiveType::broadcast(a as u128, 3);
        for b in 0..=255u8 {
            let pb = PackedPrimitiveType::broadcast(b as u128, 3);
            let prod = pa.mul(pb, &strategy);
            assert_eq!(lane0(&prod.value), ref_aes_mul(a, b));
        }
    }
}

#[test]
fn test_invert_or_zero() {
    let strategy = GfniStrategy::binary_tower();
    for a in 0..=255u8 {
        let pa = PackedPrimitiveType::broadcast(a as u128, 3);
        let inv = pa.invert_or_zero(&strategy);
        if a == 0 {
            assert_eq!(inv.value, M256::zero());
        } else {
            let prod = pa.mul(inv, &strategy);
            assert_eq!(lane0(&prod.value), 1);
            for p in 1..32 {
                let shifted = prod.value.shr(8 * p);
                assert_eq!(lane0(&shifted), 1);
            }
        }
    }
}

#[test]
fn test_invert_aes_native() {
    let strategy = GfniStrategy::aes_native();
    for a in 1..=255u8 {
        let pa = PackedPrimitiveType::broadcast(a as u128, 3);
        let inv = pa.invert_or_zero(&strategy);
        let prod = pa.mul(inv, &strategy);
        assert_eq!(lane0(&prod.value), 1);
    }
}
