use gfni_tower::gfni::IDENTITY_MAP;
use gfni_tower::m256::M256;
use gfni_tower::transform::{
    blend_odd_even, blend_values, shift_bytes, transpose_8x8, GfniTransformation,
    GfniTransformationNxN,
};

fn byte(w: &M256, p: usize) -> u8 {
    if p < 16 {
        (w.lo >> (8 * p)) as u8
    } else {
        (w.hi >> (8 * (p - 16))) as u8
    }
}

fn sample_words() -> Vec<M256> {
    vec![
        M256::from([0x0123456789abcdef0011223344556677u128, 0x8899aabbccddeeff0123456789abcdefu128]),
        M256::from([0xdeadbeefdeadbeefdeadbeefdeadbeefu128, 0x0102030405060708090a0b0c0d0e0f10u128]),
        M256::from([u128::MAX, 0]),
        M256::from([0, u128::MAX]),
        M256::zero(),
    ]
}

#[test]
fn test_transpose() {
    assert_eq!(transpose_8x8(0x8040201008040201), IDENTITY_MAP);
    assert_eq!(transpose_8x8(0), 0);
    for m in [0x123456789abcdef0u64, 0xdeadbeefcafef00du64, u64::MAX] {
        let t = transpose_8x8(m);
        for i in 0..8 {
            for j in 0..8 {
                assert_eq!((t >> ((7 - j) * 8 + i)) & 1, (m >> (8 * i + j)) & 1);
            }
        }
        // matrix bit (i, j) lands at (7-j, i); doing that twice reverses
        // every bit position
        assert_eq!(transpose_8x8(t), m.reverse_bits());
    }
}

#[test]
fn test_transformation_applies_linear_map() {
    // the map sending bit t of a byte to bit (t+1) mod 8: a bit rotation
    let bases: Vec<u8> = (0..8).map(|t| 1u8 << ((t + 1) % 8)).collect();
    let tr = GfniTransformation::new(&bases);
    for x in 0..=255u8 {
        let mut expected = 0u8;
        for t in 0..8 {
            if (x >> t) & 1 == 1 {
                expected ^= bases[t];
            }
        }
        let w = M256::from(x as u128);
        let out = tr.transform(w);
        assert_eq!(byte(&out, 0), expected);
        assert_eq!(expected, x.rotate_left(1));
    }
}

#[test]
fn test_transform_linearity() {
    let bases: Vec<u8> = vec![0x3e, 0x98, 0x4e, 0x96, 0xea, 0x6a, 0x50, 0x31];
    let tr = GfniTransformation::new(&bases);
    let words = sample_words();
    for x in &words {
        for y in &words {
            let both = tr.transform(x.bitxor(*y));
            let split = tr.transform(*x).bitxor(tr.transform(*y));
            assert_eq!(both, split);
        }
    }
    assert_eq!(tr.transform(M256::zero()), M256::zero());
}

#[test]
fn test_shift_bytes() {
    let w = M256::from([0x0f0e0d0c0b0a09080706050403020100u128, 0x1f1e1d1c1b1a19181716151413121110u128]);
    for c in -8i32..=8 {
        let s = shift_bytes(w, c);
        for p in 0..32usize {
            let q = (p % 16) as i32;
            let expected = if c >= 0 {
                if q >= c { byte(&w, (p as i32 - c) as usize) } else { 0 }
            } else if q - c < 16 {
                byte(&w, (p as i32 - c) as usize)
            } else {
                0
            };
            assert_eq!(byte(&s, p), expected, "count {c} byte {p}");
        }
    }
}

#[test]
fn test_blend_values() {
    let words = sample_words();
    for n in [1usize, 2, 4] {
        let vals: Vec<M256> = (0..n).map(|i| words[i % words.len()]).collect();
        let r = blend_values(&vals);
        for p in 0..32usize {
            assert_eq!(byte(&r, p), byte(&vals[p % n], p));
        }
    }
    let vals8: Vec<M256> = (0..8).map(|i| M256::from([(i as u128) * 0x01010101010101010101010101010101, (i as u128) * 0x01010101010101010101010101010101])).collect();
    let r = blend_values(&vals8);
    for p in 0..32usize {
        assert_eq!(byte(&r, p) as usize, p % 8);
    }
}

#[test]
fn test_blend_odd_even() {
    let a = M256::fill_with_bit(1);
    let b = M256::zero();
    let r = blend_odd_even(a, b, 3);
    for p in 0..32usize {
        let expected = if (p % 16) % 2 == 0 { 0x00 } else { 0xff };
        assert_eq!(byte(&r, p), expected);
    }
}

fn identity_bases(blocks: usize) -> Vec<u128> {
    (0..8 * blocks).map(|t| 1u128 << t).collect()
}

#[test]
fn test_nxn_identity() {
    for blocks in [2usize, 4, 8] {
        let tr = GfniTransformationNxN::new(&identity_bases(blocks), blocks);
        for w in sample_words() {
            assert_eq!(tr.transform(w), w, "blocks {blocks}");
        }
    }
}

#[test]
fn test_nxn_inverse_pair() {
    for blocks in [2usize, 4, 8] {
        let width = 8 * blocks;
        // bit rotation of each scalar lane: an invertible linear map
        let fwd: Vec<u128> = (0..width).map(|t| 1u128 << ((t + 1) % width)).collect();
        let bwd: Vec<u128> = (0..width).map(|t| 1u128 << ((t + width - 1) % width)).collect();
        let tf = GfniTransformationNxN::new(&fwd, blocks);
        let tb = GfniTransformationNxN::new(&bwd, blocks);
        for w in sample_words() {
            assert_eq!(tb.transform(tf.transform(w)), w, "blocks {blocks}");
            assert_eq!(tf.transform(tb.transform(w)), w, "blocks {blocks}");
        }
    }
}

#[test]
fn test_nxn_matches_scalar_rotation() {
    // with the rotate-by-one-bit map, each 16-bit lane rotates left by one
    let blocks = 2usize;
    let width = 16usize;
    let fwd: Vec<u128> = (0..width).map(|t| 1u128 << ((t + 1) % width)).collect();
    let tr = GfniTransformationNxN::new(&fwd, blocks);
    let lanes: [u16; 4] = [0x8001, 0x1234, 0xffff, 0x0001];
    let mut lo = 0u128;
    for (i, l) in lanes.iter().enumerate() {
        lo |= (*l as u128) << (16 * i);
    }
    let w = M256::from([lo, 0]);
    let out = tr.transform(w);
    for (i, l) in lanes.iter().enumerate() {
        let got = ((out.lo >> (16 * i)) & 0xffff) as u16;
        assert_eq!(got, l.rotate_left(1), "lane {i}");
    }
}
