use gfni_tower::m256::{interleave_even_mask, interleave_odd_mask, M256};
use gfni_tower::packed::PackedPrimitiveType;

fn byte(w: &M256, p: usize) -> u8 {
    if p < 16 {
        (w.lo >> (8 * p)) as u8
    } else {
        (w.hi >> (8 * (p - 16))) as u8
    }
}

#[test]
fn test_constants() {
    assert_eq!(M256::default(), M256::zero());
    assert_eq!(M256::from(0u128), M256::zero());
    assert_eq!(M256::from([0u128, 1u128]), M256::one());
}

#[test]
fn test_fill_with_bit() {
    assert_eq!(M256::fill_with_bit(1), M256::from([u128::MAX, u128::MAX]));
    assert_eq!(M256::fill_with_bit(0), M256::from(0u128));
}

#[test]
fn test_eq() {
    let a = M256::from(0u128);
    let b = M256::from(42u128);
    let c = M256::from(u128::MAX);
    let d = M256::from([u128::MAX, u128::MAX]);

    assert_eq!(a, a);
    assert_eq!(b, b);
    assert_eq!(c, c);
    assert_eq!(d, d);

    assert_ne!(a, b);
    assert_ne!(a, c);
    assert_ne!(a, d);
    assert_ne!(b, c);
    assert_ne!(b, d);
    assert_ne!(c, d);
}

#[test]
fn test_word_algebra() {
    let x = M256::from([0x0123456789abcdef0123456789abcdefu128, 0xfedcba9876543210u128]);
    let y = M256::from([0x00ff00ff00ff00ff00ff00ff00ff00ffu128, 0x123456789abcdef0u128]);
    let z = M256::from([0x5555555555555555aaaaaaaaaaaaaaaau128, u128::MAX]);
    assert_eq!(x.bitand(y.bitor(z)), x.bitand(y).bitor(x.bitand(z)));
    assert_eq!(x.bitand(y).bitnot(), x.bitnot().bitor(y.bitnot()));
    assert_eq!(x.bitxor(x), M256::zero());
    assert_eq!(x.shl(0), x);
    assert_eq!(x.shl(256), M256::zero());
    assert_eq!(x.shr(256), M256::zero());
}

#[test]
fn test_aligned_round_trip() {
    let x = M256::from([7u128, 0xdeadbeefu128]);
    let a = x.to_aligned();
    assert_eq!(M256::from_aligned(&a), x);
    let pair: [u128; 2] = [a.0[0], a.0[1]];
    assert_eq!(M256::from(pair), x);
}

#[test]
fn test_shift_concrete() {
    let a = 0x0123456789abcdef0011223344556677u128;
    let b = 0x8899aabbccddeeff0123456789abcdefu128;
    let w = M256::from([a, b]);
    assert_eq!(w.shr(128), M256::from([b, 0]));
    assert_eq!(w.shl(128), M256::from([0, a]));
    assert_eq!(w.shr(4), M256::from([(a >> 4) | (b << 124), b >> 4]));
    assert_eq!(w.shl(4), M256::from([a << 4, (b << 4) | (a >> 124)]));
    assert_eq!(w.shr(132), M256::from([b >> 4, 0]));
}

#[test]
fn test_ct_eq() {
    let a = M256::from([5u128, 9u128]);
    assert_eq!(a.ct_eq(&a), 1);
    for k in [0usize, 1, 63, 127, 128, 200, 255] {
        let one_bit = if k < 128 {
            M256::from([1u128 << k, 0])
        } else {
            M256::from([0, 1u128 << (k - 128)])
        };
        let b = a.bitxor(one_bit);
        assert_eq!(a.ct_eq(&b), 0);
        assert_ne!(a, b);
    }
}

#[test]
fn test_random_smoke() {
    let r = M256::random();
    assert_eq!(r.ct_eq(&r), 1);
}

#[test]
fn test_interleave_masks() {
    for level in 0..7usize {
        let even = interleave_even_mask(level);
        let odd = interleave_odd_mask(level);
        assert_eq!(even.bitor(odd), M256::fill_with_bit(1));
        assert_eq!(even.bitand(odd), M256::zero());
    }
    let e3 = interleave_even_mask(3);
    assert_eq!(e3.lo, 0x00ff00ff00ff00ff00ff00ff00ff00ffu128);
    assert_eq!(e3.hi, e3.lo);
    let e0 = interleave_even_mask(0);
    assert_eq!(e0.lo, 0x55555555555555555555555555555555u128);
    let mut w = M256::zero();
    for p in 0..32 {
        if p % 2 == 0 {
            w = w.bitor(M256::from([0xffu128, 0]).shl(8 * p));
        }
    }
    assert_eq!(interleave_even_mask(3), w);
}

#[test]
fn test_broadcast() {
    let p = PackedPrimitiveType::broadcast(0xab, 3);
    assert_eq!(p.value.lo, 0xabababababababababababababababab_u128);
    assert_eq!(p.value.hi, p.value.lo);
    for k in 0..32 {
        assert_eq!(byte(&p.value, k), 0xab);
    }
    let q = PackedPrimitiveType::broadcast(0x1234, 4);
    assert_eq!(q.value.lo, 0x12341234123412341234123412341234_u128);
    assert_eq!(q.value.hi, q.value.lo);
    let r = PackedPrimitiveType::broadcast(7, 7);
    assert_eq!(r.value.lo, 7);
    assert_eq!(r.value.hi, 7);
}
