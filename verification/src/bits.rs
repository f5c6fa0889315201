use vstd::prelude::*;

verus! {

/// Byte `k` (little-endian) of a 128-bit limb.
pub open spec fn u128_byte(x: u128, k: u128) -> u8 {
    ((x >> ((8 * k) as u128)) & 0xff) as u8
}

/// OR-ing a byte into a clear byte slot sets that byte and leaves the others.
pub proof fn lemma_set_byte(acc: u128, v: u8, i: u128, k: u128)
    by (bit_vector)
    requires
        i < 16,
        k < 16,
        u128_byte(acc, i) == 0,
    ensures
        u128_byte(acc | ((v as u128) << ((8 * i) as u128)), k) == if k == i {
            v
        } else {
            u128_byte(acc, k)
        },
{
}

/// XOR acts on a limb byte by byte.
pub proof fn lemma_xor_byte(x: u128, y: u128, k: u128)
    by (bit_vector)
    requires
        k < 16,
    ensures
        u128_byte(x ^ y, k) == u128_byte(x, k) ^ u128_byte(y, k),
{
}

/// A whole-byte left shift of a limb moves each byte up by `c` positions.
pub proof fn lemma_shl_bytes(x: u128, c: u128, k: u128)
    by (bit_vector)
    requires
        c < 16,
        k < 16,
    ensures
        u128_byte(x << ((8 * c) as u128), k) == if k >= c {
            u128_byte(x, (k - c) as u128)
        } else {
            0
        },
{
}

/// A whole-byte right shift of a limb moves each byte down by `c` positions.
pub proof fn lemma_shr_bytes(x: u128, c: u128, k: u128)
    by (bit_vector)
    requires
        c < 16,
        k < 16,
    ensures
        u128_byte(x >> ((8 * c) as u128), k) == if k + c < 16 {
            u128_byte(x, (k + c) as u128)
        } else {
            0
        },
{
}

/// Two limbs that agree on all sixteen bytes are equal.
pub proof fn lemma_bytes_ext(x: u128, y: u128)
    by (bit_vector)
    requires
        u128_byte(x, 0) == u128_byte(y, 0),
        u128_byte(x, 1) == u128_byte(y, 1),
        u128_byte(x, 2) == u128_byte(y, 2),
        u128_byte(x, 3) == u128_byte(y, 3),
        u128_byte(x, 4) == u128_byte(y, 4),
        u128_byte(x, 5) == u128_byte(y, 5),
        u128_byte(x, 6) == u128_byte(y, 6),
        u128_byte(x, 7) == u128_byte(y, 7),
        u128_byte(x, 8) == u128_byte(y, 8),
        u128_byte(x, 9) == u128_byte(y, 9),
        u128_byte(x, 10) == u128_byte(y, 10),
        u128_byte(x, 11) == u128_byte(y, 11),
        u128_byte(x, 12) == u128_byte(y, 12),
        u128_byte(x, 13) == u128_byte(y, 13),
        u128_byte(x, 14) == u128_byte(y, 14),
        u128_byte(x, 15) == u128_byte(y, 15),
    ensures
        x == y,
{
}

/// Every byte of the zero limb is zero.
pub proof fn lemma_zero_byte(k: u128)
    by (bit_vector)
    ensures
        u128_byte(0u128, k) == 0,
{
}

/// Read byte `i` of a limb.
pub fn get_byte(x: u128, i: usize) -> (b: u8)
    requires
        i < 16,
    ensures
        b == u128_byte(x, i as u128),
{
    let b = ((x >> ((8 * i) as u128)) & 0xff) as u8;
    proof {
        assert(((8 * i) as u128) == ((8 * (i as u128)) as u128));
    }
    b
}

/// OR byte `v` into the clear byte slot `i` of a limb.
pub fn set_byte(acc: u128, v: u8, i: usize) -> (r: u128)
    requires
        i < 16,
        u128_byte(acc, i as u128) == 0,
    ensures
        forall|k: u128|
            k < 16 ==> u128_byte(r, k) == (if k == i as u128 {
                v
            } else {
                u128_byte(acc, k)
            }),
{
    let r = acc | ((v as u128) << ((8 * i) as u128));
    proof {
        assert(((8 * i) as u128) == ((8 * (i as u128)) as u128));
        assert forall|k: u128|
            k < 16 implies u128_byte(r, k) == (if k == i as u128 {
            v
        } else {
            u128_byte(acc, k)
        }) by {
            lemma_set_byte(acc, v, i as u128, k);
        }
    }
    r
}

/// XOR with zero is the identity on bytes.
pub proof fn lemma_xor_zero(z: u8)
    by (bit_vector)
    ensures
        z ^ 0 == z,
        0 ^ z == z,
{
}

} // verus!
