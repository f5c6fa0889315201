use vstd::prelude::*;

use crate::bits::{get_byte, set_byte, u128_byte, lemma_zero_byte};
use crate::m256::M256;

verus! {

/// 8x8 bit matrix taking the canonical tower basis of GF(2^8) to the
/// AES-native basis, one matrix row per byte in the layout the affine
/// instruction expects.
pub const TOWER_TO_AES_MAP: u64 = 0x31506aea964e983e;

/// Inverse of `TOWER_TO_AES_MAP`: takes the AES-native basis back to the
/// tower basis.
pub const AES_TO_TOWER_MAP: u64 = 0xd1e8863e72a2700c;

/// The identity map in the same layout, for fields already expressed in
/// the AES-native basis.
pub const IDENTITY_MAP: u64 = 0x0102040810204080;

/// XOR of the eight bits of a byte.
pub open spec fn parity8(x: u8) -> u8 {
    (x ^ (x >> 4) ^ ((x ^ (x >> 4)) >> 2) ^ (((x ^ (x >> 4)) ^ ((x ^ (x >> 4)) >> 2)) >> 1)) & 1
}

/// Row `b` of an 8x8 bit matrix packed into a 64-bit value: the row that
/// produces output bit `b` sits in byte `7 - b`.
pub open spec fn mat_row(m: u64, b: u64) -> u8 {
    ((m >> ((7 - b) * 8)) & 0xff) as u8
}

/// The 8x8 bit-matrix affine transform of one byte: output bit `b` is the
/// parity of row `b` AND the input byte.
pub open spec fn gf_affine_byte(m: u64, x: u8) -> u8 {
    (parity8(mat_row(m, 0) & x)
        | (parity8(mat_row(m, 1) & x) << 1)
        | (parity8(mat_row(m, 2) & x) << 2)
        | (parity8(mat_row(m, 3) & x) << 3)
        | (parity8(mat_row(m, 4) & x) << 4)
        | (parity8(mat_row(m, 5) & x) << 5)
        | (parity8(mat_row(m, 6) & x) << 6)
        | (parity8(mat_row(m, 7) & x) << 7)) as u8
}

/// Carry-less (polynomial) product of two bytes over GF(2).
pub open spec fn aes_clmul(a: u8, b: u8) -> u16 {
    (if b & 1 == 1 { a as u16 } else { 0u16 })
        ^ (if (b >> 1) & 1 == 1 { (a as u16) << 1 } else { 0u16 })
        ^ (if (b >> 2) & 1 == 1 { (a as u16) << 2 } else { 0u16 })
        ^ (if (b >> 3) & 1 == 1 { (a as u16) << 3 } else { 0u16 })
        ^ (if (b >> 4) & 1 == 1 { (a as u16) << 4 } else { 0u16 })
        ^ (if (b >> 5) & 1 == 1 { (a as u16) << 5 } else { 0u16 })
        ^ (if (b >> 6) & 1 == 1 { (a as u16) << 6 } else { 0u16 })
        ^ (if (b >> 7) & 1 == 1 { (a as u16) << 7 } else { 0u16 })
}

/// Reduction of a 15-bit polynomial modulo x^8 + x^4 + x^3 + x + 1.
pub open spec fn aes_reduce(p: u16) -> u8 {
    let p6 = if (p >> 14) & 1 == 1 { p ^ (0x11bu16 << 6) } else { p };
    let p5 = if (p6 >> 13) & 1 == 1 { p6 ^ (0x11bu16 << 5) } else { p6 };
    let p4 = if (p5 >> 12) & 1 == 1 { p5 ^ (0x11bu16 << 4) } else { p5 };
    let p3 = if (p4 >> 11) & 1 == 1 { p4 ^ (0x11bu16 << 3) } else { p4 };
    let p2 = if (p3 >> 10) & 1 == 1 { p3 ^ (0x11bu16 << 2) } else { p3 };
    let p1 = if (p2 >> 9) & 1 == 1 { p2 ^ (0x11bu16 << 1) } else { p2 };
    let p0 = if (p1 >> 8) & 1 == 1 { p1 ^ 0x11bu16 } else { p1 };
    (p0 & 0xff) as u8
}

/// Multiplication in GF(2^8) under the AES-native basis.
pub open spec fn aes_mul_byte(a: u8, b: u8) -> u8 {
    aes_reduce(aes_clmul(a, b))
}

/// Multiplicative inverse in GF(2^8) under the AES-native basis
/// (polynomial x^8 + x^4 + x^3 + x + 1), with 0 mapped to 0.
pub open spec fn aes_inv_byte(a: u8) -> u8 {
    if a == 1 { 1u8 } else
    if a == 2 { 141u8 } else
    if a == 3 { 246u8 } else
    if a == 4 { 203u8 } else
    if a == 5 { 82u8 } else
    if a == 6 { 123u8 } else
    if a == 7 { 209u8 } else
    if a == 8 { 232u8 } else
    if a == 9 { 79u8 } else
    if a == 10 { 41u8 } else
    if a == 11 { 192u8 } else
    if a == 12 { 176u8 } else
    if a == 13 { 225u8 } else
    if a == 14 { 229u8 } else
    if a == 15 { 199u8 } else
    if a == 16 { 116u8 } else
    if a == 17 { 180u8 } else
    if a == 18 { 170u8 } else
    if a == 19 { 75u8 } else
    if a == 20 { 153u8 } else
    if a == 21 { 43u8 } else
    if a == 22 { 96u8 } else
    if a == 23 { 95u8 } else
    if a == 24 { 88u8 } else
    if a == 25 { 63u8 } else
    if a == 26 { 253u8 } else
    if a == 27 { 204u8 } else
    if a == 28 { 255u8 } else
    if a == 29 { 64u8 } else
    if a == 30 { 238u8 } else
    if a == 31 { 178u8 } else
    if a == 32 { 58u8 } else
    if a == 33 { 110u8 } else
    if a == 34 { 90u8 } else
    if a == 35 { 241u8 } else
    if a == 36 { 85u8 } else
    if a == 37 { 77u8 } else
    if a == 38 { 168u8 } else
    if a == 39 { 201u8 } else
    if a == 40 { 193u8 } else
    if a == 41 { 10u8 } else
    if a == 42 { 152u8 } else
    if a == 43 { 21u8 } else
    if a == 44 { 48u8 } else
    if a == 45 { 68u8 } else
    if a == 46 { 162u8 } else
    if a == 47 { 194u8 } else
    if a == 48 { 44u8 } else
    if a == 49 { 69u8 } else
    if a == 50 { 146u8 } else
    if a == 51 { 108u8 } else
    if a == 52 { 243u8 } else
    if a == 53 { 57u8 } else
    if a == 54 { 102u8 } else
    if a == 55 { 66u8 } else
    if a == 56 { 242u8 } else
    if a == 57 { 53u8 } else
    if a == 58 { 32u8 } else
    if a == 59 { 111u8 } else
    if a == 60 { 119u8 } else
    if a == 61 { 187u8 } else
    if a == 62 { 89u8 } else
    if a == 63 { 25u8 } else
    if a == 64 { 29u8 } else
    if a == 65 { 254u8 } else
    if a == 66 { 55u8 } else
    if a == 67 { 103u8 } else
    if a == 68 { 45u8 } else
    if a == 69 { 49u8 } else
    if a == 70 { 245u8 } else
    if a == 71 { 105u8 } else
    if a == 72 { 167u8 } else
    if a == 73 { 100u8 } else
    if a == 74 { 171u8 } else
    if a == 75 { 19u8 } else
    if a == 76 { 84u8 } else
    if a == 77 { 37u8 } else
    if a == 78 { 233u8 } else
    if a == 79 { 9u8 } else
    if a == 80 { 237u8 } else
    if a == 81 { 92u8 } else
    if a == 82 { 5u8 } else
    if a == 83 { 202u8 } else
    if a == 84 { 76u8 } else
    if a == 85 { 36u8 } else
    if a == 86 { 135u8 } else
    if a == 87 { 191u8 } else
    if a == 88 { 24u8 } else
    if a == 89 { 62u8 } else
    if a == 90 { 34u8 } else
    if a == 91 { 240u8 } else
    if a == 92 { 81u8 } else
    if a == 93 { 236u8 } else
    if a == 94 { 97u8 } else
    if a == 95 { 23u8 } else
    if a == 96 { 22u8 } else
    if a == 97 { 94u8 } else
    if a == 98 { 175u8 } else
    if a == 99 { 211u8 } else
    if a == 100 { 73u8 } else
    if a == 101 { 166u8 } else
    if a == 102 { 54u8 } else
    if a == 103 { 67u8 } else
    if a == 104 { 244u8 } else
    if a == 105 { 71u8 } else
    if a == 106 { 145u8 } else
    if a == 107 { 223u8 } else
    if a == 108 { 51u8 } else
    if a == 109 { 147u8 } else
    if a == 110 { 33u8 } else
    if a == 111 { 59u8 } else
    if a == 112 { 121u8 } else
    if a == 113 { 183u8 } else
    if a == 114 { 151u8 } else
    if a == 115 { 133u8 } else
    if a == 116 { 16u8 } else
    if a == 117 { 181u8 } else
    if a == 118 { 186u8 } else
    if a == 119 { 60u8 } else
    if a == 120 { 182u8 } else
    if a == 121 { 112u8 } else
    if a == 122 { 208u8 } else
    if a == 123 { 6u8 } else
    if a == 124 { 161u8 } else
    if a == 125 { 250u8 } else
    if a == 126 { 129u8 } else
    if a == 127 { 130u8 } else
    if a == 128 { 131u8 } else
    if a == 129 { 126u8 } else
    if a == 130 { 127u8 } else
    if a == 131 { 128u8 } else
    if a == 132 { 150u8 } else
    if a == 133 { 115u8 } else
    if a == 134 { 190u8 } else
    if a == 135 { 86u8 } else
    if a == 136 { 155u8 } else
    if a == 137 { 158u8 } else
    if a == 138 { 149u8 } else
    if a == 139 { 217u8 } else
    if a == 140 { 247u8 } else
    if a == 141 { 2u8 } else
    if a == 142 { 185u8 } else
    if a == 143 { 164u8 } else
    if a == 144 { 222u8 } else
    if a == 145 { 106u8 } else
    if a == 146 { 50u8 } else
    if a == 147 { 109u8 } else
    if a == 148 { 216u8 } else
    if a == 149 { 138u8 } else
    if a == 150 { 132u8 } else
    if a == 151 { 114u8 } else
    if a == 152 { 42u8 } else
    if a == 153 { 20u8 } else
    if a == 154 { 159u8 } else
    if a == 155 { 136u8 } else
    if a == 156 { 249u8 } else
    if a == 157 { 220u8 } else
    if a == 158 { 137u8 } else
    if a == 159 { 154u8 } else
    if a == 160 { 251u8 } else
    if a == 161 { 124u8 } else
    if a == 162 { 46u8 } else
    if a == 163 { 195u8 } else
    if a == 164 { 143u8 } else
    if a == 165 { 184u8 } else
    if a == 166 { 101u8 } else
    if a == 167 { 72u8 } else
    if a == 168 { 38u8 } else
    if a == 169 { 200u8 } else
    if a == 170 { 18u8 } else
    if a == 171 { 74u8 } else
    if a == 172 { 206u8 } else
    if a == 173 { 231u8 } else
    if a == 174 { 210u8 } else
    if a == 175 { 98u8 } else
    if a == 176 { 12u8 } else
    if a == 177 { 224u8 } else
    if a == 178 { 31u8 } else
    if a == 179 { 239u8 } else
    if a == 180 { 17u8 } else
    if a == 181 { 117u8 } else
    if a == 182 { 120u8 } else
    if a == 183 { 113u8 } else
    if a == 184 { 165u8 } else
    if a == 185 { 142u8 } else
    if a == 186 { 118u8 } else
    if a == 187 { 61u8 } else
    if a == 188 { 189u8 } else
    if a == 189 { 188u8 } else
    if a == 190 { 134u8 } else
    if a == 191 { 87u8 } else
    if a == 192 { 11u8 } else
    if a == 193 { 40u8 } else
    if a == 194 { 47u8 } else
    if a == 195 { 163u8 } else
    if a == 196 { 218u8 } else
    if a == 197 { 212u8 } else
    if a == 198 { 228u8 } else
    if a == 199 { 15u8 } else
    if a == 200 { 169u8 } else
    if a == 201 { 39u8 } else
    if a == 202 { 83u8 } else
    if a == 203 { 4u8 } else
    if a == 204 { 27u8 } else
    if a == 205 { 252u8 } else
    if a == 206 { 172u8 } else
    if a == 207 { 230u8 } else
    if a == 208 { 122u8 } else
    if a == 209 { 7u8 } else
    if a == 210 { 174u8 } else
    if a == 211 { 99u8 } else
    if a == 212 { 197u8 } else
    if a == 213 { 219u8 } else
    if a == 214 { 226u8 } else
    if a == 215 { 234u8 } else
    if a == 216 { 148u8 } else
    if a == 217 { 139u8 } else
    if a == 218 { 196u8 } else
    if a == 219 { 213u8 } else
    if a == 220 { 157u8 } else
    if a == 221 { 248u8 } else
    if a == 222 { 144u8 } else
    if a == 223 { 107u8 } else
    if a == 224 { 177u8 } else
    if a == 225 { 13u8 } else
    if a == 226 { 214u8 } else
    if a == 227 { 235u8 } else
    if a == 228 { 198u8 } else
    if a == 229 { 14u8 } else
    if a == 230 { 207u8 } else
    if a == 231 { 173u8 } else
    if a == 232 { 8u8 } else
    if a == 233 { 78u8 } else
    if a == 234 { 215u8 } else
    if a == 235 { 227u8 } else
    if a == 236 { 93u8 } else
    if a == 237 { 80u8 } else
    if a == 238 { 30u8 } else
    if a == 239 { 179u8 } else
    if a == 240 { 91u8 } else
    if a == 241 { 35u8 } else
    if a == 242 { 56u8 } else
    if a == 243 { 52u8 } else
    if a == 244 { 104u8 } else
    if a == 245 { 70u8 } else
    if a == 246 { 3u8 } else
    if a == 247 { 140u8 } else
    if a == 248 { 221u8 } else
    if a == 249 { 156u8 } else
    if a == 250 { 125u8 } else
    if a == 251 { 160u8 } else
    if a == 252 { 205u8 } else
    if a == 253 { 26u8 } else
    if a == 254 { 65u8 } else
    if a == 255 { 28u8 } else
    { 0u8 }
}

pub fn aes_inv_byte_exec(a: u8) -> (r: u8)
    ensures
        r == aes_inv_byte(a),
{
    if a == 1 {
        1u8
    } else if a == 2 {
        141u8
    } else if a == 3 {
        246u8
    } else if a == 4 {
        203u8
    } else if a == 5 {
        82u8
    } else if a == 6 {
        123u8
    } else if a == 7 {
        209u8
    } else if a == 8 {
        232u8
    } else if a == 9 {
        79u8
    } else if a == 10 {
        41u8
    } else if a == 11 {
        192u8
    } else if a == 12 {
        176u8
    } else if a == 13 {
        225u8
    } else if a == 14 {
        229u8
    } else if a == 15 {
        199u8
    } else if a == 16 {
        116u8
    } else if a == 17 {
        180u8
    } else if a == 18 {
        170u8
    } else if a == 19 {
        75u8
    } else if a == 20 {
        153u8
    } else if a == 21 {
        43u8
    } else if a == 22 {
        96u8
    } else if a == 23 {
        95u8
    } else if a == 24 {
        88u8
    } else if a == 25 {
        63u8
    } else if a == 26 {
        253u8
    } else if a == 27 {
        204u8
    } else if a == 28 {
        255u8
    } else if a == 29 {
        64u8
    } else if a == 30 {
        238u8
    } else if a == 31 {
        178u8
    } else if a == 32 {
        58u8
    } else if a == 33 {
        110u8
    } else if a == 34 {
        90u8
    } else if a == 35 {
        241u8
    } else if a == 36 {
        85u8
    } else if a == 37 {
        77u8
    } else if a == 38 {
        168u8
    } else if a == 39 {
        201u8
    } else if a == 40 {
        193u8
    } else if a == 41 {
        10u8
    } else if a == 42 {
        152u8
    } else if a == 43 {
        21u8
    } else if a == 44 {
        48u8
    } else if a == 45 {
        68u8
    } else if a == 46 {
        162u8
    } else if a == 47 {
        194u8
    } else if a == 48 {
        44u8
    } else if a == 49 {
        69u8
    } else if a == 50 {
        146u8
    } else if a == 51 {
        108u8
    } else if a == 52 {
        243u8
    } else if a == 53 {
        57u8
    } else if a == 54 {
        102u8
    } else if a == 55 {
        66u8
    } else if a == 56 {
        242u8
    } else if a == 57 {
        53u8
    } else if a == 58 {
        32u8
    } else if a == 59 {
        111u8
    } else if a == 60 {
        119u8
    } else if a == 61 {
        187u8
    } else if a == 62 {
        89u8
    } else if a == 63 {
        25u8
    } else if a == 64 {
        29u8
    } else if a == 65 {
        254u8
    } else if a == 66 {
        55u8
    } else if a == 67 {
        103u8
    } else if a == 68 {
        45u8
    } else if a == 69 {
        49u8
    } else if a == 70 {
        245u8
    } else if a == 71 {
        105u8
    } else if a == 72 {
        167u8
    } else if a == 73 {
        100u8
    } else if a == 74 {
        171u8
    } else if a == 75 {
        19u8
    } else if a == 76 {
        84u8
    } else if a == 77 {
        37u8
    } else if a == 78 {
        233u8
    } else if a == 79 {
        9u8
    } else if a == 80 {
        237u8
    } else if a == 81 {
        92u8
    } else if a == 82 {
        5u8
    } else if a == 83 {
        202u8
    } else if a == 84 {
        76u8
    } else if a == 85 {
        36u8
    } else if a == 86 {
        135u8
    } else if a == 87 {
        191u8
    } else if a == 88 {
        24u8
    } else if a == 89 {
        62u8
    } else if a == 90 {
        34u8
    } else if a == 91 {
        240u8
    } else if a == 92 {
        81u8
    } else if a == 93 {
        236u8
    } else if a == 94 {
        97u8
    } else if a == 95 {
        23u8
    } else if a == 96 {
        22u8
    } else if a == 97 {
        94u8
    } else if a == 98 {
        175u8
    } else if a == 99 {
        211u8
    } else if a == 100 {
        73u8
    } else if a == 101 {
        166u8
    } else if a == 102 {
        54u8
    } else if a == 103 {
        67u8
    } else if a == 104 {
        244u8
    } else if a == 105 {
        71u8
    } else if a == 106 {
        145u8
    } else if a == 107 {
        223u8
    } else if a == 108 {
        51u8
    } else if a == 109 {
        147u8
    } else if a == 110 {
        33u8
    } else if a == 111 {
        59u8
    } else if a == 112 {
        121u8
    } else if a == 113 {
        183u8
    } else if a == 114 {
        151u8
    } else if a == 115 {
        133u8
    } else if a == 116 {
        16u8
    } else if a == 117 {
        181u8
    } else if a == 118 {
        186u8
    } else if a == 119 {
        60u8
    } else if a == 120 {
        182u8
    } else if a == 121 {
        112u8
    } else if a == 122 {
        208u8
    } else if a == 123 {
        6u8
    } else if a == 124 {
        161u8
    } else if a == 125 {
        250u8
    } else if a == 126 {
        129u8
    } else if a == 127 {
        130u8
    } else if a == 128 {
        131u8
    } else if a == 129 {
        126u8
    } else if a == 130 {
        127u8
    } else if a == 131 {
        128u8
    } else if a == 132 {
        150u8
    } else if a == 133 {
        115u8
    } else if a == 134 {
        190u8
    } else if a == 135 {
        86u8
    } else if a == 136 {
        155u8
    } else if a == 137 {
        158u8
    } else if a == 138 {
        149u8
    } else if a == 139 {
        217u8
    } else if a == 140 {
        247u8
    } else if a == 141 {
        2u8
    } else if a == 142 {
        185u8
    } else if a == 143 {
        164u8
    } else if a == 144 {
        222u8
    } else if a == 145 {
        106u8
    } else if a == 146 {
        50u8
    } else if a == 147 {
        109u8
    } else if a == 148 {
        216u8
    } else if a == 149 {
        138u8
    } else if a == 150 {
        132u8
    } else if a == 151 {
        114u8
    } else if a == 152 {
        42u8
    } else if a == 153 {
        20u8
    } else if a == 154 {
        159u8
    } else if a == 155 {
        136u8
    } else if a == 156 {
        249u8
    } else if a == 157 {
        220u8
    } else if a == 158 {
        137u8
    } else if a == 159 {
        154u8
    } else if a == 160 {
        251u8
    } else if a == 161 {
        124u8
    } else if a == 162 {
        46u8
    } else if a == 163 {
        195u8
    } else if a == 164 {
        143u8
    } else if a == 165 {
        184u8
    } else if a == 166 {
        101u8
    } else if a == 167 {
        72u8
    } else if a == 168 {
        38u8
    } else if a == 169 {
        200u8
    } else if a == 170 {
        18u8
    } else if a == 171 {
        74u8
    } else if a == 172 {
        206u8
    } else if a == 173 {
        231u8
    } else if a == 174 {
        210u8
    } else if a == 175 {
        98u8
    } else if a == 176 {
        12u8
    } else if a == 177 {
        224u8
    } else if a == 178 {
        31u8
    } else if a == 179 {
        239u8
    } else if a == 180 {
        17u8
    } else if a == 181 {
        117u8
    } else if a == 182 {
        120u8
    } else if a == 183 {
        113u8
    } else if a == 184 {
        165u8
    } else if a == 185 {
        142u8
    } else if a == 186 {
        118u8
    } else if a == 187 {
        61u8
    } else if a == 188 {
        189u8
    } else if a == 189 {
        188u8
    } else if a == 190 {
        134u8
    } else if a == 191 {
        87u8
    } else if a == 192 {
        11u8
    } else if a == 193 {
        40u8
    } else if a == 194 {
        47u8
    } else if a == 195 {
        163u8
    } else if a == 196 {
        218u8
    } else if a == 197 {
        212u8
    } else if a == 198 {
        228u8
    } else if a == 199 {
        15u8
    } else if a == 200 {
        169u8
    } else if a == 201 {
        39u8
    } else if a == 202 {
        83u8
    } else if a == 203 {
        4u8
    } else if a == 204 {
        27u8
    } else if a == 205 {
        252u8
    } else if a == 206 {
        172u8
    } else if a == 207 {
        230u8
    } else if a == 208 {
        122u8
    } else if a == 209 {
        7u8
    } else if a == 210 {
        174u8
    } else if a == 211 {
        99u8
    } else if a == 212 {
        197u8
    } else if a == 213 {
        219u8
    } else if a == 214 {
        226u8
    } else if a == 215 {
        234u8
    } else if a == 216 {
        148u8
    } else if a == 217 {
        139u8
    } else if a == 218 {
        196u8
    } else if a == 219 {
        213u8
    } else if a == 220 {
        157u8
    } else if a == 221 {
        248u8
    } else if a == 222 {
        144u8
    } else if a == 223 {
        107u8
    } else if a == 224 {
        177u8
    } else if a == 225 {
        13u8
    } else if a == 226 {
        214u8
    } else if a == 227 {
        235u8
    } else if a == 228 {
        198u8
    } else if a == 229 {
        14u8
    } else if a == 230 {
        207u8
    } else if a == 231 {
        173u8
    } else if a == 232 {
        8u8
    } else if a == 233 {
        78u8
    } else if a == 234 {
        215u8
    } else if a == 235 {
        227u8
    } else if a == 236 {
        93u8
    } else if a == 237 {
        80u8
    } else if a == 238 {
        30u8
    } else if a == 239 {
        179u8
    } else if a == 240 {
        91u8
    } else if a == 241 {
        35u8
    } else if a == 242 {
        56u8
    } else if a == 243 {
        52u8
    } else if a == 244 {
        104u8
    } else if a == 245 {
        70u8
    } else if a == 246 {
        3u8
    } else if a == 247 {
        140u8
    } else if a == 248 {
        221u8
    } else if a == 249 {
        156u8
    } else if a == 250 {
        125u8
    } else if a == 251 {
        160u8
    } else if a == 252 {
        205u8
    } else if a == 253 {
        26u8
    } else if a == 254 {
        65u8
    } else if a == 255 {
        28u8
    } else {
        0u8
    }
}
/// Multiplication in the two-element subfield: plain AND of the low bits.
pub open spec fn tmul1(a: u8, b: u8) -> u8 {
    let t = ((a >> 1) & 1) & ((b >> 1) & 1);
    (((((a >> 1) & 1) & (b & 1)) ^ ((a & 1) & ((b >> 1) & 1)) ^ t) << 1) | (((a & 1) & (b & 1))
        ^ t)
}

/// Multiplication of a 2-bit tower element by the level-1 generator.
pub open spec fn talpha1(c: u8) -> u8 {
    ((((c & 1) ^ ((c >> 1) & 1))) << 1) | ((c >> 1) & 1)
}

/// Multiplication of 4-bit tower elements, by quadratic extension of the
/// 2-bit field.
pub open spec fn tmul2(a: u8, b: u8) -> u8 {
    let t = tmul1((a >> 2) & 3, (b >> 2) & 3);
    ((tmul1((a >> 2) & 3, b & 3) ^ tmul1(a & 3, (b >> 2) & 3) ^ talpha1(t)) << 2) | (tmul1(
        a & 3,
        b & 3,
    ) ^ t)
}

/// Multiplication of a 4-bit tower element by the level-2 generator.
pub open spec fn talpha2(c: u8) -> u8 {
    (((c & 3) ^ talpha1((c >> 2) & 3)) << 2) | ((c >> 2) & 3)
}

/// Reference schoolbook multiplication of 8-bit tower-field elements,
/// defined directly by the recursive quadratic-extension construction.
pub open spec fn tower_mul_byte(a: u8, b: u8) -> u8 {
    let t = tmul2((a >> 4) & 15, (b >> 4) & 15);
    ((tmul2((a >> 4) & 15, b & 15) ^ tmul2(a & 15, (b >> 4) & 15) ^ talpha2(t)) << 4) | (tmul2(
        a & 15,
        b & 15,
    ) ^ t)
}

/// One byte lane of the hardware-style multiply routine: convert both
/// operands with `to_map`, multiply in the AES basis, convert back with
/// `from_map`.
pub open spec fn gfni_mul_byte(a: u8, b: u8, to_map: u64, from_map: u64) -> u8 {
    gf_affine_byte(from_map, aes_mul_byte(gf_affine_byte(to_map, a), gf_affine_byte(to_map, b)))
}

/// One byte lane of the hardware-style inversion routine: convert with
/// `to_map`, invert in the AES basis, convert back with `from_map`.
pub open spec fn gfni_inv_byte(a: u8, to_map: u64, from_map: u64) -> u8 {
    gf_affine_byte(from_map, aes_inv_byte(gf_affine_byte(to_map, a)))
}

pub fn parity8_exec(x: u8) -> (r: u8)
    ensures
        r == parity8(x),
{
    let t1 = x ^ (x >> 4);
    let t2 = t1 ^ (t1 >> 2);
    let t3 = t2 ^ (t2 >> 1);
    t3 & 1
}

pub fn mat_row_exec(m: u64, b: u64) -> (r: u8)
    requires
        b < 8,
    ensures
        r == mat_row(m, b),
{
    ((m >> ((7 - b) * 8)) & 0xff) as u8
}

pub fn gf_affine_byte_exec(m: u64, x: u8) -> (r: u8)
    ensures
        r == gf_affine_byte(m, x),
{
    let r0 = parity8_exec(mat_row_exec(m, 0) & x);
    let r1 = parity8_exec(mat_row_exec(m, 1) & x);
    let r2 = parity8_exec(mat_row_exec(m, 2) & x);
    let r3 = parity8_exec(mat_row_exec(m, 3) & x);
    let r4 = parity8_exec(mat_row_exec(m, 4) & x);
    let r5 = parity8_exec(mat_row_exec(m, 5) & x);
    let r6 = parity8_exec(mat_row_exec(m, 6) & x);
    let r7 = parity8_exec(mat_row_exec(m, 7) & x);
    r0 | (r1 << 1) | (r2 << 2) | (r3 << 3) | (r4 << 4) | (r5 << 5) | (r6 << 6) | (r7 << 7)
}

pub fn aes_mul_byte_exec(a: u8, b: u8) -> (r: u8)
    ensures
        r == aes_mul_byte(a, b),
{
    let c0: u16 = if b & 1 == 1 { a as u16 } else { 0u16 };
    let c1: u16 = if (b >> 1) & 1 == 1 { (a as u16) << 1 } else { 0u16 };
    let c2: u16 = if (b >> 2) & 1 == 1 { (a as u16) << 2 } else { 0u16 };
    let c3: u16 = if (b >> 3) & 1 == 1 { (a as u16) << 3 } else { 0u16 };
    let c4: u16 = if (b >> 4) & 1 == 1 { (a as u16) << 4 } else { 0u16 };
    let c5: u16 = if (b >> 5) & 1 == 1 { (a as u16) << 5 } else { 0u16 };
    let c6: u16 = if (b >> 6) & 1 == 1 { (a as u16) << 6 } else { 0u16 };
    let c7: u16 = if (b >> 7) & 1 == 1 { (a as u16) << 7 } else { 0u16 };
    let p = c0 ^ c1 ^ c2 ^ c3 ^ c4 ^ c5 ^ c6 ^ c7;
    let p6 = if (p >> 14) & 1 == 1 { p ^ (0x11bu16 << 6) } else { p };
    let p5 = if (p6 >> 13) & 1 == 1 { p6 ^ (0x11bu16 << 5) } else { p6 };
    let p4 = if (p5 >> 12) & 1 == 1 { p5 ^ (0x11bu16 << 4) } else { p5 };
    let p3 = if (p4 >> 11) & 1 == 1 { p4 ^ (0x11bu16 << 3) } else { p4 };
    let p2 = if (p3 >> 10) & 1 == 1 { p3 ^ (0x11bu16 << 2) } else { p3 };
    let p1 = if (p2 >> 9) & 1 == 1 { p2 ^ (0x11bu16 << 1) } else { p2 };
    let p0 = if (p1 >> 8) & 1 == 1 { p1 ^ 0x11bu16 } else { p1 };
    (p0 & 0xff) as u8
}

fn affine_limb(x: u128, m: u64) -> (r: u128)
    ensures
        forall|k: u128| k < 16 ==> u128_byte(r, k) == gf_affine_byte(m, u128_byte(x, k)),
{
    let mut r: u128 = 0;
    let mut i: usize = 0;
    proof {
        assert forall|k: u128| k < 16 implies u128_byte(0u128, k) == 0 by {
            lemma_zero_byte(k);
        }
    }
    while i < 16
        invariant
            i <= 16,
            forall|k: u128| k < i ==> u128_byte(r, k) == gf_affine_byte(m, u128_byte(x, k)),
            forall|k: u128| i <= k < 16 ==> u128_byte(r, k) == 0,
        decreases 16 - i,
    {
        let b = get_byte(x, i);
        let g = gf_affine_byte_exec(m, b);
        r = set_byte(r, g, i);
        i = i + 1;
    }
    r
}

fn mul_limb(a: u128, b: u128) -> (r: u128)
    ensures
        forall|k: u128| k < 16 ==> u128_byte(r, k) == aes_mul_byte(u128_byte(a, k), u128_byte(b, k)),
{
    let mut r: u128 = 0;
    let mut i: usize = 0;
    proof {
        assert forall|k: u128| k < 16 implies u128_byte(0u128, k) == 0 by {
            lemma_zero_byte(k);
        }
    }
    while i < 16
        invariant
            i <= 16,
            forall|k: u128| k < i ==> u128_byte(r, k) == aes_mul_byte(u128_byte(a, k), u128_byte(b, k)),
            forall|k: u128| i <= k < 16 ==> u128_byte(r, k) == 0,
        decreases 16 - i,
    {
        let ab = get_byte(a, i);
        let bb = get_byte(b, i);
        let g = aes_mul_byte_exec(ab, bb);
        r = set_byte(r, g, i);
        i = i + 1;
    }
    r
}

fn invaffine_limb(x: u128, m: u64) -> (r: u128)
    ensures
        forall|k: u128| k < 16 ==> u128_byte(r, k) == gf_affine_byte(m, aes_inv_byte(u128_byte(x, k))),
{
    let mut r: u128 = 0;
    let mut i: usize = 0;
    proof {
        assert forall|k: u128| k < 16 implies u128_byte(0u128, k) == 0 by {
            lemma_zero_byte(k);
        }
    }
    while i < 16
        invariant
            i <= 16,
            forall|k: u128| k < i ==> u128_byte(r, k) == gf_affine_byte(m, aes_inv_byte(u128_byte(x, k))),
            forall|k: u128| i <= k < 16 ==> u128_byte(r, k) == 0,
        decreases 16 - i,
    {
        let b = get_byte(x, i);
        let v = aes_inv_byte_exec(b);
        let g = gf_affine_byte_exec(m, v);
        r = set_byte(r, g, i);
        i = i + 1;
    }
    r
}

/// Apply the fixed 8x8 bit matrix `map` to every byte lane of a word.
pub fn affine_transform(x: M256, map: u64) -> (r: M256)
    ensures
        forall|k: u128| k < 16 ==> u128_byte(r.lo, k) == gf_affine_byte(map, u128_byte(x.lo, k)),
        forall|k: u128| k < 16 ==> u128_byte(r.hi, k) == gf_affine_byte(map, u128_byte(x.hi, k)),
{
    M256 { lo: affine_limb(x.lo, map), hi: affine_limb(x.hi, map) }
}

/// Multiply every byte lane of two words in GF(2^8) under the AES-native
/// basis.
pub fn gf2p8mul_epi8(a: M256, b: M256) -> (r: M256)
    ensures
        forall|k: u128| k < 16 ==> u128_byte(r.lo, k) == aes_mul_byte(
            u128_byte(a.lo, k),
            u128_byte(b.lo, k),
        ),
        forall|k: u128| k < 16 ==> u128_byte(r.hi, k) == aes_mul_byte(
            u128_byte(a.hi, k),
            u128_byte(b.hi, k),
        ),
{
    M256 { lo: mul_limb(a.lo, b.lo), hi: mul_limb(a.hi, b.hi) }
}

/// Invert every byte lane in GF(2^8) under the AES-native basis (0 maps
/// to 0), then apply the 8x8 bit matrix `map` to the result.
pub fn gf2p8affineinv_epi64_epi8(x: M256, map: u64) -> (r: M256)
    ensures
        forall|k: u128| k < 16 ==> u128_byte(r.lo, k) == gf_affine_byte(
            map,
            aes_inv_byte(u128_byte(x.lo, k)),
        ),
        forall|k: u128| k < 16 ==> u128_byte(r.hi, k) == gf_affine_byte(
            map,
            aes_inv_byte(u128_byte(x.hi, k)),
        ),
{
    M256 { lo: invaffine_limb(x.lo, map), hi: invaffine_limb(x.hi, map) }
}

#[verifier::rlimit(60)]
proof fn bv_roundtrip(x: u8)
    by (bit_vector)
    ensures
        gf_affine_byte(AES_TO_TOWER_MAP, gf_affine_byte(TOWER_TO_AES_MAP, x)) == x,
        gf_affine_byte(TOWER_TO_AES_MAP, gf_affine_byte(AES_TO_TOWER_MAP, x)) == x,
        gf_affine_byte(IDENTITY_MAP, x) == x,
{
}

#[verifier::rlimit(100)]
proof fn bv_linear(m: u64, x: u8, y: u8)
    by (bit_vector)
    ensures
        gf_affine_byte(m, x ^ y) == gf_affine_byte(m, x) ^ gf_affine_byte(m, y),
        gf_affine_byte(m, 0) == 0,
{
}

#[verifier::rlimit(100)]
proof fn bv_aes_inverse(a: u8, v: u8)
    by (bit_vector)
    requires
        v == aes_inv_byte(a),
    ensures
        a != 0 ==> aes_mul_byte(a, v) == 1,
        a == 0 ==> v == 0,
{
}

#[verifier::rlimit(100)]
proof fn bv_tower_mul(a: u8, b: u8, ta: u8, tb: u8, p: u8)
    by (bit_vector)
    requires
        ta == gf_affine_byte(TOWER_TO_AES_MAP, a),
        tb == gf_affine_byte(TOWER_TO_AES_MAP, b),
        p == aes_mul_byte(ta, tb),
    ensures
        gf_affine_byte(AES_TO_TOWER_MAP, p) == tower_mul_byte(a, b),
{
}

#[verifier::rlimit(60)]
proof fn bv_affine_consts()
    by (bit_vector)
    ensures
        gf_affine_byte(TOWER_TO_AES_MAP, 0) == 0,
        gf_affine_byte(AES_TO_TOWER_MAP, 0) == 0,
        gf_affine_byte(TOWER_TO_AES_MAP, 1) == 1,
        gf_affine_byte(AES_TO_TOWER_MAP, 1) == 1,
{
}

#[verifier::rlimit(60)]
proof fn bv_affine_zero_matrix(x: u8)
    by (bit_vector)
    ensures
        gf_affine_byte(0u64, x) == 0,
{
}

/// The all-zero matrix sends every byte to zero.
pub proof fn lemma_affine_zero_matrix(x: u8)
    ensures
        gf_affine_byte(0u64, x) == 0,
{
    bv_affine_zero_matrix(x);
}

/// The two fixed basis-change matrices are mutually inverse: changing a
/// byte to the AES basis and back (in either order) returns the byte.
pub proof fn lemma_basis_change_round_trip(x: u8)
    ensures
        gf_affine_byte(AES_TO_TOWER_MAP, gf_affine_byte(TOWER_TO_AES_MAP, x)) == x,
        gf_affine_byte(TOWER_TO_AES_MAP, gf_affine_byte(AES_TO_TOWER_MAP, x)) == x,
{
    bv_roundtrip(x);
}

/// The identity matrix leaves every byte unchanged.
pub proof fn lemma_affine_identity(x: u8)
    ensures
        gf_affine_byte(IDENTITY_MAP, x) == x,
{
    bv_roundtrip(x);
}

/// Every 8x8 bit-matrix transform is linear: it distributes over XOR and
/// sends zero to zero.
pub proof fn lemma_affine_linear(m: u64, x: u8, y: u8)
    ensures
        gf_affine_byte(m, x ^ y) == gf_affine_byte(m, x) ^ gf_affine_byte(m, y),
        gf_affine_byte(m, 0) == 0,
{
    bv_linear(m, x, y);
}

/// The multiply routine over the fixed tower maps agrees, on every byte
/// pair, with reference schoolbook tower-field multiplication.
pub proof fn lemma_multiply_matches_tower(a: u8, b: u8)
    ensures
        gfni_mul_byte(a, b, TOWER_TO_AES_MAP, AES_TO_TOWER_MAP) == tower_mul_byte(a, b),
{
    let ta = gf_affine_byte(TOWER_TO_AES_MAP, a);
    let tb = gf_affine_byte(TOWER_TO_AES_MAP, b);
    let p = aes_mul_byte(ta, tb);
    bv_tower_mul(a, b, ta, tb, p);
}

/// Inversion composed with multiplication yields the field's one on every
/// nonzero byte, and inversion sends zero to zero.
pub proof fn lemma_invert_or_zero(a: u8)
    ensures
        a != 0 ==> gfni_mul_byte(
            a,
            gfni_inv_byte(a, TOWER_TO_AES_MAP, AES_TO_TOWER_MAP),
            TOWER_TO_AES_MAP,
            AES_TO_TOWER_MAP,
        ) == 1,
        a == 0 ==> gfni_inv_byte(a, TOWER_TO_AES_MAP, AES_TO_TOWER_MAP) == 0,
{
    let b = gf_affine_byte(TOWER_TO_AES_MAP, a);
    let v = aes_inv_byte(b);
    bv_aes_inverse(b, v);
    bv_roundtrip(a);
    bv_roundtrip(v);
    bv_affine_consts();
    if a != 0 {
        if b == 0 {
            assert(gf_affine_byte(AES_TO_TOWER_MAP, b) == a);
            assert(false);
        }
        assert(gf_affine_byte(TOWER_TO_AES_MAP, gf_affine_byte(AES_TO_TOWER_MAP, v)) == v);
        assert(aes_mul_byte(b, v) == 1);
    }
}


/// The affine word transform is linear over whole words: when the bytes
/// of `txy` transform the XOR of two words whose transforms are `tx` and
/// `ty`, then `txy` is the XOR of `tx` and `ty`.
pub proof fn lemma_affine_transform_linear(m: u64, x: M256, y: M256, tx: M256, ty: M256, txy: M256)
    requires
        forall|k: u128| k < 16 ==> u128_byte(tx.lo, k) == gf_affine_byte(m, u128_byte(x.lo, k)),
        forall|k: u128| k < 16 ==> u128_byte(tx.hi, k) == gf_affine_byte(m, u128_byte(x.hi, k)),
        forall|k: u128| k < 16 ==> u128_byte(ty.lo, k) == gf_affine_byte(m, u128_byte(y.lo, k)),
        forall|k: u128| k < 16 ==> u128_byte(ty.hi, k) == gf_affine_byte(m, u128_byte(y.hi, k)),
        forall|k: u128|
            k < 16 ==> u128_byte(txy.lo, k) == gf_affine_byte(m, u128_byte(x.lo ^ y.lo, k)),
        forall|k: u128|
            k < 16 ==> u128_byte(txy.hi, k) == gf_affine_byte(m, u128_byte(x.hi ^ y.hi, k)),
    ensures
        txy.lo == tx.lo ^ ty.lo,
        txy.hi == tx.hi ^ ty.hi,
{
    assert forall|k: u128| k < 16 implies u128_byte(txy.lo, k) == u128_byte(tx.lo ^ ty.lo, k) by {
        crate::bits::lemma_xor_byte(x.lo, y.lo, k);
        crate::bits::lemma_xor_byte(tx.lo, ty.lo, k);
        bv_linear(m, u128_byte(x.lo, k), u128_byte(y.lo, k));
    }
    assert forall|k: u128| k < 16 implies u128_byte(txy.hi, k) == u128_byte(tx.hi ^ ty.hi, k) by {
        crate::bits::lemma_xor_byte(x.hi, y.hi, k);
        crate::bits::lemma_xor_byte(tx.hi, ty.hi, k);
        bv_linear(m, u128_byte(x.hi, k), u128_byte(y.hi, k));
    }
    crate::bits::lemma_bytes_ext(txy.lo, tx.lo ^ ty.lo);
    crate::bits::lemma_bytes_ext(txy.hi, tx.hi ^ ty.hi);
}

} // verus!
