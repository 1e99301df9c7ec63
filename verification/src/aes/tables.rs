//! Arithmetic in the field GF(2^8) with the reduction polynomial
//! x^8 + x^4 + x^3 + x + 1, the lookup tables of the cipher, and the proofs
//! that tie each table to the arithmetic it tabulates.
use vstd::prelude::*;

verus! {

/// Multiplication by x: a left shift, reduced by the field polynomial when
/// the top bit falls out.
pub open spec fn xtime(x: u8) -> u8 {
    (x << 1) ^ (if x & 0x80 != 0 { 0x1bu8 } else { 0u8 })
}

/// `a` if `b` has the bit of `mask` set, else zero.
pub open spec fn bit_select(b: u8, mask: u8, a: u8) -> u8 {
    if b & mask != 0 { a } else { 0u8 }
}

/// The product of `a` and `b` in GF(2^8): the sum of `a * x^i` over the bits
/// `i` that are set in `b`.
#[verifier::opaque]
pub open spec fn gf_mul(a: u8, b: u8) -> u8 {
    let a1 = xtime(a);
    let a2 = xtime(a1);
    let a3 = xtime(a2);
    let a4 = xtime(a3);
    let a5 = xtime(a4);
    let a6 = xtime(a5);
    let a7 = xtime(a6);
    bit_select(b, 0x01, a) ^ bit_select(b, 0x02, a1) ^ bit_select(b, 0x04, a2) ^ bit_select(
        b,
        0x08,
        a3,
    ) ^ bit_select(b, 0x10, a4) ^ bit_select(b, 0x20, a5) ^ bit_select(b, 0x40, a6) ^ bit_select(
        b,
        0x80,
        a7,
    )
}

/// `y` is the multiplicative inverse of `x`, where zero, which has none,
/// is paired with zero.
#[verifier::opaque]
pub open spec fn inverse_pair(x: u8, y: u8) -> bool {
    if x == 0 {
        y == 0
    } else {
        gf_mul(x, y) == 1
    }
}

/// Rotation of a byte to the left by `shift` bits, `1 <= shift <= 7`.
pub open spec fn rotl8_spec(x: u8, shift: u8) -> u8 {
    (x << shift) | (x >> ((8 - shift) as u8))
}

/// The affine map that the substitution box applies after inversion.
pub open spec fn affine(q: u8) -> u8 {
    q ^ rotl8_spec(q, 1) ^ rotl8_spec(q, 2) ^ rotl8_spec(q, 3) ^ rotl8_spec(q, 4) ^ 0x63u8
}

/// The inverse of [`affine`].
pub open spec fn affine_inv(s: u8) -> u8 {
    rotl8_spec(s, 1) ^ rotl8_spec(s, 3) ^ rotl8_spec(s, 6) ^ 0x05u8
}

/// `affine` and `affine_inv` undo each other.
pub proof fn lemma_affine_inverse(q: u8)
    by (bit_vector)
    ensures
        affine_inv(affine(q)) == q,
        affine(affine_inv(q)) == q,
{
}

/// One is the unit of the field, and a product with zero is zero.
pub proof fn lemma_gf_mul_unit(x: u8)
    by (bit_vector)
    ensures
        gf_mul(1, x) == x,
        gf_mul(x, 1) == x,
        gf_mul(0, x) == 0,
        gf_mul(x, 0) == 0,
{
}

/// Multiplication by a fixed element distributes over addition, which in
/// this field is XOR.
pub proof fn lemma_gf_mul_distributes(k: u8, x: u8, y: u8)
    by (bit_vector)
    ensures
        gf_mul(k, x ^ y) == gf_mul(k, x) ^ gf_mul(k, y),
{
}

/// An element has at most one inverse, and is the inverse of at most one
/// element.
pub proof fn lemma_inverse_unique(x: u8, y: u8, z: u8)
    ensures
        inverse_pair(x, y) && inverse_pair(x, z) ==> y == z,
        inverse_pair(y, x) && inverse_pair(z, x) ==> y == z,
{
    reveal(inverse_pair);
    assert({
        &&& gf_mul(x, y) == 1 && gf_mul(x, z) == 1 ==> y == z
        &&& gf_mul(y, x) == 1 && gf_mul(z, x) == 1 ==> y == z
        &&& gf_mul(y, 0) != 1 && gf_mul(z, 0) != 1
    }) by (bit_vector);
}

/// The product of `p` and three, as a shift and two XORs.
pub open spec fn times_three(p: u8) -> u8 {
    p ^ (p << 1) ^ (if (p & 0x80) != 0 { 0x1bu8 } else { 0u8 })
}

/// The quotient of `q` by three, which is its product with 0xf6, as three
/// shifts and four XORs.
pub open spec fn divided_by_three(q: u8) -> u8 {
    let q1 = q ^ (q << 1);
    let q2 = q1 ^ (q1 << 2);
    let q3 = q2 ^ (q2 << 4);
    q3 ^ (if (q3 & 0x80) != 0 { 0x09u8 } else { 0u8 })
}

/// Multiplying by three on one side and dividing by three on the other
/// keeps a product of one, and a factor of such a product is not zero.
pub proof fn lemma_three_step(p: u8, q: u8)
    by (bit_vector)
    requires
        gf_mul(p, q) == 1,
    ensures
        gf_mul(times_three(p), divided_by_three(q)) == 1,
        times_three(p) == gf_mul(3, p),
        times_three(p) != 0,
        p != 0,
{
}

/// One byte of a mixed column: the row (2 3 1 1) applied to the column as
/// seen from that byte's row.
pub open spec fn mix_byte(a0: u8, a1: u8, a2: u8, a3: u8) -> u8 {
    gf_mul(2, a0) ^ gf_mul(3, a1) ^ a2 ^ a3
}

/// One byte of an unmixed column: the row (14 11 13 9) applied to the column
/// as seen from that byte's row.
pub open spec fn inv_mix_byte(a0: u8, a1: u8, a2: u8, a3: u8) -> u8 {
    gf_mul(14, a0) ^ gf_mul(11, a1) ^ gf_mul(13, a2) ^ gf_mul(9, a3)
}

/// Multiplication by a fixed element distributes over a sum of four.
pub proof fn lemma_gf_mul_distributes4(k: u8, x: u8, y: u8, z: u8, w: u8)
    ensures
        gf_mul(k, x ^ y ^ z ^ w) == gf_mul(k, x) ^ gf_mul(k, y) ^ gf_mul(k, z) ^ gf_mul(k, w),
{
    lemma_gf_mul_distributes(k, x ^ y ^ z, w);
    lemma_gf_mul_distributes(k, x ^ y, z);
    lemma_gf_mul_distributes(k, x, y);
}

/// The entries of the product of the two mix matrices, one column at a
/// time: the diagonal entry is one and the others are zero, in either order
/// of the product.
proof fn lemma_mix_matrix_entries(a: u8)
    by (bit_vector)
    ensures
        gf_mul(14, gf_mul(2, a)) ^ gf_mul(11, a) ^ gf_mul(13, a) ^ gf_mul(9, gf_mul(3, a)) == a,
        gf_mul(14, gf_mul(3, a)) ^ gf_mul(11, gf_mul(2, a)) ^ gf_mul(13, a) ^ gf_mul(9, a) == 0,
        gf_mul(14, a) ^ gf_mul(11, gf_mul(3, a)) ^ gf_mul(13, gf_mul(2, a)) ^ gf_mul(9, a) == 0,
        gf_mul(14, a) ^ gf_mul(11, a) ^ gf_mul(13, gf_mul(3, a)) ^ gf_mul(9, gf_mul(2, a)) == 0,
        gf_mul(2, gf_mul(14, a)) ^ gf_mul(3, gf_mul(9, a)) ^ gf_mul(13, a) ^ gf_mul(11, a) == a,
        gf_mul(2, gf_mul(11, a)) ^ gf_mul(3, gf_mul(14, a)) ^ gf_mul(9, a) ^ gf_mul(13, a) == 0,
        gf_mul(2, gf_mul(13, a)) ^ gf_mul(3, gf_mul(11, a)) ^ gf_mul(14, a) ^ gf_mul(9, a) == 0,
        gf_mul(2, gf_mul(9, a)) ^ gf_mul(3, gf_mul(13, a)) ^ gf_mul(11, a) ^ gf_mul(14, a) == 0,
{
}

/// A sum of four rows of four terms, taken column by column: when the first
/// column sums to `a` and the others to zero, so does the whole.
proof fn lemma_xor_by_columns(
    a: u8,
    r0: (u8, u8, u8, u8),
    r1: (u8, u8, u8, u8),
    r2: (u8, u8, u8, u8),
    r3: (u8, u8, u8, u8),
)
    requires
        r0.0 ^ r1.0 ^ r2.0 ^ r3.0 == a,
        r0.1 ^ r1.1 ^ r2.1 ^ r3.1 == 0,
        r0.2 ^ r1.2 ^ r2.2 ^ r3.2 == 0,
        r0.3 ^ r1.3 ^ r2.3 ^ r3.3 == 0,
    ensures
        (r0.0 ^ r0.1 ^ r0.2 ^ r0.3) ^ (r1.1 ^ r1.2 ^ r1.3 ^ r1.0) ^ (r2.2 ^ r2.3 ^ r2.0 ^ r2.1) ^ (
        r3.3 ^ r3.0 ^ r3.1 ^ r3.2) == a,
{
    let (a0, b0, c0, d0) = r0;
    let (a1, b1, c1, d1) = r1;
    let (a2, b2, c2, d2) = r2;
    let (a3, b3, c3, d3) = r3;
    assert((a0 ^ b0 ^ c0 ^ d0) ^ (b1 ^ c1 ^ d1 ^ a1) ^ (c2 ^ d2 ^ a2 ^ b2) ^ (d3 ^ a3 ^ b3 ^ c3)
        == a) by (bit_vector)
        requires
            a0 ^ a1 ^ a2 ^ a3 == a,
            b0 ^ b1 ^ b2 ^ b3 == 0,
            c0 ^ c1 ^ c2 ^ c3 == 0,
            d0 ^ d1 ^ d2 ^ d3 == 0,
    ;
}

/// The column mix and its inverse cancel: with the rows (2 3 1 1) and
/// (14 11 13 9), each rotated one place per row, the product of the two
/// matrices is the identity, in either order.
pub proof fn lemma_mix_bytes_cancel(a: u8, b: u8, c: u8, d: u8)
    ensures
        inv_mix_byte(
            mix_byte(a, b, c, d),
            mix_byte(b, c, d, a),
            mix_byte(c, d, a, b),
            mix_byte(d, a, b, c),
        ) == a,
        mix_byte(
            inv_mix_byte(a, b, c, d),
            inv_mix_byte(b, c, d, a),
            inv_mix_byte(c, d, a, b),
            inv_mix_byte(d, a, b, c),
        ) == a,
{
    lemma_mix_matrix_entries(a);
    lemma_mix_matrix_entries(b);
    lemma_mix_matrix_entries(c);
    lemma_mix_matrix_entries(d);
    lemma_gf_mul_unit(a);
    lemma_gf_mul_unit(b);
    lemma_gf_mul_unit(c);
    lemma_gf_mul_unit(d);
    // inverse after forward: expand each outer product over its row
    lemma_gf_mul_distributes4(14, gf_mul(2, a), gf_mul(3, b), c, d);
    lemma_gf_mul_distributes4(11, gf_mul(2, b), gf_mul(3, c), d, a);
    lemma_gf_mul_distributes4(13, gf_mul(2, c), gf_mul(3, d), a, b);
    lemma_gf_mul_distributes4(9, gf_mul(2, d), gf_mul(3, a), b, c);
    lemma_xor_by_columns(
        a,
        (gf_mul(14, gf_mul(2, a)), gf_mul(14, gf_mul(3, b)), gf_mul(14, c), gf_mul(14, d)),
        (gf_mul(11, a), gf_mul(11, gf_mul(2, b)), gf_mul(11, gf_mul(3, c)), gf_mul(11, d)),
        (gf_mul(13, a), gf_mul(13, b), gf_mul(13, gf_mul(2, c)), gf_mul(13, gf_mul(3, d))),
        (gf_mul(9, gf_mul(3, a)), gf_mul(9, b), gf_mul(9, c), gf_mul(9, gf_mul(2, d))),
    );
    // forward after inverse
    lemma_gf_mul_distributes4(2, gf_mul(14, a), gf_mul(11, b), gf_mul(13, c), gf_mul(9, d));
    lemma_gf_mul_distributes4(3, gf_mul(14, b), gf_mul(11, c), gf_mul(13, d), gf_mul(9, a));
    lemma_xor_by_columns(
        a,
        (
            gf_mul(2, gf_mul(14, a)),
            gf_mul(2, gf_mul(11, b)),
            gf_mul(2, gf_mul(13, c)),
            gf_mul(2, gf_mul(9, d)),
        ),
        (
            gf_mul(3, gf_mul(9, a)),
            gf_mul(3, gf_mul(14, b)),
            gf_mul(3, gf_mul(11, c)),
            gf_mul(3, gf_mul(13, d)),
        ),
        (gf_mul(13, a), gf_mul(9, b), gf_mul(14, c), gf_mul(11, d)),
        (gf_mul(11, a), gf_mul(13, b), gf_mul(9, c), gf_mul(14, d)),
    );
}

/// The substitution box: the affine image of the inverse in GF(2^8).
pub const SBOX_TABLE: [u8; 256] = [
    0x63, 0x7c, 0x77, 0x7b, 0xf2, 0x6b, 0x6f, 0xc5, 0x30, 0x01, 0x67, 0x2b, 0xfe, 0xd7, 0xab, 0x76,
    0xca, 0x82, 0xc9, 0x7d, 0xfa, 0x59, 0x47, 0xf0, 0xad, 0xd4, 0xa2, 0xaf, 0x9c, 0xa4, 0x72, 0xc0,
    0xb7, 0xfd, 0x93, 0x26, 0x36, 0x3f, 0xf7, 0xcc, 0x34, 0xa5, 0xe5, 0xf1, 0x71, 0xd8, 0x31, 0x15,
    0x04, 0xc7, 0x23, 0xc3, 0x18, 0x96, 0x05, 0x9a, 0x07, 0x12, 0x80, 0xe2, 0xeb, 0x27, 0xb2, 0x75,
    0x09, 0x83, 0x2c, 0x1a, 0x1b, 0x6e, 0x5a, 0xa0, 0x52, 0x3b, 0xd6, 0xb3, 0x29, 0xe3, 0x2f, 0x84,
    0x53, 0xd1, 0x00, 0xed, 0x20, 0xfc, 0xb1, 0x5b, 0x6a, 0xcb, 0xbe, 0x39, 0x4a, 0x4c, 0x58, 0xcf,
    0xd0, 0xef, 0xaa, 0xfb, 0x43, 0x4d, 0x33, 0x85, 0x45, 0xf9, 0x02, 0x7f, 0x50, 0x3c, 0x9f, 0xa8,
    0x51, 0xa3, 0x40, 0x8f, 0x92, 0x9d, 0x38, 0xf5, 0xbc, 0xb6, 0xda, 0x21, 0x10, 0xff, 0xf3, 0xd2,
    0xcd, 0x0c, 0x13, 0xec, 0x5f, 0x97, 0x44, 0x17, 0xc4, 0xa7, 0x7e, 0x3d, 0x64, 0x5d, 0x19, 0x73,
    0x60, 0x81, 0x4f, 0xdc, 0x22, 0x2a, 0x90, 0x88, 0x46, 0xee, 0xb8, 0x14, 0xde, 0x5e, 0x0b, 0xdb,
    0xe0, 0x32, 0x3a, 0x0a, 0x49, 0x06, 0x24, 0x5c, 0xc2, 0xd3, 0xac, 0x62, 0x91, 0x95, 0xe4, 0x79,
    0xe7, 0xc8, 0x37, 0x6d, 0x8d, 0xd5, 0x4e, 0xa9, 0x6c, 0x56, 0xf4, 0xea, 0x65, 0x7a, 0xae, 0x08,
    0xba, 0x78, 0x25, 0x2e, 0x1c, 0xa6, 0xb4, 0xc6, 0xe8, 0xdd, 0x74, 0x1f, 0x4b, 0xbd, 0x8b, 0x8a,
    0x70, 0x3e, 0xb5, 0x66, 0x48, 0x03, 0xf6, 0x0e, 0x61, 0x35, 0x57, 0xb9, 0x86, 0xc1, 0x1d, 0x9e,
    0xe1, 0xf8, 0x98, 0x11, 0x69, 0xd9, 0x8e, 0x94, 0x9b, 0x1e, 0x87, 0xe9, 0xce, 0x55, 0x28, 0xdf,
    0x8c, 0xa1, 0x89, 0x0d, 0xbf, 0xe6, 0x42, 0x68, 0x41, 0x99, 0x2d, 0x0f, 0xb0, 0x54, 0xbb, 0x16,
];

/// The inverse substitution box.
pub const INV_SBOX_TABLE: [u8; 256] = [
    0x52, 0x09, 0x6a, 0xd5, 0x30, 0x36, 0xa5, 0x38, 0xbf, 0x40, 0xa3, 0x9e, 0x81, 0xf3, 0xd7, 0xfb,
    0x7c, 0xe3, 0x39, 0x82, 0x9b, 0x2f, 0xff, 0x87, 0x34, 0x8e, 0x43, 0x44, 0xc4, 0xde, 0xe9, 0xcb,
    0x54, 0x7b, 0x94, 0x32, 0xa6, 0xc2, 0x23, 0x3d, 0xee, 0x4c, 0x95, 0x0b, 0x42, 0xfa, 0xc3, 0x4e,
    0x08, 0x2e, 0xa1, 0x66, 0x28, 0xd9, 0x24, 0xb2, 0x76, 0x5b, 0xa2, 0x49, 0x6d, 0x8b, 0xd1, 0x25,
    0x72, 0xf8, 0xf6, 0x64, 0x86, 0x68, 0x98, 0x16, 0xd4, 0xa4, 0x5c, 0xcc, 0x5d, 0x65, 0xb6, 0x92,
    0x6c, 0x70, 0x48, 0x50, 0xfd, 0xed, 0xb9, 0xda, 0x5e, 0x15, 0x46, 0x57, 0xa7, 0x8d, 0x9d, 0x84,
    0x90, 0xd8, 0xab, 0x00, 0x8c, 0xbc, 0xd3, 0x0a, 0xf7, 0xe4, 0x58, 0x05, 0xb8, 0xb3, 0x45, 0x06,
    0xd0, 0x2c, 0x1e, 0x8f, 0xca, 0x3f, 0x0f, 0x02, 0xc1, 0xaf, 0xbd, 0x03, 0x01, 0x13, 0x8a, 0x6b,
    0x3a, 0x91, 0x11, 0x41, 0x4f, 0x67, 0xdc, 0xea, 0x97, 0xf2, 0xcf, 0xce, 0xf0, 0xb4, 0xe6, 0x73,
    0x96, 0xac, 0x74, 0x22, 0xe7, 0xad, 0x35, 0x85, 0xe2, 0xf9, 0x37, 0xe8, 0x1c, 0x75, 0xdf, 0x6e,
    0x47, 0xf1, 0x1a, 0x71, 0x1d, 0x29, 0xc5, 0x89, 0x6f, 0xb7, 0x62, 0x0e, 0xaa, 0x18, 0xbe, 0x1b,
    0xfc, 0x56, 0x3e, 0x4b, 0xc6, 0xd2, 0x79, 0x20, 0x9a, 0xdb, 0xc0, 0xfe, 0x78, 0xcd, 0x5a, 0xf4,
    0x1f, 0xdd, 0xa8, 0x33, 0x88, 0x07, 0xc7, 0x31, 0xb1, 0x12, 0x10, 0x59, 0x27, 0x80, 0xec, 0x5f,
    0x60, 0x51, 0x7f, 0xa9, 0x19, 0xb5, 0x4a, 0x0d, 0x2d, 0xe5, 0x7a, 0x9f, 0x93, 0xc9, 0x9c, 0xef,
    0xa0, 0xe0, 0x3b, 0x4d, 0xae, 0x2a, 0xf5, 0xb0, 0xc8, 0xeb, 0xbb, 0x3c, 0x83, 0x53, 0x99, 0x61,
    0x17, 0x2b, 0x04, 0x7e, 0xba, 0x77, 0xd6, 0x26, 0xe1, 0x69, 0x14, 0x63, 0x55, 0x21, 0x0c, 0x7d,
];

/// Products with two in GF(2^8).
pub const GMUL_2: [u8; 256] = [
    0x00, 0x02, 0x04, 0x06, 0x08, 0x0a, 0x0c, 0x0e, 0x10, 0x12, 0x14, 0x16, 0x18, 0x1a, 0x1c, 0x1e,
    0x20, 0x22, 0x24, 0x26, 0x28, 0x2a, 0x2c, 0x2e, 0x30, 0x32, 0x34, 0x36, 0x38, 0x3a, 0x3c, 0x3e,
    0x40, 0x42, 0x44, 0x46, 0x48, 0x4a, 0x4c, 0x4e, 0x50, 0x52, 0x54, 0x56, 0x58, 0x5a, 0x5c, 0x5e,
    0x60, 0x62, 0x64, 0x66, 0x68, 0x6a, 0x6c, 0x6e, 0x70, 0x72, 0x74, 0x76, 0x78, 0x7a, 0x7c, 0x7e,
    0x80, 0x82, 0x84, 0x86, 0x88, 0x8a, 0x8c, 0x8e, 0x90, 0x92, 0x94, 0x96, 0x98, 0x9a, 0x9c, 0x9e,
    0xa0, 0xa2, 0xa4, 0xa6, 0xa8, 0xaa, 0xac, 0xae, 0xb0, 0xb2, 0xb4, 0xb6, 0xb8, 0xba, 0xbc, 0xbe,
    0xc0, 0xc2, 0xc4, 0xc6, 0xc8, 0xca, 0xcc, 0xce, 0xd0, 0xd2, 0xd4, 0xd6, 0xd8, 0xda, 0xdc, 0xde,
    0xe0, 0xe2, 0xe4, 0xe6, 0xe8, 0xea, 0xec, 0xee, 0xf0, 0xf2, 0xf4, 0xf6, 0xf8, 0xfa, 0xfc, 0xfe,
    0x1b, 0x19, 0x1f, 0x1d, 0x13, 0x11, 0x17, 0x15, 0x0b, 0x09, 0x0f, 0x0d, 0x03, 0x01, 0x07, 0x05,
    0x3b, 0x39, 0x3f, 0x3d, 0x33, 0x31, 0x37, 0x35, 0x2b, 0x29, 0x2f, 0x2d, 0x23, 0x21, 0x27, 0x25,
    0x5b, 0x59, 0x5f, 0x5d, 0x53, 0x51, 0x57, 0x55, 0x4b, 0x49, 0x4f, 0x4d, 0x43, 0x41, 0x47, 0x45,
    0x7b, 0x79, 0x7f, 0x7d, 0x73, 0x71, 0x77, 0x75, 0x6b, 0x69, 0x6f, 0x6d, 0x63, 0x61, 0x67, 0x65,
    0x9b, 0x99, 0x9f, 0x9d, 0x93, 0x91, 0x97, 0x95, 0x8b, 0x89, 0x8f, 0x8d, 0x83, 0x81, 0x87, 0x85,
    0xbb, 0xb9, 0xbf, 0xbd, 0xb3, 0xb1, 0xb7, 0xb5, 0xab, 0xa9, 0xaf, 0xad, 0xa3, 0xa1, 0xa7, 0xa5,
    0xdb, 0xd9, 0xdf, 0xdd, 0xd3, 0xd1, 0xd7, 0xd5, 0xcb, 0xc9, 0xcf, 0xcd, 0xc3, 0xc1, 0xc7, 0xc5,
    0xfb, 0xf9, 0xff, 0xfd, 0xf3, 0xf1, 0xf7, 0xf5, 0xeb, 0xe9, 0xef, 0xed, 0xe3, 0xe1, 0xe7, 0xe5,
];

/// Products with three in GF(2^8).
pub const GMUL_3: [u8; 256] = [
    0x00, 0x03, 0x06, 0x05, 0x0c, 0x0f, 0x0a, 0x09, 0x18, 0x1b, 0x1e, 0x1d, 0x14, 0x17, 0x12, 0x11,
    0x30, 0x33, 0x36, 0x35, 0x3c, 0x3f, 0x3a, 0x39, 0x28, 0x2b, 0x2e, 0x2d, 0x24, 0x27, 0x22, 0x21,
    0x60, 0x63, 0x66, 0x65, 0x6c, 0x6f, 0x6a, 0x69, 0x78, 0x7b, 0x7e, 0x7d, 0x74, 0x77, 0x72, 0x71,
    0x50, 0x53, 0x56, 0x55, 0x5c, 0x5f, 0x5a, 0x59, 0x48, 0x4b, 0x4e, 0x4d, 0x44, 0x47, 0x42, 0x41,
    0xc0, 0xc3, 0xc6, 0xc5, 0xcc, 0xcf, 0xca, 0xc9, 0xd8, 0xdb, 0xde, 0xdd, 0xd4, 0xd7, 0xd2, 0xd1,
    0xf0, 0xf3, 0xf6, 0xf5, 0xfc, 0xff, 0xfa, 0xf9, 0xe8, 0xeb, 0xee, 0xed, 0xe4, 0xe7, 0xe2, 0xe1,
    0xa0, 0xa3, 0xa6, 0xa5, 0xac, 0xaf, 0xaa, 0xa9, 0xb8, 0xbb, 0xbe, 0xbd, 0xb4, 0xb7, 0xb2, 0xb1,
    0x90, 0x93, 0x96, 0x95, 0x9c, 0x9f, 0x9a, 0x99, 0x88, 0x8b, 0x8e, 0x8d, 0x84, 0x87, 0x82, 0x81,
    0x9b, 0x98, 0x9d, 0x9e, 0x97, 0x94, 0x91, 0x92, 0x83, 0x80, 0x85, 0x86, 0x8f, 0x8c, 0x89, 0x8a,
    0xab, 0xa8, 0xad, 0xae, 0xa7, 0xa4, 0xa1, 0xa2, 0xb3, 0xb0, 0xb5, 0xb6, 0xbf, 0xbc, 0xb9, 0xba,
    0xfb, 0xf8, 0xfd, 0xfe, 0xf7, 0xf4, 0xf1, 0xf2, 0xe3, 0xe0, 0xe5, 0xe6, 0xef, 0xec, 0xe9, 0xea,
    0xcb, 0xc8, 0xcd, 0xce, 0xc7, 0xc4, 0xc1, 0xc2, 0xd3, 0xd0, 0xd5, 0xd6, 0xdf, 0xdc, 0xd9, 0xda,
    0x5b, 0x58, 0x5d, 0x5e, 0x57, 0x54, 0x51, 0x52, 0x43, 0x40, 0x45, 0x46, 0x4f, 0x4c, 0x49, 0x4a,
    0x6b, 0x68, 0x6d, 0x6e, 0x67, 0x64, 0x61, 0x62, 0x73, 0x70, 0x75, 0x76, 0x7f, 0x7c, 0x79, 0x7a,
    0x3b, 0x38, 0x3d, 0x3e, 0x37, 0x34, 0x31, 0x32, 0x23, 0x20, 0x25, 0x26, 0x2f, 0x2c, 0x29, 0x2a,
    0x0b, 0x08, 0x0d, 0x0e, 0x07, 0x04, 0x01, 0x02, 0x13, 0x10, 0x15, 0x16, 0x1f, 0x1c, 0x19, 0x1a,
];

/// Products with nine in GF(2^8).
pub const GMUL_9: [u8; 256] = [
    0x00, 0x09, 0x12, 0x1b, 0x24, 0x2d, 0x36, 0x3f, 0x48, 0x41, 0x5a, 0x53, 0x6c, 0x65, 0x7e, 0x77,
    0x90, 0x99, 0x82, 0x8b, 0xb4, 0xbd, 0xa6, 0xaf, 0xd8, 0xd1, 0xca, 0xc3, 0xfc, 0xf5, 0xee, 0xe7,
    0x3b, 0x32, 0x29, 0x20, 0x1f, 0x16, 0x0d, 0x04, 0x73, 0x7a, 0x61, 0x68, 0x57, 0x5e, 0x45, 0x4c,
    0xab, 0xa2, 0xb9, 0xb0, 0x8f, 0x86, 0x9d, 0x94, 0xe3, 0xea, 0xf1, 0xf8, 0xc7, 0xce, 0xd5, 0xdc,
    0x76, 0x7f, 0x64, 0x6d, 0x52, 0x5b, 0x40, 0x49, 0x3e, 0x37, 0x2c, 0x25, 0x1a, 0x13, 0x08, 0x01,
    0xe6, 0xef, 0xf4, 0xfd, 0xc2, 0xcb, 0xd0, 0xd9, 0xae, 0xa7, 0xbc, 0xb5, 0x8a, 0x83, 0x98, 0x91,
    0x4d, 0x44, 0x5f, 0x56, 0x69, 0x60, 0x7b, 0x72, 0x05, 0x0c, 0x17, 0x1e, 0x21, 0x28, 0x33, 0x3a,
    0xdd, 0xd4, 0xcf, 0xc6, 0xf9, 0xf0, 0xeb, 0xe2, 0x95, 0x9c, 0x87, 0x8e, 0xb1, 0xb8, 0xa3, 0xaa,
    0xec, 0xe5, 0xfe, 0xf7, 0xc8, 0xc1, 0xda, 0xd3, 0xa4, 0xad, 0xb6, 0xbf, 0x80, 0x89, 0x92, 0x9b,
    0x7c, 0x75, 0x6e, 0x67, 0x58, 0x51, 0x4a, 0x43, 0x34, 0x3d, 0x26, 0x2f, 0x10, 0x19, 0x02, 0x0b,
    0xd7, 0xde, 0xc5, 0xcc, 0xf3, 0xfa, 0xe1, 0xe8, 0x9f, 0x96, 0x8d, 0x84, 0xbb, 0xb2, 0xa9, 0xa0,
    0x47, 0x4e, 0x55, 0x5c, 0x63, 0x6a, 0x71, 0x78, 0x0f, 0x06, 0x1d, 0x14, 0x2b, 0x22, 0x39, 0x30,
    0x9a, 0x93, 0x88, 0x81, 0xbe, 0xb7, 0xac, 0xa5, 0xd2, 0xdb, 0xc0, 0xc9, 0xf6, 0xff, 0xe4, 0xed,
    0x0a, 0x03, 0x18, 0x11, 0x2e, 0x27, 0x3c, 0x35, 0x42, 0x4b, 0x50, 0x59, 0x66, 0x6f, 0x74, 0x7d,
    0xa1, 0xa8, 0xb3, 0xba, 0x85, 0x8c, 0x97, 0x9e, 0xe9, 0xe0, 0xfb, 0xf2, 0xcd, 0xc4, 0xdf, 0xd6,
    0x31, 0x38, 0x23, 0x2a, 0x15, 0x1c, 0x07, 0x0e, 0x79, 0x70, 0x6b, 0x62, 0x5d, 0x54, 0x4f, 0x46,
];

/// Products with eleven in GF(2^8).
pub const GMUL_11: [u8; 256] = [
    0x00, 0x0b, 0x16, 0x1d, 0x2c, 0x27, 0x3a, 0x31, 0x58, 0x53, 0x4e, 0x45, 0x74, 0x7f, 0x62, 0x69,
    0xb0, 0xbb, 0xa6, 0xad, 0x9c, 0x97, 0x8a, 0x81, 0xe8, 0xe3, 0xfe, 0xf5, 0xc4, 0xcf, 0xd2, 0xd9,
    0x7b, 0x70, 0x6d, 0x66, 0x57, 0x5c, 0x41, 0x4a, 0x23, 0x28, 0x35, 0x3e, 0x0f, 0x04, 0x19, 0x12,
    0xcb, 0xc0, 0xdd, 0xd6, 0xe7, 0xec, 0xf1, 0xfa, 0x93, 0x98, 0x85, 0x8e, 0xbf, 0xb4, 0xa9, 0xa2,
    0xf6, 0xfd, 0xe0, 0xeb, 0xda, 0xd1, 0xcc, 0xc7, 0xae, 0xa5, 0xb8, 0xb3, 0x82, 0x89, 0x94, 0x9f,
    0x46, 0x4d, 0x50, 0x5b, 0x6a, 0x61, 0x7c, 0x77, 0x1e, 0x15, 0x08, 0x03, 0x32, 0x39, 0x24, 0x2f,
    0x8d, 0x86, 0x9b, 0x90, 0xa1, 0xaa, 0xb7, 0xbc, 0xd5, 0xde, 0xc3, 0xc8, 0xf9, 0xf2, 0xef, 0xe4,
    0x3d, 0x36, 0x2b, 0x20, 0x11, 0x1a, 0x07, 0x0c, 0x65, 0x6e, 0x73, 0x78, 0x49, 0x42, 0x5f, 0x54,
    0xf7, 0xfc, 0xe1, 0xea, 0xdb, 0xd0, 0xcd, 0xc6, 0xaf, 0xa4, 0xb9, 0xb2, 0x83, 0x88, 0x95, 0x9e,
    0x47, 0x4c, 0x51, 0x5a, 0x6b, 0x60, 0x7d, 0x76, 0x1f, 0x14, 0x09, 0x02, 0x33, 0x38, 0x25, 0x2e,
    0x8c, 0x87, 0x9a, 0x91, 0xa0, 0xab, 0xb6, 0xbd, 0xd4, 0xdf, 0xc2, 0xc9, 0xf8, 0xf3, 0xee, 0xe5,
    0x3c, 0x37, 0x2a, 0x21, 0x10, 0x1b, 0x06, 0x0d, 0x64, 0x6f, 0x72, 0x79, 0x48, 0x43, 0x5e, 0x55,
    0x01, 0x0a, 0x17, 0x1c, 0x2d, 0x26, 0x3b, 0x30, 0x59, 0x52, 0x4f, 0x44, 0x75, 0x7e, 0x63, 0x68,
    0xb1, 0xba, 0xa7, 0xac, 0x9d, 0x96, 0x8b, 0x80, 0xe9, 0xe2, 0xff, 0xf4, 0xc5, 0xce, 0xd3, 0xd8,
    0x7a, 0x71, 0x6c, 0x67, 0x56, 0x5d, 0x40, 0x4b, 0x22, 0x29, 0x34, 0x3f, 0x0e, 0x05, 0x18, 0x13,
    0xca, 0xc1, 0xdc, 0xd7, 0xe6, 0xed, 0xf0, 0xfb, 0x92, 0x99, 0x84, 0x8f, 0xbe, 0xb5, 0xa8, 0xa3,
];

/// Products with thirteen in GF(2^8).
pub const GMUL_13: [u8; 256] = [
    0x00, 0x0d, 0x1a, 0x17, 0x34, 0x39, 0x2e, 0x23, 0x68, 0x65, 0x72, 0x7f, 0x5c, 0x51, 0x46, 0x4b,
    0xd0, 0xdd, 0xca, 0xc7, 0xe4, 0xe9, 0xfe, 0xf3, 0xb8, 0xb5, 0xa2, 0xaf, 0x8c, 0x81, 0x96, 0x9b,
    0xbb, 0xb6, 0xa1, 0xac, 0x8f, 0x82, 0x95, 0x98, 0xd3, 0xde, 0xc9, 0xc4, 0xe7, 0xea, 0xfd, 0xf0,
    0x6b, 0x66, 0x71, 0x7c, 0x5f, 0x52, 0x45, 0x48, 0x03, 0x0e, 0x19, 0x14, 0x37, 0x3a, 0x2d, 0x20,
    0x6d, 0x60, 0x77, 0x7a, 0x59, 0x54, 0x43, 0x4e, 0x05, 0x08, 0x1f, 0x12, 0x31, 0x3c, 0x2b, 0x26,
    0xbd, 0xb0, 0xa7, 0xaa, 0x89, 0x84, 0x93, 0x9e, 0xd5, 0xd8, 0xcf, 0xc2, 0xe1, 0xec, 0xfb, 0xf6,
    0xd6, 0xdb, 0xcc, 0xc1, 0xe2, 0xef, 0xf8, 0xf5, 0xbe, 0xb3, 0xa4, 0xa9, 0x8a, 0x87, 0x90, 0x9d,
    0x06, 0x0b, 0x1c, 0x11, 0x32, 0x3f, 0x28, 0x25, 0x6e, 0x63, 0x74, 0x79, 0x5a, 0x57, 0x40, 0x4d,
    0xda, 0xd7, 0xc0, 0xcd, 0xee, 0xe3, 0xf4, 0xf9, 0xb2, 0xbf, 0xa8, 0xa5, 0x86, 0x8b, 0x9c, 0x91,
    0x0a, 0x07, 0x10, 0x1d, 0x3e, 0x33, 0x24, 0x29, 0x62, 0x6f, 0x78, 0x75, 0x56, 0x5b, 0x4c, 0x41,
    0x61, 0x6c, 0x7b, 0x76, 0x55, 0x58, 0x4f, 0x42, 0x09, 0x04, 0x13, 0x1e, 0x3d, 0x30, 0x27, 0x2a,
    0xb1, 0xbc, 0xab, 0xa6, 0x85, 0x88, 0x9f, 0x92, 0xd9, 0xd4, 0xc3, 0xce, 0xed, 0xe0, 0xf7, 0xfa,
    0xb7, 0xba, 0xad, 0xa0, 0x83, 0x8e, 0x99, 0x94, 0xdf, 0xd2, 0xc5, 0xc8, 0xeb, 0xe6, 0xf1, 0xfc,
    0x67, 0x6a, 0x7d, 0x70, 0x53, 0x5e, 0x49, 0x44, 0x0f, 0x02, 0x15, 0x18, 0x3b, 0x36, 0x21, 0x2c,
    0x0c, 0x01, 0x16, 0x1b, 0x38, 0x35, 0x22, 0x2f, 0x64, 0x69, 0x7e, 0x73, 0x50, 0x5d, 0x4a, 0x47,
    0xdc, 0xd1, 0xc6, 0xcb, 0xe8, 0xe5, 0xf2, 0xff, 0xb4, 0xb9, 0xae, 0xa3, 0x80, 0x8d, 0x9a, 0x97,
];

/// Products with fourteen in GF(2^8).
pub const GMUL_14: [u8; 256] = [
    0x00, 0x0e, 0x1c, 0x12, 0x38, 0x36, 0x24, 0x2a, 0x70, 0x7e, 0x6c, 0x62, 0x48, 0x46, 0x54, 0x5a,
    0xe0, 0xee, 0xfc, 0xf2, 0xd8, 0xd6, 0xc4, 0xca, 0x90, 0x9e, 0x8c, 0x82, 0xa8, 0xa6, 0xb4, 0xba,
    0xdb, 0xd5, 0xc7, 0xc9, 0xe3, 0xed, 0xff, 0xf1, 0xab, 0xa5, 0xb7, 0xb9, 0x93, 0x9d, 0x8f, 0x81,
    0x3b, 0x35, 0x27, 0x29, 0x03, 0x0d, 0x1f, 0x11, 0x4b, 0x45, 0x57, 0x59, 0x73, 0x7d, 0x6f, 0x61,
    0xad, 0xa3, 0xb1, 0xbf, 0x95, 0x9b, 0x89, 0x87, 0xdd, 0xd3, 0xc1, 0xcf, 0xe5, 0xeb, 0xf9, 0xf7,
    0x4d, 0x43, 0x51, 0x5f, 0x75, 0x7b, 0x69, 0x67, 0x3d, 0x33, 0x21, 0x2f, 0x05, 0x0b, 0x19, 0x17,
    0x76, 0x78, 0x6a, 0x64, 0x4e, 0x40, 0x52, 0x5c, 0x06, 0x08, 0x1a, 0x14, 0x3e, 0x30, 0x22, 0x2c,
    0x96, 0x98, 0x8a, 0x84, 0xae, 0xa0, 0xb2, 0xbc, 0xe6, 0xe8, 0xfa, 0xf4, 0xde, 0xd0, 0xc2, 0xcc,
    0x41, 0x4f, 0x5d, 0x53, 0x79, 0x77, 0x65, 0x6b, 0x31, 0x3f, 0x2d, 0x23, 0x09, 0x07, 0x15, 0x1b,
    0xa1, 0xaf, 0xbd, 0xb3, 0x99, 0x97, 0x85, 0x8b, 0xd1, 0xdf, 0xcd, 0xc3, 0xe9, 0xe7, 0xf5, 0xfb,
    0x9a, 0x94, 0x86, 0x88, 0xa2, 0xac, 0xbe, 0xb0, 0xea, 0xe4, 0xf6, 0xf8, 0xd2, 0xdc, 0xce, 0xc0,
    0x7a, 0x74, 0x66, 0x68, 0x42, 0x4c, 0x5e, 0x50, 0x0a, 0x04, 0x16, 0x18, 0x32, 0x3c, 0x2e, 0x20,
    0xec, 0xe2, 0xf0, 0xfe, 0xd4, 0xda, 0xc8, 0xc6, 0x9c, 0x92, 0x80, 0x8e, 0xa4, 0xaa, 0xb8, 0xb6,
    0x0c, 0x02, 0x10, 0x1e, 0x34, 0x3a, 0x28, 0x26, 0x7c, 0x72, 0x60, 0x6e, 0x44, 0x4a, 0x58, 0x56,
    0x37, 0x39, 0x2b, 0x25, 0x0f, 0x01, 0x13, 0x1d, 0x47, 0x49, 0x5b, 0x55, 0x7f, 0x71, 0x63, 0x6d,
    0xd7, 0xd9, 0xcb, 0xc5, 0xef, 0xe1, 0xf3, 0xfd, 0xa7, 0xa9, 0xbb, 0xb5, 0x9f, 0x91, 0x83, 0x8d,
];

/// The round constants of the key schedule: the powers of two in GF(2^8).
pub const RCON_RC: [u8; 10] = [
    0x01, 0x02, 0x04, 0x08, 0x10, 0x20, 0x40, 0x80, 0x1b, 0x36,
];

/// The substitution of one byte.
#[verifier::opaque]
pub open spec fn sbox(x: u8) -> u8 {
    SBOX_TABLE[x as int]
}

/// The inverse substitution of one byte.
#[verifier::opaque]
pub open spec fn inv_sbox(x: u8) -> u8 {
    INV_SBOX_TABLE[x as int]
}

/// The round constant with index `i`: two to the power `i` in GF(2^8).
pub open spec fn rcon(i: nat) -> u8
    decreases i,
{
    if i == 0 {
        1u8
    } else {
        xtime(rcon((i - 1) as nat))
    }
}

/// `GMUL_2` tabulates the product with two.
pub proof fn lemma_gmul_2(x: u8)
    ensures
        GMUL_2[x as int] == gf_mul(2, x),
{
    // every product, worked out bit by bit
    assert({
        &&& gf_mul(2, 0x00) == 0x00 && gf_mul(2, 0x01) == 0x02 && gf_mul(2, 0x02) == 0x04 && gf_mul(2, 0x03) == 0x06
        &&& gf_mul(2, 0x04) == 0x08 && gf_mul(2, 0x05) == 0x0a && gf_mul(2, 0x06) == 0x0c && gf_mul(2, 0x07) == 0x0e
        &&& gf_mul(2, 0x08) == 0x10 && gf_mul(2, 0x09) == 0x12 && gf_mul(2, 0x0a) == 0x14 && gf_mul(2, 0x0b) == 0x16
        &&& gf_mul(2, 0x0c) == 0x18 && gf_mul(2, 0x0d) == 0x1a && gf_mul(2, 0x0e) == 0x1c && gf_mul(2, 0x0f) == 0x1e
        &&& gf_mul(2, 0x10) == 0x20 && gf_mul(2, 0x11) == 0x22 && gf_mul(2, 0x12) == 0x24 && gf_mul(2, 0x13) == 0x26
        &&& gf_mul(2, 0x14) == 0x28 && gf_mul(2, 0x15) == 0x2a && gf_mul(2, 0x16) == 0x2c && gf_mul(2, 0x17) == 0x2e
        &&& gf_mul(2, 0x18) == 0x30 && gf_mul(2, 0x19) == 0x32 && gf_mul(2, 0x1a) == 0x34 && gf_mul(2, 0x1b) == 0x36
        &&& gf_mul(2, 0x1c) == 0x38 && gf_mul(2, 0x1d) == 0x3a && gf_mul(2, 0x1e) == 0x3c && gf_mul(2, 0x1f) == 0x3e
        &&& gf_mul(2, 0x20) == 0x40 && gf_mul(2, 0x21) == 0x42 && gf_mul(2, 0x22) == 0x44 && gf_mul(2, 0x23) == 0x46
        &&& gf_mul(2, 0x24) == 0x48 && gf_mul(2, 0x25) == 0x4a && gf_mul(2, 0x26) == 0x4c && gf_mul(2, 0x27) == 0x4e
        &&& gf_mul(2, 0x28) == 0x50 && gf_mul(2, 0x29) == 0x52 && gf_mul(2, 0x2a) == 0x54 && gf_mul(2, 0x2b) == 0x56
        &&& gf_mul(2, 0x2c) == 0x58 && gf_mul(2, 0x2d) == 0x5a && gf_mul(2, 0x2e) == 0x5c && gf_mul(2, 0x2f) == 0x5e
        &&& gf_mul(2, 0x30) == 0x60 && gf_mul(2, 0x31) == 0x62 && gf_mul(2, 0x32) == 0x64 && gf_mul(2, 0x33) == 0x66
        &&& gf_mul(2, 0x34) == 0x68 && gf_mul(2, 0x35) == 0x6a && gf_mul(2, 0x36) == 0x6c && gf_mul(2, 0x37) == 0x6e
        &&& gf_mul(2, 0x38) == 0x70 && gf_mul(2, 0x39) == 0x72 && gf_mul(2, 0x3a) == 0x74 && gf_mul(2, 0x3b) == 0x76
        &&& gf_mul(2, 0x3c) == 0x78 && gf_mul(2, 0x3d) == 0x7a && gf_mul(2, 0x3e) == 0x7c && gf_mul(2, 0x3f) == 0x7e
        &&& gf_mul(2, 0x40) == 0x80 && gf_mul(2, 0x41) == 0x82 && gf_mul(2, 0x42) == 0x84 && gf_mul(2, 0x43) == 0x86
        &&& gf_mul(2, 0x44) == 0x88 && gf_mul(2, 0x45) == 0x8a && gf_mul(2, 0x46) == 0x8c && gf_mul(2, 0x47) == 0x8e
        &&& gf_mul(2, 0x48) == 0x90 && gf_mul(2, 0x49) == 0x92 && gf_mul(2, 0x4a) == 0x94 && gf_mul(2, 0x4b) == 0x96
        &&& gf_mul(2, 0x4c) == 0x98 && gf_mul(2, 0x4d) == 0x9a && gf_mul(2, 0x4e) == 0x9c && gf_mul(2, 0x4f) == 0x9e
        &&& gf_mul(2, 0x50) == 0xa0 && gf_mul(2, 0x51) == 0xa2 && gf_mul(2, 0x52) == 0xa4 && gf_mul(2, 0x53) == 0xa6
        &&& gf_mul(2, 0x54) == 0xa8 && gf_mul(2, 0x55) == 0xaa && gf_mul(2, 0x56) == 0xac && gf_mul(2, 0x57) == 0xae
        &&& gf_mul(2, 0x58) == 0xb0 && gf_mul(2, 0x59) == 0xb2 && gf_mul(2, 0x5a) == 0xb4 && gf_mul(2, 0x5b) == 0xb6
        &&& gf_mul(2, 0x5c) == 0xb8 && gf_mul(2, 0x5d) == 0xba && gf_mul(2, 0x5e) == 0xbc && gf_mul(2, 0x5f) == 0xbe
        &&& gf_mul(2, 0x60) == 0xc0 && gf_mul(2, 0x61) == 0xc2 && gf_mul(2, 0x62) == 0xc4 && gf_mul(2, 0x63) == 0xc6
        &&& gf_mul(2, 0x64) == 0xc8 && gf_mul(2, 0x65) == 0xca && gf_mul(2, 0x66) == 0xcc && gf_mul(2, 0x67) == 0xce
        &&& gf_mul(2, 0x68) == 0xd0 && gf_mul(2, 0x69) == 0xd2 && gf_mul(2, 0x6a) == 0xd4 && gf_mul(2, 0x6b) == 0xd6
        &&& gf_mul(2, 0x6c) == 0xd8 && gf_mul(2, 0x6d) == 0xda && gf_mul(2, 0x6e) == 0xdc && gf_mul(2, 0x6f) == 0xde
        &&& gf_mul(2, 0x70) == 0xe0 && gf_mul(2, 0x71) == 0xe2 && gf_mul(2, 0x72) == 0xe4 && gf_mul(2, 0x73) == 0xe6
        &&& gf_mul(2, 0x74) == 0xe8 && gf_mul(2, 0x75) == 0xea && gf_mul(2, 0x76) == 0xec && gf_mul(2, 0x77) == 0xee
        &&& gf_mul(2, 0x78) == 0xf0 && gf_mul(2, 0x79) == 0xf2 && gf_mul(2, 0x7a) == 0xf4 && gf_mul(2, 0x7b) == 0xf6
        &&& gf_mul(2, 0x7c) == 0xf8 && gf_mul(2, 0x7d) == 0xfa && gf_mul(2, 0x7e) == 0xfc && gf_mul(2, 0x7f) == 0xfe
        &&& gf_mul(2, 0x80) == 0x1b && gf_mul(2, 0x81) == 0x19 && gf_mul(2, 0x82) == 0x1f && gf_mul(2, 0x83) == 0x1d
        &&& gf_mul(2, 0x84) == 0x13 && gf_mul(2, 0x85) == 0x11 && gf_mul(2, 0x86) == 0x17 && gf_mul(2, 0x87) == 0x15
        &&& gf_mul(2, 0x88) == 0x0b && gf_mul(2, 0x89) == 0x09 && gf_mul(2, 0x8a) == 0x0f && gf_mul(2, 0x8b) == 0x0d
        &&& gf_mul(2, 0x8c) == 0x03 && gf_mul(2, 0x8d) == 0x01 && gf_mul(2, 0x8e) == 0x07 && gf_mul(2, 0x8f) == 0x05
        &&& gf_mul(2, 0x90) == 0x3b && gf_mul(2, 0x91) == 0x39 && gf_mul(2, 0x92) == 0x3f && gf_mul(2, 0x93) == 0x3d
        &&& gf_mul(2, 0x94) == 0x33 && gf_mul(2, 0x95) == 0x31 && gf_mul(2, 0x96) == 0x37 && gf_mul(2, 0x97) == 0x35
        &&& gf_mul(2, 0x98) == 0x2b && gf_mul(2, 0x99) == 0x29 && gf_mul(2, 0x9a) == 0x2f && gf_mul(2, 0x9b) == 0x2d
        &&& gf_mul(2, 0x9c) == 0x23 && gf_mul(2, 0x9d) == 0x21 && gf_mul(2, 0x9e) == 0x27 && gf_mul(2, 0x9f) == 0x25
        &&& gf_mul(2, 0xa0) == 0x5b && gf_mul(2, 0xa1) == 0x59 && gf_mul(2, 0xa2) == 0x5f && gf_mul(2, 0xa3) == 0x5d
        &&& gf_mul(2, 0xa4) == 0x53 && gf_mul(2, 0xa5) == 0x51 && gf_mul(2, 0xa6) == 0x57 && gf_mul(2, 0xa7) == 0x55
        &&& gf_mul(2, 0xa8) == 0x4b && gf_mul(2, 0xa9) == 0x49 && gf_mul(2, 0xaa) == 0x4f && gf_mul(2, 0xab) == 0x4d
        &&& gf_mul(2, 0xac) == 0x43 && gf_mul(2, 0xad) == 0x41 && gf_mul(2, 0xae) == 0x47 && gf_mul(2, 0xaf) == 0x45
        &&& gf_mul(2, 0xb0) == 0x7b && gf_mul(2, 0xb1) == 0x79 && gf_mul(2, 0xb2) == 0x7f && gf_mul(2, 0xb3) == 0x7d
        &&& gf_mul(2, 0xb4) == 0x73 && gf_mul(2, 0xb5) == 0x71 && gf_mul(2, 0xb6) == 0x77 && gf_mul(2, 0xb7) == 0x75
        &&& gf_mul(2, 0xb8) == 0x6b && gf_mul(2, 0xb9) == 0x69 && gf_mul(2, 0xba) == 0x6f && gf_mul(2, 0xbb) == 0x6d
        &&& gf_mul(2, 0xbc) == 0x63 && gf_mul(2, 0xbd) == 0x61 && gf_mul(2, 0xbe) == 0x67 && gf_mul(2, 0xbf) == 0x65
        &&& gf_mul(2, 0xc0) == 0x9b && gf_mul(2, 0xc1) == 0x99 && gf_mul(2, 0xc2) == 0x9f && gf_mul(2, 0xc3) == 0x9d
        &&& gf_mul(2, 0xc4) == 0x93 && gf_mul(2, 0xc5) == 0x91 && gf_mul(2, 0xc6) == 0x97 && gf_mul(2, 0xc7) == 0x95
        &&& gf_mul(2, 0xc8) == 0x8b && gf_mul(2, 0xc9) == 0x89 && gf_mul(2, 0xca) == 0x8f && gf_mul(2, 0xcb) == 0x8d
        &&& gf_mul(2, 0xcc) == 0x83 && gf_mul(2, 0xcd) == 0x81 && gf_mul(2, 0xce) == 0x87 && gf_mul(2, 0xcf) == 0x85
        &&& gf_mul(2, 0xd0) == 0xbb && gf_mul(2, 0xd1) == 0xb9 && gf_mul(2, 0xd2) == 0xbf && gf_mul(2, 0xd3) == 0xbd
        &&& gf_mul(2, 0xd4) == 0xb3 && gf_mul(2, 0xd5) == 0xb1 && gf_mul(2, 0xd6) == 0xb7 && gf_mul(2, 0xd7) == 0xb5
        &&& gf_mul(2, 0xd8) == 0xab && gf_mul(2, 0xd9) == 0xa9 && gf_mul(2, 0xda) == 0xaf && gf_mul(2, 0xdb) == 0xad
        &&& gf_mul(2, 0xdc) == 0xa3 && gf_mul(2, 0xdd) == 0xa1 && gf_mul(2, 0xde) == 0xa7 && gf_mul(2, 0xdf) == 0xa5
        &&& gf_mul(2, 0xe0) == 0xdb && gf_mul(2, 0xe1) == 0xd9 && gf_mul(2, 0xe2) == 0xdf && gf_mul(2, 0xe3) == 0xdd
        &&& gf_mul(2, 0xe4) == 0xd3 && gf_mul(2, 0xe5) == 0xd1 && gf_mul(2, 0xe6) == 0xd7 && gf_mul(2, 0xe7) == 0xd5
        &&& gf_mul(2, 0xe8) == 0xcb && gf_mul(2, 0xe9) == 0xc9 && gf_mul(2, 0xea) == 0xcf && gf_mul(2, 0xeb) == 0xcd
        &&& gf_mul(2, 0xec) == 0xc3 && gf_mul(2, 0xed) == 0xc1 && gf_mul(2, 0xee) == 0xc7 && gf_mul(2, 0xef) == 0xc5
        &&& gf_mul(2, 0xf0) == 0xfb && gf_mul(2, 0xf1) == 0xf9 && gf_mul(2, 0xf2) == 0xff && gf_mul(2, 0xf3) == 0xfd
        &&& gf_mul(2, 0xf4) == 0xf3 && gf_mul(2, 0xf5) == 0xf1 && gf_mul(2, 0xf6) == 0xf7 && gf_mul(2, 0xf7) == 0xf5
        &&& gf_mul(2, 0xf8) == 0xeb && gf_mul(2, 0xf9) == 0xe9 && gf_mul(2, 0xfa) == 0xef && gf_mul(2, 0xfb) == 0xed
        &&& gf_mul(2, 0xfc) == 0xe3 && gf_mul(2, 0xfd) == 0xe1 && gf_mul(2, 0xfe) == 0xe7 && gf_mul(2, 0xff) == 0xe5
    }) by (bit_vector);
}

/// `GMUL_3` tabulates the product with three.
pub proof fn lemma_gmul_3(x: u8)
    ensures
        GMUL_3[x as int] == gf_mul(3, x),
{
    // every product, worked out bit by bit
    assert({
        &&& gf_mul(3, 0x00) == 0x00 && gf_mul(3, 0x01) == 0x03 && gf_mul(3, 0x02) == 0x06 && gf_mul(3, 0x03) == 0x05
        &&& gf_mul(3, 0x04) == 0x0c && gf_mul(3, 0x05) == 0x0f && gf_mul(3, 0x06) == 0x0a && gf_mul(3, 0x07) == 0x09
        &&& gf_mul(3, 0x08) == 0x18 && gf_mul(3, 0x09) == 0x1b && gf_mul(3, 0x0a) == 0x1e && gf_mul(3, 0x0b) == 0x1d
        &&& gf_mul(3, 0x0c) == 0x14 && gf_mul(3, 0x0d) == 0x17 && gf_mul(3, 0x0e) == 0x12 && gf_mul(3, 0x0f) == 0x11
        &&& gf_mul(3, 0x10) == 0x30 && gf_mul(3, 0x11) == 0x33 && gf_mul(3, 0x12) == 0x36 && gf_mul(3, 0x13) == 0x35
        &&& gf_mul(3, 0x14) == 0x3c && gf_mul(3, 0x15) == 0x3f && gf_mul(3, 0x16) == 0x3a && gf_mul(3, 0x17) == 0x39
        &&& gf_mul(3, 0x18) == 0x28 && gf_mul(3, 0x19) == 0x2b && gf_mul(3, 0x1a) == 0x2e && gf_mul(3, 0x1b) == 0x2d
        &&& gf_mul(3, 0x1c) == 0x24 && gf_mul(3, 0x1d) == 0x27 && gf_mul(3, 0x1e) == 0x22 && gf_mul(3, 0x1f) == 0x21
        &&& gf_mul(3, 0x20) == 0x60 && gf_mul(3, 0x21) == 0x63 && gf_mul(3, 0x22) == 0x66 && gf_mul(3, 0x23) == 0x65
        &&& gf_mul(3, 0x24) == 0x6c && gf_mul(3, 0x25) == 0x6f && gf_mul(3, 0x26) == 0x6a && gf_mul(3, 0x27) == 0x69
        &&& gf_mul(3, 0x28) == 0x78 && gf_mul(3, 0x29) == 0x7b && gf_mul(3, 0x2a) == 0x7e && gf_mul(3, 0x2b) == 0x7d
        &&& gf_mul(3, 0x2c) == 0x74 && gf_mul(3, 0x2d) == 0x77 && gf_mul(3, 0x2e) == 0x72 && gf_mul(3, 0x2f) == 0x71
        &&& gf_mul(3, 0x30) == 0x50 && gf_mul(3, 0x31) == 0x53 && gf_mul(3, 0x32) == 0x56 && gf_mul(3, 0x33) == 0x55
        &&& gf_mul(3, 0x34) == 0x5c && gf_mul(3, 0x35) == 0x5f && gf_mul(3, 0x36) == 0x5a && gf_mul(3, 0x37) == 0x59
        &&& gf_mul(3, 0x38) == 0x48 && gf_mul(3, 0x39) == 0x4b && gf_mul(3, 0x3a) == 0x4e && gf_mul(3, 0x3b) == 0x4d
        &&& gf_mul(3, 0x3c) == 0x44 && gf_mul(3, 0x3d) == 0x47 && gf_mul(3, 0x3e) == 0x42 && gf_mul(3, 0x3f) == 0x41
        &&& gf_mul(3, 0x40) == 0xc0 && gf_mul(3, 0x41) == 0xc3 && gf_mul(3, 0x42) == 0xc6 && gf_mul(3, 0x43) == 0xc5
        &&& gf_mul(3, 0x44) == 0xcc && gf_mul(3, 0x45) == 0xcf && gf_mul(3, 0x46) == 0xca && gf_mul(3, 0x47) == 0xc9
        &&& gf_mul(3, 0x48) == 0xd8 && gf_mul(3, 0x49) == 0xdb && gf_mul(3, 0x4a) == 0xde && gf_mul(3, 0x4b) == 0xdd
        &&& gf_mul(3, 0x4c) == 0xd4 && gf_mul(3, 0x4d) == 0xd7 && gf_mul(3, 0x4e) == 0xd2 && gf_mul(3, 0x4f) == 0xd1
        &&& gf_mul(3, 0x50) == 0xf0 && gf_mul(3, 0x51) == 0xf3 && gf_mul(3, 0x52) == 0xf6 && gf_mul(3, 0x53) == 0xf5
        &&& gf_mul(3, 0x54) == 0xfc && gf_mul(3, 0x55) == 0xff && gf_mul(3, 0x56) == 0xfa && gf_mul(3, 0x57) == 0xf9
        &&& gf_mul(3, 0x58) == 0xe8 && gf_mul(3, 0x59) == 0xeb && gf_mul(3, 0x5a) == 0xee && gf_mul(3, 0x5b) == 0xed
        &&& gf_mul(3, 0x5c) == 0xe4 && gf_mul(3, 0x5d) == 0xe7 && gf_mul(3, 0x5e) == 0xe2 && gf_mul(3, 0x5f) == 0xe1
        &&& gf_mul(3, 0x60) == 0xa0 && gf_mul(3, 0x61) == 0xa3 && gf_mul(3, 0x62) == 0xa6 && gf_mul(3, 0x63) == 0xa5
        &&& gf_mul(3, 0x64) == 0xac && gf_mul(3, 0x65) == 0xaf && gf_mul(3, 0x66) == 0xaa && gf_mul(3, 0x67) == 0xa9
        &&& gf_mul(3, 0x68) == 0xb8 && gf_mul(3, 0x69) == 0xbb && gf_mul(3, 0x6a) == 0xbe && gf_mul(3, 0x6b) == 0xbd
        &&& gf_mul(3, 0x6c) == 0xb4 && gf_mul(3, 0x6d) == 0xb7 && gf_mul(3, 0x6e) == 0xb2 && gf_mul(3, 0x6f) == 0xb1
        &&& gf_mul(3, 0x70) == 0x90 && gf_mul(3, 0x71) == 0x93 && gf_mul(3, 0x72) == 0x96 && gf_mul(3, 0x73) == 0x95
        &&& gf_mul(3, 0x74) == 0x9c && gf_mul(3, 0x75) == 0x9f && gf_mul(3, 0x76) == 0x9a && gf_mul(3, 0x77) == 0x99
        &&& gf_mul(3, 0x78) == 0x88 && gf_mul(3, 0x79) == 0x8b && gf_mul(3, 0x7a) == 0x8e && gf_mul(3, 0x7b) == 0x8d
        &&& gf_mul(3, 0x7c) == 0x84 && gf_mul(3, 0x7d) == 0x87 && gf_mul(3, 0x7e) == 0x82 && gf_mul(3, 0x7f) == 0x81
        &&& gf_mul(3, 0x80) == 0x9b && gf_mul(3, 0x81) == 0x98 && gf_mul(3, 0x82) == 0x9d && gf_mul(3, 0x83) == 0x9e
        &&& gf_mul(3, 0x84) == 0x97 && gf_mul(3, 0x85) == 0x94 && gf_mul(3, 0x86) == 0x91 && gf_mul(3, 0x87) == 0x92
        &&& gf_mul(3, 0x88) == 0x83 && gf_mul(3, 0x89) == 0x80 && gf_mul(3, 0x8a) == 0x85 && gf_mul(3, 0x8b) == 0x86
        &&& gf_mul(3, 0x8c) == 0x8f && gf_mul(3, 0x8d) == 0x8c && gf_mul(3, 0x8e) == 0x89 && gf_mul(3, 0x8f) == 0x8a
        &&& gf_mul(3, 0x90) == 0xab && gf_mul(3, 0x91) == 0xa8 && gf_mul(3, 0x92) == 0xad && gf_mul(3, 0x93) == 0xae
        &&& gf_mul(3, 0x94) == 0xa7 && gf_mul(3, 0x95) == 0xa4 && gf_mul(3, 0x96) == 0xa1 && gf_mul(3, 0x97) == 0xa2
        &&& gf_mul(3, 0x98) == 0xb3 && gf_mul(3, 0x99) == 0xb0 && gf_mul(3, 0x9a) == 0xb5 && gf_mul(3, 0x9b) == 0xb6
        &&& gf_mul(3, 0x9c) == 0xbf && gf_mul(3, 0x9d) == 0xbc && gf_mul(3, 0x9e) == 0xb9 && gf_mul(3, 0x9f) == 0xba
        &&& gf_mul(3, 0xa0) == 0xfb && gf_mul(3, 0xa1) == 0xf8 && gf_mul(3, 0xa2) == 0xfd && gf_mul(3, 0xa3) == 0xfe
        &&& gf_mul(3, 0xa4) == 0xf7 && gf_mul(3, 0xa5) == 0xf4 && gf_mul(3, 0xa6) == 0xf1 && gf_mul(3, 0xa7) == 0xf2
        &&& gf_mul(3, 0xa8) == 0xe3 && gf_mul(3, 0xa9) == 0xe0 && gf_mul(3, 0xaa) == 0xe5 && gf_mul(3, 0xab) == 0xe6
        &&& gf_mul(3, 0xac) == 0xef && gf_mul(3, 0xad) == 0xec && gf_mul(3, 0xae) == 0xe9 && gf_mul(3, 0xaf) == 0xea
        &&& gf_mul(3, 0xb0) == 0xcb && gf_mul(3, 0xb1) == 0xc8 && gf_mul(3, 0xb2) == 0xcd && gf_mul(3, 0xb3) == 0xce
        &&& gf_mul(3, 0xb4) == 0xc7 && gf_mul(3, 0xb5) == 0xc4 && gf_mul(3, 0xb6) == 0xc1 && gf_mul(3, 0xb7) == 0xc2
        &&& gf_mul(3, 0xb8) == 0xd3 && gf_mul(3, 0xb9) == 0xd0 && gf_mul(3, 0xba) == 0xd5 && gf_mul(3, 0xbb) == 0xd6
        &&& gf_mul(3, 0xbc) == 0xdf && gf_mul(3, 0xbd) == 0xdc && gf_mul(3, 0xbe) == 0xd9 && gf_mul(3, 0xbf) == 0xda
        &&& gf_mul(3, 0xc0) == 0x5b && gf_mul(3, 0xc1) == 0x58 && gf_mul(3, 0xc2) == 0x5d && gf_mul(3, 0xc3) == 0x5e
        &&& gf_mul(3, 0xc4) == 0x57 && gf_mul(3, 0xc5) == 0x54 && gf_mul(3, 0xc6) == 0x51 && gf_mul(3, 0xc7) == 0x52
        &&& gf_mul(3, 0xc8) == 0x43 && gf_mul(3, 0xc9) == 0x40 && gf_mul(3, 0xca) == 0x45 && gf_mul(3, 0xcb) == 0x46
        &&& gf_mul(3, 0xcc) == 0x4f && gf_mul(3, 0xcd) == 0x4c && gf_mul(3, 0xce) == 0x49 && gf_mul(3, 0xcf) == 0x4a
        &&& gf_mul(3, 0xd0) == 0x6b && gf_mul(3, 0xd1) == 0x68 && gf_mul(3, 0xd2) == 0x6d && gf_mul(3, 0xd3) == 0x6e
        &&& gf_mul(3, 0xd4) == 0x67 && gf_mul(3, 0xd5) == 0x64 && gf_mul(3, 0xd6) == 0x61 && gf_mul(3, 0xd7) == 0x62
        &&& gf_mul(3, 0xd8) == 0x73 && gf_mul(3, 0xd9) == 0x70 && gf_mul(3, 0xda) == 0x75 && gf_mul(3, 0xdb) == 0x76
        &&& gf_mul(3, 0xdc) == 0x7f && gf_mul(3, 0xdd) == 0x7c && gf_mul(3, 0xde) == 0x79 && gf_mul(3, 0xdf) == 0x7a
        &&& gf_mul(3, 0xe0) == 0x3b && gf_mul(3, 0xe1) == 0x38 && gf_mul(3, 0xe2) == 0x3d && gf_mul(3, 0xe3) == 0x3e
        &&& gf_mul(3, 0xe4) == 0x37 && gf_mul(3, 0xe5) == 0x34 && gf_mul(3, 0xe6) == 0x31 && gf_mul(3, 0xe7) == 0x32
        &&& gf_mul(3, 0xe8) == 0x23 && gf_mul(3, 0xe9) == 0x20 && gf_mul(3, 0xea) == 0x25 && gf_mul(3, 0xeb) == 0x26
        &&& gf_mul(3, 0xec) == 0x2f && gf_mul(3, 0xed) == 0x2c && gf_mul(3, 0xee) == 0x29 && gf_mul(3, 0xef) == 0x2a
        &&& gf_mul(3, 0xf0) == 0x0b && gf_mul(3, 0xf1) == 0x08 && gf_mul(3, 0xf2) == 0x0d && gf_mul(3, 0xf3) == 0x0e
        &&& gf_mul(3, 0xf4) == 0x07 && gf_mul(3, 0xf5) == 0x04 && gf_mul(3, 0xf6) == 0x01 && gf_mul(3, 0xf7) == 0x02
        &&& gf_mul(3, 0xf8) == 0x13 && gf_mul(3, 0xf9) == 0x10 && gf_mul(3, 0xfa) == 0x15 && gf_mul(3, 0xfb) == 0x16
        &&& gf_mul(3, 0xfc) == 0x1f && gf_mul(3, 0xfd) == 0x1c && gf_mul(3, 0xfe) == 0x19 && gf_mul(3, 0xff) == 0x1a
    }) by (bit_vector);
}

/// `GMUL_9` tabulates the product with nine.
pub proof fn lemma_gmul_9(x: u8)
    ensures
        GMUL_9[x as int] == gf_mul(9, x),
{
    // every product, worked out bit by bit
    assert({
        &&& gf_mul(9, 0x00) == 0x00 && gf_mul(9, 0x01) == 0x09 && gf_mul(9, 0x02) == 0x12 && gf_mul(9, 0x03) == 0x1b
        &&& gf_mul(9, 0x04) == 0x24 && gf_mul(9, 0x05) == 0x2d && gf_mul(9, 0x06) == 0x36 && gf_mul(9, 0x07) == 0x3f
        &&& gf_mul(9, 0x08) == 0x48 && gf_mul(9, 0x09) == 0x41 && gf_mul(9, 0x0a) == 0x5a && gf_mul(9, 0x0b) == 0x53
        &&& gf_mul(9, 0x0c) == 0x6c && gf_mul(9, 0x0d) == 0x65 && gf_mul(9, 0x0e) == 0x7e && gf_mul(9, 0x0f) == 0x77
        &&& gf_mul(9, 0x10) == 0x90 && gf_mul(9, 0x11) == 0x99 && gf_mul(9, 0x12) == 0x82 && gf_mul(9, 0x13) == 0x8b
        &&& gf_mul(9, 0x14) == 0xb4 && gf_mul(9, 0x15) == 0xbd && gf_mul(9, 0x16) == 0xa6 && gf_mul(9, 0x17) == 0xaf
        &&& gf_mul(9, 0x18) == 0xd8 && gf_mul(9, 0x19) == 0xd1 && gf_mul(9, 0x1a) == 0xca && gf_mul(9, 0x1b) == 0xc3
        &&& gf_mul(9, 0x1c) == 0xfc && gf_mul(9, 0x1d) == 0xf5 && gf_mul(9, 0x1e) == 0xee && gf_mul(9, 0x1f) == 0xe7
        &&& gf_mul(9, 0x20) == 0x3b && gf_mul(9, 0x21) == 0x32 && gf_mul(9, 0x22) == 0x29 && gf_mul(9, 0x23) == 0x20
        &&& gf_mul(9, 0x24) == 0x1f && gf_mul(9, 0x25) == 0x16 && gf_mul(9, 0x26) == 0x0d && gf_mul(9, 0x27) == 0x04
        &&& gf_mul(9, 0x28) == 0x73 && gf_mul(9, 0x29) == 0x7a && gf_mul(9, 0x2a) == 0x61 && gf_mul(9, 0x2b) == 0x68
        &&& gf_mul(9, 0x2c) == 0x57 && gf_mul(9, 0x2d) == 0x5e && gf_mul(9, 0x2e) == 0x45 && gf_mul(9, 0x2f) == 0x4c
        &&& gf_mul(9, 0x30) == 0xab && gf_mul(9, 0x31) == 0xa2 && gf_mul(9, 0x32) == 0xb9 && gf_mul(9, 0x33) == 0xb0
        &&& gf_mul(9, 0x34) == 0x8f && gf_mul(9, 0x35) == 0x86 && gf_mul(9, 0x36) == 0x9d && gf_mul(9, 0x37) == 0x94
        &&& gf_mul(9, 0x38) == 0xe3 && gf_mul(9, 0x39) == 0xea && gf_mul(9, 0x3a) == 0xf1 && gf_mul(9, 0x3b) == 0xf8
        &&& gf_mul(9, 0x3c) == 0xc7 && gf_mul(9, 0x3d) == 0xce && gf_mul(9, 0x3e) == 0xd5 && gf_mul(9, 0x3f) == 0xdc
        &&& gf_mul(9, 0x40) == 0x76 && gf_mul(9, 0x41) == 0x7f && gf_mul(9, 0x42) == 0x64 && gf_mul(9, 0x43) == 0x6d
        &&& gf_mul(9, 0x44) == 0x52 && gf_mul(9, 0x45) == 0x5b && gf_mul(9, 0x46) == 0x40 && gf_mul(9, 0x47) == 0x49
        &&& gf_mul(9, 0x48) == 0x3e && gf_mul(9, 0x49) == 0x37 && gf_mul(9, 0x4a) == 0x2c && gf_mul(9, 0x4b) == 0x25
        &&& gf_mul(9, 0x4c) == 0x1a && gf_mul(9, 0x4d) == 0x13 && gf_mul(9, 0x4e) == 0x08 && gf_mul(9, 0x4f) == 0x01
        &&& gf_mul(9, 0x50) == 0xe6 && gf_mul(9, 0x51) == 0xef && gf_mul(9, 0x52) == 0xf4 && gf_mul(9, 0x53) == 0xfd
        &&& gf_mul(9, 0x54) == 0xc2 && gf_mul(9, 0x55) == 0xcb && gf_mul(9, 0x56) == 0xd0 && gf_mul(9, 0x57) == 0xd9
        &&& gf_mul(9, 0x58) == 0xae && gf_mul(9, 0x59) == 0xa7 && gf_mul(9, 0x5a) == 0xbc && gf_mul(9, 0x5b) == 0xb5
        &&& gf_mul(9, 0x5c) == 0x8a && gf_mul(9, 0x5d) == 0x83 && gf_mul(9, 0x5e) == 0x98 && gf_mul(9, 0x5f) == 0x91
        &&& gf_mul(9, 0x60) == 0x4d && gf_mul(9, 0x61) == 0x44 && gf_mul(9, 0x62) == 0x5f && gf_mul(9, 0x63) == 0x56
        &&& gf_mul(9, 0x64) == 0x69 && gf_mul(9, 0x65) == 0x60 && gf_mul(9, 0x66) == 0x7b && gf_mul(9, 0x67) == 0x72
        &&& gf_mul(9, 0x68) == 0x05 && gf_mul(9, 0x69) == 0x0c && gf_mul(9, 0x6a) == 0x17 && gf_mul(9, 0x6b) == 0x1e
        &&& gf_mul(9, 0x6c) == 0x21 && gf_mul(9, 0x6d) == 0x28 && gf_mul(9, 0x6e) == 0x33 && gf_mul(9, 0x6f) == 0x3a
        &&& gf_mul(9, 0x70) == 0xdd && gf_mul(9, 0x71) == 0xd4 && gf_mul(9, 0x72) == 0xcf && gf_mul(9, 0x73) == 0xc6
        &&& gf_mul(9, 0x74) == 0xf9 && gf_mul(9, 0x75) == 0xf0 && gf_mul(9, 0x76) == 0xeb && gf_mul(9, 0x77) == 0xe2
        &&& gf_mul(9, 0x78) == 0x95 && gf_mul(9, 0x79) == 0x9c && gf_mul(9, 0x7a) == 0x87 && gf_mul(9, 0x7b) == 0x8e
        &&& gf_mul(9, 0x7c) == 0xb1 && gf_mul(9, 0x7d) == 0xb8 && gf_mul(9, 0x7e) == 0xa3 && gf_mul(9, 0x7f) == 0xaa
        &&& gf_mul(9, 0x80) == 0xec && gf_mul(9, 0x81) == 0xe5 && gf_mul(9, 0x82) == 0xfe && gf_mul(9, 0x83) == 0xf7
        &&& gf_mul(9, 0x84) == 0xc8 && gf_mul(9, 0x85) == 0xc1 && gf_mul(9, 0x86) == 0xda && gf_mul(9, 0x87) == 0xd3
        &&& gf_mul(9, 0x88) == 0xa4 && gf_mul(9, 0x89) == 0xad && gf_mul(9, 0x8a) == 0xb6 && gf_mul(9, 0x8b) == 0xbf
        &&& gf_mul(9, 0x8c) == 0x80 && gf_mul(9, 0x8d) == 0x89 && gf_mul(9, 0x8e) == 0x92 && gf_mul(9, 0x8f) == 0x9b
        &&& gf_mul(9, 0x90) == 0x7c && gf_mul(9, 0x91) == 0x75 && gf_mul(9, 0x92) == 0x6e && gf_mul(9, 0x93) == 0x67
        &&& gf_mul(9, 0x94) == 0x58 && gf_mul(9, 0x95) == 0x51 && gf_mul(9, 0x96) == 0x4a && gf_mul(9, 0x97) == 0x43
        &&& gf_mul(9, 0x98) == 0x34 && gf_mul(9, 0x99) == 0x3d && gf_mul(9, 0x9a) == 0x26 && gf_mul(9, 0x9b) == 0x2f
        &&& gf_mul(9, 0x9c) == 0x10 && gf_mul(9, 0x9d) == 0x19 && gf_mul(9, 0x9e) == 0x02 && gf_mul(9, 0x9f) == 0x0b
        &&& gf_mul(9, 0xa0) == 0xd7 && gf_mul(9, 0xa1) == 0xde && gf_mul(9, 0xa2) == 0xc5 && gf_mul(9, 0xa3) == 0xcc
        &&& gf_mul(9, 0xa4) == 0xf3 && gf_mul(9, 0xa5) == 0xfa && gf_mul(9, 0xa6) == 0xe1 && gf_mul(9, 0xa7) == 0xe8
        &&& gf_mul(9, 0xa8) == 0x9f && gf_mul(9, 0xa9) == 0x96 && gf_mul(9, 0xaa) == 0x8d && gf_mul(9, 0xab) == 0x84
        &&& gf_mul(9, 0xac) == 0xbb && gf_mul(9, 0xad) == 0xb2 && gf_mul(9, 0xae) == 0xa9 && gf_mul(9, 0xaf) == 0xa0
        &&& gf_mul(9, 0xb0) == 0x47 && gf_mul(9, 0xb1) == 0x4e && gf_mul(9, 0xb2) == 0x55 && gf_mul(9, 0xb3) == 0x5c
        &&& gf_mul(9, 0xb4) == 0x63 && gf_mul(9, 0xb5) == 0x6a && gf_mul(9, 0xb6) == 0x71 && gf_mul(9, 0xb7) == 0x78
        &&& gf_mul(9, 0xb8) == 0x0f && gf_mul(9, 0xb9) == 0x06 && gf_mul(9, 0xba) == 0x1d && gf_mul(9, 0xbb) == 0x14
        &&& gf_mul(9, 0xbc) == 0x2b && gf_mul(9, 0xbd) == 0x22 && gf_mul(9, 0xbe) == 0x39 && gf_mul(9, 0xbf) == 0x30
        &&& gf_mul(9, 0xc0) == 0x9a && gf_mul(9, 0xc1) == 0x93 && gf_mul(9, 0xc2) == 0x88 && gf_mul(9, 0xc3) == 0x81
        &&& gf_mul(9, 0xc4) == 0xbe && gf_mul(9, 0xc5) == 0xb7 && gf_mul(9, 0xc6) == 0xac && gf_mul(9, 0xc7) == 0xa5
        &&& gf_mul(9, 0xc8) == 0xd2 && gf_mul(9, 0xc9) == 0xdb && gf_mul(9, 0xca) == 0xc0 && gf_mul(9, 0xcb) == 0xc9
        &&& gf_mul(9, 0xcc) == 0xf6 && gf_mul(9, 0xcd) == 0xff && gf_mul(9, 0xce) == 0xe4 && gf_mul(9, 0xcf) == 0xed
        &&& gf_mul(9, 0xd0) == 0x0a && gf_mul(9, 0xd1) == 0x03 && gf_mul(9, 0xd2) == 0x18 && gf_mul(9, 0xd3) == 0x11
        &&& gf_mul(9, 0xd4) == 0x2e && gf_mul(9, 0xd5) == 0x27 && gf_mul(9, 0xd6) == 0x3c && gf_mul(9, 0xd7) == 0x35
        &&& gf_mul(9, 0xd8) == 0x42 && gf_mul(9, 0xd9) == 0x4b && gf_mul(9, 0xda) == 0x50 && gf_mul(9, 0xdb) == 0x59
        &&& gf_mul(9, 0xdc) == 0x66 && gf_mul(9, 0xdd) == 0x6f && gf_mul(9, 0xde) == 0x74 && gf_mul(9, 0xdf) == 0x7d
        &&& gf_mul(9, 0xe0) == 0xa1 && gf_mul(9, 0xe1) == 0xa8 && gf_mul(9, 0xe2) == 0xb3 && gf_mul(9, 0xe3) == 0xba
        &&& gf_mul(9, 0xe4) == 0x85 && gf_mul(9, 0xe5) == 0x8c && gf_mul(9, 0xe6) == 0x97 && gf_mul(9, 0xe7) == 0x9e
        &&& gf_mul(9, 0xe8) == 0xe9 && gf_mul(9, 0xe9) == 0xe0 && gf_mul(9, 0xea) == 0xfb && gf_mul(9, 0xeb) == 0xf2
        &&& gf_mul(9, 0xec) == 0xcd && gf_mul(9, 0xed) == 0xc4 && gf_mul(9, 0xee) == 0xdf && gf_mul(9, 0xef) == 0xd6
        &&& gf_mul(9, 0xf0) == 0x31 && gf_mul(9, 0xf1) == 0x38 && gf_mul(9, 0xf2) == 0x23 && gf_mul(9, 0xf3) == 0x2a
        &&& gf_mul(9, 0xf4) == 0x15 && gf_mul(9, 0xf5) == 0x1c && gf_mul(9, 0xf6) == 0x07 && gf_mul(9, 0xf7) == 0x0e
        &&& gf_mul(9, 0xf8) == 0x79 && gf_mul(9, 0xf9) == 0x70 && gf_mul(9, 0xfa) == 0x6b && gf_mul(9, 0xfb) == 0x62
        &&& gf_mul(9, 0xfc) == 0x5d && gf_mul(9, 0xfd) == 0x54 && gf_mul(9, 0xfe) == 0x4f && gf_mul(9, 0xff) == 0x46
    }) by (bit_vector);
}

/// `GMUL_11` tabulates the product with eleven.
pub proof fn lemma_gmul_11(x: u8)
    ensures
        GMUL_11[x as int] == gf_mul(11, x),
{
    // every product, worked out bit by bit
    assert({
        &&& gf_mul(11, 0x00) == 0x00 && gf_mul(11, 0x01) == 0x0b && gf_mul(11, 0x02) == 0x16 && gf_mul(11, 0x03) == 0x1d
        &&& gf_mul(11, 0x04) == 0x2c && gf_mul(11, 0x05) == 0x27 && gf_mul(11, 0x06) == 0x3a && gf_mul(11, 0x07) == 0x31
        &&& gf_mul(11, 0x08) == 0x58 && gf_mul(11, 0x09) == 0x53 && gf_mul(11, 0x0a) == 0x4e && gf_mul(11, 0x0b) == 0x45
        &&& gf_mul(11, 0x0c) == 0x74 && gf_mul(11, 0x0d) == 0x7f && gf_mul(11, 0x0e) == 0x62 && gf_mul(11, 0x0f) == 0x69
        &&& gf_mul(11, 0x10) == 0xb0 && gf_mul(11, 0x11) == 0xbb && gf_mul(11, 0x12) == 0xa6 && gf_mul(11, 0x13) == 0xad
        &&& gf_mul(11, 0x14) == 0x9c && gf_mul(11, 0x15) == 0x97 && gf_mul(11, 0x16) == 0x8a && gf_mul(11, 0x17) == 0x81
        &&& gf_mul(11, 0x18) == 0xe8 && gf_mul(11, 0x19) == 0xe3 && gf_mul(11, 0x1a) == 0xfe && gf_mul(11, 0x1b) == 0xf5
        &&& gf_mul(11, 0x1c) == 0xc4 && gf_mul(11, 0x1d) == 0xcf && gf_mul(11, 0x1e) == 0xd2 && gf_mul(11, 0x1f) == 0xd9
        &&& gf_mul(11, 0x20) == 0x7b && gf_mul(11, 0x21) == 0x70 && gf_mul(11, 0x22) == 0x6d && gf_mul(11, 0x23) == 0x66
        &&& gf_mul(11, 0x24) == 0x57 && gf_mul(11, 0x25) == 0x5c && gf_mul(11, 0x26) == 0x41 && gf_mul(11, 0x27) == 0x4a
        &&& gf_mul(11, 0x28) == 0x23 && gf_mul(11, 0x29) == 0x28 && gf_mul(11, 0x2a) == 0x35 && gf_mul(11, 0x2b) == 0x3e
        &&& gf_mul(11, 0x2c) == 0x0f && gf_mul(11, 0x2d) == 0x04 && gf_mul(11, 0x2e) == 0x19 && gf_mul(11, 0x2f) == 0x12
        &&& gf_mul(11, 0x30) == 0xcb && gf_mul(11, 0x31) == 0xc0 && gf_mul(11, 0x32) == 0xdd && gf_mul(11, 0x33) == 0xd6
        &&& gf_mul(11, 0x34) == 0xe7 && gf_mul(11, 0x35) == 0xec && gf_mul(11, 0x36) == 0xf1 && gf_mul(11, 0x37) == 0xfa
        &&& gf_mul(11, 0x38) == 0x93 && gf_mul(11, 0x39) == 0x98 && gf_mul(11, 0x3a) == 0x85 && gf_mul(11, 0x3b) == 0x8e
        &&& gf_mul(11, 0x3c) == 0xbf && gf_mul(11, 0x3d) == 0xb4 && gf_mul(11, 0x3e) == 0xa9 && gf_mul(11, 0x3f) == 0xa2
        &&& gf_mul(11, 0x40) == 0xf6 && gf_mul(11, 0x41) == 0xfd && gf_mul(11, 0x42) == 0xe0 && gf_mul(11, 0x43) == 0xeb
        &&& gf_mul(11, 0x44) == 0xda && gf_mul(11, 0x45) == 0xd1 && gf_mul(11, 0x46) == 0xcc && gf_mul(11, 0x47) == 0xc7
        &&& gf_mul(11, 0x48) == 0xae && gf_mul(11, 0x49) == 0xa5 && gf_mul(11, 0x4a) == 0xb8 && gf_mul(11, 0x4b) == 0xb3
        &&& gf_mul(11, 0x4c) == 0x82 && gf_mul(11, 0x4d) == 0x89 && gf_mul(11, 0x4e) == 0x94 && gf_mul(11, 0x4f) == 0x9f
        &&& gf_mul(11, 0x50) == 0x46 && gf_mul(11, 0x51) == 0x4d && gf_mul(11, 0x52) == 0x50 && gf_mul(11, 0x53) == 0x5b
        &&& gf_mul(11, 0x54) == 0x6a && gf_mul(11, 0x55) == 0x61 && gf_mul(11, 0x56) == 0x7c && gf_mul(11, 0x57) == 0x77
        &&& gf_mul(11, 0x58) == 0x1e && gf_mul(11, 0x59) == 0x15 && gf_mul(11, 0x5a) == 0x08 && gf_mul(11, 0x5b) == 0x03
        &&& gf_mul(11, 0x5c) == 0x32 && gf_mul(11, 0x5d) == 0x39 && gf_mul(11, 0x5e) == 0x24 && gf_mul(11, 0x5f) == 0x2f
        &&& gf_mul(11, 0x60) == 0x8d && gf_mul(11, 0x61) == 0x86 && gf_mul(11, 0x62) == 0x9b && gf_mul(11, 0x63) == 0x90
        &&& gf_mul(11, 0x64) == 0xa1 && gf_mul(11, 0x65) == 0xaa && gf_mul(11, 0x66) == 0xb7 && gf_mul(11, 0x67) == 0xbc
        &&& gf_mul(11, 0x68) == 0xd5 && gf_mul(11, 0x69) == 0xde && gf_mul(11, 0x6a) == 0xc3 && gf_mul(11, 0x6b) == 0xc8
        &&& gf_mul(11, 0x6c) == 0xf9 && gf_mul(11, 0x6d) == 0xf2 && gf_mul(11, 0x6e) == 0xef && gf_mul(11, 0x6f) == 0xe4
        &&& gf_mul(11, 0x70) == 0x3d && gf_mul(11, 0x71) == 0x36 && gf_mul(11, 0x72) == 0x2b && gf_mul(11, 0x73) == 0x20
        &&& gf_mul(11, 0x74) == 0x11 && gf_mul(11, 0x75) == 0x1a && gf_mul(11, 0x76) == 0x07 && gf_mul(11, 0x77) == 0x0c
        &&& gf_mul(11, 0x78) == 0x65 && gf_mul(11, 0x79) == 0x6e && gf_mul(11, 0x7a) == 0x73 && gf_mul(11, 0x7b) == 0x78
        &&& gf_mul(11, 0x7c) == 0x49 && gf_mul(11, 0x7d) == 0x42 && gf_mul(11, 0x7e) == 0x5f && gf_mul(11, 0x7f) == 0x54
        &&& gf_mul(11, 0x80) == 0xf7 && gf_mul(11, 0x81) == 0xfc && gf_mul(11, 0x82) == 0xe1 && gf_mul(11, 0x83) == 0xea
        &&& gf_mul(11, 0x84) == 0xdb && gf_mul(11, 0x85) == 0xd0 && gf_mul(11, 0x86) == 0xcd && gf_mul(11, 0x87) == 0xc6
        &&& gf_mul(11, 0x88) == 0xaf && gf_mul(11, 0x89) == 0xa4 && gf_mul(11, 0x8a) == 0xb9 && gf_mul(11, 0x8b) == 0xb2
        &&& gf_mul(11, 0x8c) == 0x83 && gf_mul(11, 0x8d) == 0x88 && gf_mul(11, 0x8e) == 0x95 && gf_mul(11, 0x8f) == 0x9e
        &&& gf_mul(11, 0x90) == 0x47 && gf_mul(11, 0x91) == 0x4c && gf_mul(11, 0x92) == 0x51 && gf_mul(11, 0x93) == 0x5a
        &&& gf_mul(11, 0x94) == 0x6b && gf_mul(11, 0x95) == 0x60 && gf_mul(11, 0x96) == 0x7d && gf_mul(11, 0x97) == 0x76
        &&& gf_mul(11, 0x98) == 0x1f && gf_mul(11, 0x99) == 0x14 && gf_mul(11, 0x9a) == 0x09 && gf_mul(11, 0x9b) == 0x02
        &&& gf_mul(11, 0x9c) == 0x33 && gf_mul(11, 0x9d) == 0x38 && gf_mul(11, 0x9e) == 0x25 && gf_mul(11, 0x9f) == 0x2e
        &&& gf_mul(11, 0xa0) == 0x8c && gf_mul(11, 0xa1) == 0x87 && gf_mul(11, 0xa2) == 0x9a && gf_mul(11, 0xa3) == 0x91
        &&& gf_mul(11, 0xa4) == 0xa0 && gf_mul(11, 0xa5) == 0xab && gf_mul(11, 0xa6) == 0xb6 && gf_mul(11, 0xa7) == 0xbd
        &&& gf_mul(11, 0xa8) == 0xd4 && gf_mul(11, 0xa9) == 0xdf && gf_mul(11, 0xaa) == 0xc2 && gf_mul(11, 0xab) == 0xc9
        &&& gf_mul(11, 0xac) == 0xf8 && gf_mul(11, 0xad) == 0xf3 && gf_mul(11, 0xae) == 0xee && gf_mul(11, 0xaf) == 0xe5
        &&& gf_mul(11, 0xb0) == 0x3c && gf_mul(11, 0xb1) == 0x37 && gf_mul(11, 0xb2) == 0x2a && gf_mul(11, 0xb3) == 0x21
        &&& gf_mul(11, 0xb4) == 0x10 && gf_mul(11, 0xb5) == 0x1b && gf_mul(11, 0xb6) == 0x06 && gf_mul(11, 0xb7) == 0x0d
        &&& gf_mul(11, 0xb8) == 0x64 && gf_mul(11, 0xb9) == 0x6f && gf_mul(11, 0xba) == 0x72 && gf_mul(11, 0xbb) == 0x79
        &&& gf_mul(11, 0xbc) == 0x48 && gf_mul(11, 0xbd) == 0x43 && gf_mul(11, 0xbe) == 0x5e && gf_mul(11, 0xbf) == 0x55
        &&& gf_mul(11, 0xc0) == 0x01 && gf_mul(11, 0xc1) == 0x0a && gf_mul(11, 0xc2) == 0x17 && gf_mul(11, 0xc3) == 0x1c
        &&& gf_mul(11, 0xc4) == 0x2d && gf_mul(11, 0xc5) == 0x26 && gf_mul(11, 0xc6) == 0x3b && gf_mul(11, 0xc7) == 0x30
        &&& gf_mul(11, 0xc8) == 0x59 && gf_mul(11, 0xc9) == 0x52 && gf_mul(11, 0xca) == 0x4f && gf_mul(11, 0xcb) == 0x44
        &&& gf_mul(11, 0xcc) == 0x75 && gf_mul(11, 0xcd) == 0x7e && gf_mul(11, 0xce) == 0x63 && gf_mul(11, 0xcf) == 0x68
        &&& gf_mul(11, 0xd0) == 0xb1 && gf_mul(11, 0xd1) == 0xba && gf_mul(11, 0xd2) == 0xa7 && gf_mul(11, 0xd3) == 0xac
        &&& gf_mul(11, 0xd4) == 0x9d && gf_mul(11, 0xd5) == 0x96 && gf_mul(11, 0xd6) == 0x8b && gf_mul(11, 0xd7) == 0x80
        &&& gf_mul(11, 0xd8) == 0xe9 && gf_mul(11, 0xd9) == 0xe2 && gf_mul(11, 0xda) == 0xff && gf_mul(11, 0xdb) == 0xf4
        &&& gf_mul(11, 0xdc) == 0xc5 && gf_mul(11, 0xdd) == 0xce && gf_mul(11, 0xde) == 0xd3 && gf_mul(11, 0xdf) == 0xd8
        &&& gf_mul(11, 0xe0) == 0x7a && gf_mul(11, 0xe1) == 0x71 && gf_mul(11, 0xe2) == 0x6c && gf_mul(11, 0xe3) == 0x67
        &&& gf_mul(11, 0xe4) == 0x56 && gf_mul(11, 0xe5) == 0x5d && gf_mul(11, 0xe6) == 0x40 && gf_mul(11, 0xe7) == 0x4b
        &&& gf_mul(11, 0xe8) == 0x22 && gf_mul(11, 0xe9) == 0x29 && gf_mul(11, 0xea) == 0x34 && gf_mul(11, 0xeb) == 0x3f
        &&& gf_mul(11, 0xec) == 0x0e && gf_mul(11, 0xed) == 0x05 && gf_mul(11, 0xee) == 0x18 && gf_mul(11, 0xef) == 0x13
        &&& gf_mul(11, 0xf0) == 0xca && gf_mul(11, 0xf1) == 0xc1 && gf_mul(11, 0xf2) == 0xdc && gf_mul(11, 0xf3) == 0xd7
        &&& gf_mul(11, 0xf4) == 0xe6 && gf_mul(11, 0xf5) == 0xed && gf_mul(11, 0xf6) == 0xf0 && gf_mul(11, 0xf7) == 0xfb
        &&& gf_mul(11, 0xf8) == 0x92 && gf_mul(11, 0xf9) == 0x99 && gf_mul(11, 0xfa) == 0x84 && gf_mul(11, 0xfb) == 0x8f
        &&& gf_mul(11, 0xfc) == 0xbe && gf_mul(11, 0xfd) == 0xb5 && gf_mul(11, 0xfe) == 0xa8 && gf_mul(11, 0xff) == 0xa3
    }) by (bit_vector);
}

/// `GMUL_13` tabulates the product with thirteen.
pub proof fn lemma_gmul_13(x: u8)
    ensures
        GMUL_13[x as int] == gf_mul(13, x),
{
    // every product, worked out bit by bit
    assert({
        &&& gf_mul(13, 0x00) == 0x00 && gf_mul(13, 0x01) == 0x0d && gf_mul(13, 0x02) == 0x1a && gf_mul(13, 0x03) == 0x17
        &&& gf_mul(13, 0x04) == 0x34 && gf_mul(13, 0x05) == 0x39 && gf_mul(13, 0x06) == 0x2e && gf_mul(13, 0x07) == 0x23
        &&& gf_mul(13, 0x08) == 0x68 && gf_mul(13, 0x09) == 0x65 && gf_mul(13, 0x0a) == 0x72 && gf_mul(13, 0x0b) == 0x7f
        &&& gf_mul(13, 0x0c) == 0x5c && gf_mul(13, 0x0d) == 0x51 && gf_mul(13, 0x0e) == 0x46 && gf_mul(13, 0x0f) == 0x4b
        &&& gf_mul(13, 0x10) == 0xd0 && gf_mul(13, 0x11) == 0xdd && gf_mul(13, 0x12) == 0xca && gf_mul(13, 0x13) == 0xc7
        &&& gf_mul(13, 0x14) == 0xe4 && gf_mul(13, 0x15) == 0xe9 && gf_mul(13, 0x16) == 0xfe && gf_mul(13, 0x17) == 0xf3
        &&& gf_mul(13, 0x18) == 0xb8 && gf_mul(13, 0x19) == 0xb5 && gf_mul(13, 0x1a) == 0xa2 && gf_mul(13, 0x1b) == 0xaf
        &&& gf_mul(13, 0x1c) == 0x8c && gf_mul(13, 0x1d) == 0x81 && gf_mul(13, 0x1e) == 0x96 && gf_mul(13, 0x1f) == 0x9b
        &&& gf_mul(13, 0x20) == 0xbb && gf_mul(13, 0x21) == 0xb6 && gf_mul(13, 0x22) == 0xa1 && gf_mul(13, 0x23) == 0xac
        &&& gf_mul(13, 0x24) == 0x8f && gf_mul(13, 0x25) == 0x82 && gf_mul(13, 0x26) == 0x95 && gf_mul(13, 0x27) == 0x98
        &&& gf_mul(13, 0x28) == 0xd3 && gf_mul(13, 0x29) == 0xde && gf_mul(13, 0x2a) == 0xc9 && gf_mul(13, 0x2b) == 0xc4
        &&& gf_mul(13, 0x2c) == 0xe7 && gf_mul(13, 0x2d) == 0xea && gf_mul(13, 0x2e) == 0xfd && gf_mul(13, 0x2f) == 0xf0
        &&& gf_mul(13, 0x30) == 0x6b && gf_mul(13, 0x31) == 0x66 && gf_mul(13, 0x32) == 0x71 && gf_mul(13, 0x33) == 0x7c
        &&& gf_mul(13, 0x34) == 0x5f && gf_mul(13, 0x35) == 0x52 && gf_mul(13, 0x36) == 0x45 && gf_mul(13, 0x37) == 0x48
        &&& gf_mul(13, 0x38) == 0x03 && gf_mul(13, 0x39) == 0x0e && gf_mul(13, 0x3a) == 0x19 && gf_mul(13, 0x3b) == 0x14
        &&& gf_mul(13, 0x3c) == 0x37 && gf_mul(13, 0x3d) == 0x3a && gf_mul(13, 0x3e) == 0x2d && gf_mul(13, 0x3f) == 0x20
        &&& gf_mul(13, 0x40) == 0x6d && gf_mul(13, 0x41) == 0x60 && gf_mul(13, 0x42) == 0x77 && gf_mul(13, 0x43) == 0x7a
        &&& gf_mul(13, 0x44) == 0x59 && gf_mul(13, 0x45) == 0x54 && gf_mul(13, 0x46) == 0x43 && gf_mul(13, 0x47) == 0x4e
        &&& gf_mul(13, 0x48) == 0x05 && gf_mul(13, 0x49) == 0x08 && gf_mul(13, 0x4a) == 0x1f && gf_mul(13, 0x4b) == 0x12
        &&& gf_mul(13, 0x4c) == 0x31 && gf_mul(13, 0x4d) == 0x3c && gf_mul(13, 0x4e) == 0x2b && gf_mul(13, 0x4f) == 0x26
        &&& gf_mul(13, 0x50) == 0xbd && gf_mul(13, 0x51) == 0xb0 && gf_mul(13, 0x52) == 0xa7 && gf_mul(13, 0x53) == 0xaa
        &&& gf_mul(13, 0x54) == 0x89 && gf_mul(13, 0x55) == 0x84 && gf_mul(13, 0x56) == 0x93 && gf_mul(13, 0x57) == 0x9e
        &&& gf_mul(13, 0x58) == 0xd5 && gf_mul(13, 0x59) == 0xd8 && gf_mul(13, 0x5a) == 0xcf && gf_mul(13, 0x5b) == 0xc2
        &&& gf_mul(13, 0x5c) == 0xe1 && gf_mul(13, 0x5d) == 0xec && gf_mul(13, 0x5e) == 0xfb && gf_mul(13, 0x5f) == 0xf6
        &&& gf_mul(13, 0x60) == 0xd6 && gf_mul(13, 0x61) == 0xdb && gf_mul(13, 0x62) == 0xcc && gf_mul(13, 0x63) == 0xc1
        &&& gf_mul(13, 0x64) == 0xe2 && gf_mul(13, 0x65) == 0xef && gf_mul(13, 0x66) == 0xf8 && gf_mul(13, 0x67) == 0xf5
        &&& gf_mul(13, 0x68) == 0xbe && gf_mul(13, 0x69) == 0xb3 && gf_mul(13, 0x6a) == 0xa4 && gf_mul(13, 0x6b) == 0xa9
        &&& gf_mul(13, 0x6c) == 0x8a && gf_mul(13, 0x6d) == 0x87 && gf_mul(13, 0x6e) == 0x90 && gf_mul(13, 0x6f) == 0x9d
        &&& gf_mul(13, 0x70) == 0x06 && gf_mul(13, 0x71) == 0x0b && gf_mul(13, 0x72) == 0x1c && gf_mul(13, 0x73) == 0x11
        &&& gf_mul(13, 0x74) == 0x32 && gf_mul(13, 0x75) == 0x3f && gf_mul(13, 0x76) == 0x28 && gf_mul(13, 0x77) == 0x25
        &&& gf_mul(13, 0x78) == 0x6e && gf_mul(13, 0x79) == 0x63 && gf_mul(13, 0x7a) == 0x74 && gf_mul(13, 0x7b) == 0x79
        &&& gf_mul(13, 0x7c) == 0x5a && gf_mul(13, 0x7d) == 0x57 && gf_mul(13, 0x7e) == 0x40 && gf_mul(13, 0x7f) == 0x4d
        &&& gf_mul(13, 0x80) == 0xda && gf_mul(13, 0x81) == 0xd7 && gf_mul(13, 0x82) == 0xc0 && gf_mul(13, 0x83) == 0xcd
        &&& gf_mul(13, 0x84) == 0xee && gf_mul(13, 0x85) == 0xe3 && gf_mul(13, 0x86) == 0xf4 && gf_mul(13, 0x87) == 0xf9
        &&& gf_mul(13, 0x88) == 0xb2 && gf_mul(13, 0x89) == 0xbf && gf_mul(13, 0x8a) == 0xa8 && gf_mul(13, 0x8b) == 0xa5
        &&& gf_mul(13, 0x8c) == 0x86 && gf_mul(13, 0x8d) == 0x8b && gf_mul(13, 0x8e) == 0x9c && gf_mul(13, 0x8f) == 0x91
        &&& gf_mul(13, 0x90) == 0x0a && gf_mul(13, 0x91) == 0x07 && gf_mul(13, 0x92) == 0x10 && gf_mul(13, 0x93) == 0x1d
        &&& gf_mul(13, 0x94) == 0x3e && gf_mul(13, 0x95) == 0x33 && gf_mul(13, 0x96) == 0x24 && gf_mul(13, 0x97) == 0x29
        &&& gf_mul(13, 0x98) == 0x62 && gf_mul(13, 0x99) == 0x6f && gf_mul(13, 0x9a) == 0x78 && gf_mul(13, 0x9b) == 0x75
        &&& gf_mul(13, 0x9c) == 0x56 && gf_mul(13, 0x9d) == 0x5b && gf_mul(13, 0x9e) == 0x4c && gf_mul(13, 0x9f) == 0x41
        &&& gf_mul(13, 0xa0) == 0x61 && gf_mul(13, 0xa1) == 0x6c && gf_mul(13, 0xa2) == 0x7b && gf_mul(13, 0xa3) == 0x76
        &&& gf_mul(13, 0xa4) == 0x55 && gf_mul(13, 0xa5) == 0x58 && gf_mul(13, 0xa6) == 0x4f && gf_mul(13, 0xa7) == 0x42
        &&& gf_mul(13, 0xa8) == 0x09 && gf_mul(13, 0xa9) == 0x04 && gf_mul(13, 0xaa) == 0x13 && gf_mul(13, 0xab) == 0x1e
        &&& gf_mul(13, 0xac) == 0x3d && gf_mul(13, 0xad) == 0x30 && gf_mul(13, 0xae) == 0x27 && gf_mul(13, 0xaf) == 0x2a
        &&& gf_mul(13, 0xb0) == 0xb1 && gf_mul(13, 0xb1) == 0xbc && gf_mul(13, 0xb2) == 0xab && gf_mul(13, 0xb3) == 0xa6
        &&& gf_mul(13, 0xb4) == 0x85 && gf_mul(13, 0xb5) == 0x88 && gf_mul(13, 0xb6) == 0x9f && gf_mul(13, 0xb7) == 0x92
        &&& gf_mul(13, 0xb8) == 0xd9 && gf_mul(13, 0xb9) == 0xd4 && gf_mul(13, 0xba) == 0xc3 && gf_mul(13, 0xbb) == 0xce
        &&& gf_mul(13, 0xbc) == 0xed && gf_mul(13, 0xbd) == 0xe0 && gf_mul(13, 0xbe) == 0xf7 && gf_mul(13, 0xbf) == 0xfa
        &&& gf_mul(13, 0xc0) == 0xb7 && gf_mul(13, 0xc1) == 0xba && gf_mul(13, 0xc2) == 0xad && gf_mul(13, 0xc3) == 0xa0
        &&& gf_mul(13, 0xc4) == 0x83 && gf_mul(13, 0xc5) == 0x8e && gf_mul(13, 0xc6) == 0x99 && gf_mul(13, 0xc7) == 0x94
        &&& gf_mul(13, 0xc8) == 0xdf && gf_mul(13, 0xc9) == 0xd2 && gf_mul(13, 0xca) == 0xc5 && gf_mul(13, 0xcb) == 0xc8
        &&& gf_mul(13, 0xcc) == 0xeb && gf_mul(13, 0xcd) == 0xe6 && gf_mul(13, 0xce) == 0xf1 && gf_mul(13, 0xcf) == 0xfc
        &&& gf_mul(13, 0xd0) == 0x67 && gf_mul(13, 0xd1) == 0x6a && gf_mul(13, 0xd2) == 0x7d && gf_mul(13, 0xd3) == 0x70
        &&& gf_mul(13, 0xd4) == 0x53 && gf_mul(13, 0xd5) == 0x5e && gf_mul(13, 0xd6) == 0x49 && gf_mul(13, 0xd7) == 0x44
        &&& gf_mul(13, 0xd8) == 0x0f && gf_mul(13, 0xd9) == 0x02 && gf_mul(13, 0xda) == 0x15 && gf_mul(13, 0xdb) == 0x18
        &&& gf_mul(13, 0xdc) == 0x3b && gf_mul(13, 0xdd) == 0x36 && gf_mul(13, 0xde) == 0x21 && gf_mul(13, 0xdf) == 0x2c
        &&& gf_mul(13, 0xe0) == 0x0c && gf_mul(13, 0xe1) == 0x01 && gf_mul(13, 0xe2) == 0x16 && gf_mul(13, 0xe3) == 0x1b
        &&& gf_mul(13, 0xe4) == 0x38 && gf_mul(13, 0xe5) == 0x35 && gf_mul(13, 0xe6) == 0x22 && gf_mul(13, 0xe7) == 0x2f
        &&& gf_mul(13, 0xe8) == 0x64 && gf_mul(13, 0xe9) == 0x69 && gf_mul(13, 0xea) == 0x7e && gf_mul(13, 0xeb) == 0x73
        &&& gf_mul(13, 0xec) == 0x50 && gf_mul(13, 0xed) == 0x5d && gf_mul(13, 0xee) == 0x4a && gf_mul(13, 0xef) == 0x47
        &&& gf_mul(13, 0xf0) == 0xdc && gf_mul(13, 0xf1) == 0xd1 && gf_mul(13, 0xf2) == 0xc6 && gf_mul(13, 0xf3) == 0xcb
        &&& gf_mul(13, 0xf4) == 0xe8 && gf_mul(13, 0xf5) == 0xe5 && gf_mul(13, 0xf6) == 0xf2 && gf_mul(13, 0xf7) == 0xff
        &&& gf_mul(13, 0xf8) == 0xb4 && gf_mul(13, 0xf9) == 0xb9 && gf_mul(13, 0xfa) == 0xae && gf_mul(13, 0xfb) == 0xa3
        &&& gf_mul(13, 0xfc) == 0x80 && gf_mul(13, 0xfd) == 0x8d && gf_mul(13, 0xfe) == 0x9a && gf_mul(13, 0xff) == 0x97
    }) by (bit_vector);
}

/// `GMUL_14` tabulates the product with fourteen.
pub proof fn lemma_gmul_14(x: u8)
    ensures
        GMUL_14[x as int] == gf_mul(14, x),
{
    // every product, worked out bit by bit
    assert({
        &&& gf_mul(14, 0x00) == 0x00 && gf_mul(14, 0x01) == 0x0e && gf_mul(14, 0x02) == 0x1c && gf_mul(14, 0x03) == 0x12
        &&& gf_mul(14, 0x04) == 0x38 && gf_mul(14, 0x05) == 0x36 && gf_mul(14, 0x06) == 0x24 && gf_mul(14, 0x07) == 0x2a
        &&& gf_mul(14, 0x08) == 0x70 && gf_mul(14, 0x09) == 0x7e && gf_mul(14, 0x0a) == 0x6c && gf_mul(14, 0x0b) == 0x62
        &&& gf_mul(14, 0x0c) == 0x48 && gf_mul(14, 0x0d) == 0x46 && gf_mul(14, 0x0e) == 0x54 && gf_mul(14, 0x0f) == 0x5a
        &&& gf_mul(14, 0x10) == 0xe0 && gf_mul(14, 0x11) == 0xee && gf_mul(14, 0x12) == 0xfc && gf_mul(14, 0x13) == 0xf2
        &&& gf_mul(14, 0x14) == 0xd8 && gf_mul(14, 0x15) == 0xd6 && gf_mul(14, 0x16) == 0xc4 && gf_mul(14, 0x17) == 0xca
        &&& gf_mul(14, 0x18) == 0x90 && gf_mul(14, 0x19) == 0x9e && gf_mul(14, 0x1a) == 0x8c && gf_mul(14, 0x1b) == 0x82
        &&& gf_mul(14, 0x1c) == 0xa8 && gf_mul(14, 0x1d) == 0xa6 && gf_mul(14, 0x1e) == 0xb4 && gf_mul(14, 0x1f) == 0xba
        &&& gf_mul(14, 0x20) == 0xdb && gf_mul(14, 0x21) == 0xd5 && gf_mul(14, 0x22) == 0xc7 && gf_mul(14, 0x23) == 0xc9
        &&& gf_mul(14, 0x24) == 0xe3 && gf_mul(14, 0x25) == 0xed && gf_mul(14, 0x26) == 0xff && gf_mul(14, 0x27) == 0xf1
        &&& gf_mul(14, 0x28) == 0xab && gf_mul(14, 0x29) == 0xa5 && gf_mul(14, 0x2a) == 0xb7 && gf_mul(14, 0x2b) == 0xb9
        &&& gf_mul(14, 0x2c) == 0x93 && gf_mul(14, 0x2d) == 0x9d && gf_mul(14, 0x2e) == 0x8f && gf_mul(14, 0x2f) == 0x81
        &&& gf_mul(14, 0x30) == 0x3b && gf_mul(14, 0x31) == 0x35 && gf_mul(14, 0x32) == 0x27 && gf_mul(14, 0x33) == 0x29
        &&& gf_mul(14, 0x34) == 0x03 && gf_mul(14, 0x35) == 0x0d && gf_mul(14, 0x36) == 0x1f && gf_mul(14, 0x37) == 0x11
        &&& gf_mul(14, 0x38) == 0x4b && gf_mul(14, 0x39) == 0x45 && gf_mul(14, 0x3a) == 0x57 && gf_mul(14, 0x3b) == 0x59
        &&& gf_mul(14, 0x3c) == 0x73 && gf_mul(14, 0x3d) == 0x7d && gf_mul(14, 0x3e) == 0x6f && gf_mul(14, 0x3f) == 0x61
        &&& gf_mul(14, 0x40) == 0xad && gf_mul(14, 0x41) == 0xa3 && gf_mul(14, 0x42) == 0xb1 && gf_mul(14, 0x43) == 0xbf
        &&& gf_mul(14, 0x44) == 0x95 && gf_mul(14, 0x45) == 0x9b && gf_mul(14, 0x46) == 0x89 && gf_mul(14, 0x47) == 0x87
        &&& gf_mul(14, 0x48) == 0xdd && gf_mul(14, 0x49) == 0xd3 && gf_mul(14, 0x4a) == 0xc1 && gf_mul(14, 0x4b) == 0xcf
        &&& gf_mul(14, 0x4c) == 0xe5 && gf_mul(14, 0x4d) == 0xeb && gf_mul(14, 0x4e) == 0xf9 && gf_mul(14, 0x4f) == 0xf7
        &&& gf_mul(14, 0x50) == 0x4d && gf_mul(14, 0x51) == 0x43 && gf_mul(14, 0x52) == 0x51 && gf_mul(14, 0x53) == 0x5f
        &&& gf_mul(14, 0x54) == 0x75 && gf_mul(14, 0x55) == 0x7b && gf_mul(14, 0x56) == 0x69 && gf_mul(14, 0x57) == 0x67
        &&& gf_mul(14, 0x58) == 0x3d && gf_mul(14, 0x59) == 0x33 && gf_mul(14, 0x5a) == 0x21 && gf_mul(14, 0x5b) == 0x2f
        &&& gf_mul(14, 0x5c) == 0x05 && gf_mul(14, 0x5d) == 0x0b && gf_mul(14, 0x5e) == 0x19 && gf_mul(14, 0x5f) == 0x17
        &&& gf_mul(14, 0x60) == 0x76 && gf_mul(14, 0x61) == 0x78 && gf_mul(14, 0x62) == 0x6a && gf_mul(14, 0x63) == 0x64
        &&& gf_mul(14, 0x64) == 0x4e && gf_mul(14, 0x65) == 0x40 && gf_mul(14, 0x66) == 0x52 && gf_mul(14, 0x67) == 0x5c
        &&& gf_mul(14, 0x68) == 0x06 && gf_mul(14, 0x69) == 0x08 && gf_mul(14, 0x6a) == 0x1a && gf_mul(14, 0x6b) == 0x14
        &&& gf_mul(14, 0x6c) == 0x3e && gf_mul(14, 0x6d) == 0x30 && gf_mul(14, 0x6e) == 0x22 && gf_mul(14, 0x6f) == 0x2c
        &&& gf_mul(14, 0x70) == 0x96 && gf_mul(14, 0x71) == 0x98 && gf_mul(14, 0x72) == 0x8a && gf_mul(14, 0x73) == 0x84
        &&& gf_mul(14, 0x74) == 0xae && gf_mul(14, 0x75) == 0xa0 && gf_mul(14, 0x76) == 0xb2 && gf_mul(14, 0x77) == 0xbc
        &&& gf_mul(14, 0x78) == 0xe6 && gf_mul(14, 0x79) == 0xe8 && gf_mul(14, 0x7a) == 0xfa && gf_mul(14, 0x7b) == 0xf4
        &&& gf_mul(14, 0x7c) == 0xde && gf_mul(14, 0x7d) == 0xd0 && gf_mul(14, 0x7e) == 0xc2 && gf_mul(14, 0x7f) == 0xcc
        &&& gf_mul(14, 0x80) == 0x41 && gf_mul(14, 0x81) == 0x4f && gf_mul(14, 0x82) == 0x5d && gf_mul(14, 0x83) == 0x53
        &&& gf_mul(14, 0x84) == 0x79 && gf_mul(14, 0x85) == 0x77 && gf_mul(14, 0x86) == 0x65 && gf_mul(14, 0x87) == 0x6b
        &&& gf_mul(14, 0x88) == 0x31 && gf_mul(14, 0x89) == 0x3f && gf_mul(14, 0x8a) == 0x2d && gf_mul(14, 0x8b) == 0x23
        &&& gf_mul(14, 0x8c) == 0x09 && gf_mul(14, 0x8d) == 0x07 && gf_mul(14, 0x8e) == 0x15 && gf_mul(14, 0x8f) == 0x1b
        &&& gf_mul(14, 0x90) == 0xa1 && gf_mul(14, 0x91) == 0xaf && gf_mul(14, 0x92) == 0xbd && gf_mul(14, 0x93) == 0xb3
        &&& gf_mul(14, 0x94) == 0x99 && gf_mul(14, 0x95) == 0x97 && gf_mul(14, 0x96) == 0x85 && gf_mul(14, 0x97) == 0x8b
        &&& gf_mul(14, 0x98) == 0xd1 && gf_mul(14, 0x99) == 0xdf && gf_mul(14, 0x9a) == 0xcd && gf_mul(14, 0x9b) == 0xc3
        &&& gf_mul(14, 0x9c) == 0xe9 && gf_mul(14, 0x9d) == 0xe7 && gf_mul(14, 0x9e) == 0xf5 && gf_mul(14, 0x9f) == 0xfb
        &&& gf_mul(14, 0xa0) == 0x9a && gf_mul(14, 0xa1) == 0x94 && gf_mul(14, 0xa2) == 0x86 && gf_mul(14, 0xa3) == 0x88
        &&& gf_mul(14, 0xa4) == 0xa2 && gf_mul(14, 0xa5) == 0xac && gf_mul(14, 0xa6) == 0xbe && gf_mul(14, 0xa7) == 0xb0
        &&& gf_mul(14, 0xa8) == 0xea && gf_mul(14, 0xa9) == 0xe4 && gf_mul(14, 0xaa) == 0xf6 && gf_mul(14, 0xab) == 0xf8
        &&& gf_mul(14, 0xac) == 0xd2 && gf_mul(14, 0xad) == 0xdc && gf_mul(14, 0xae) == 0xce && gf_mul(14, 0xaf) == 0xc0
        &&& gf_mul(14, 0xb0) == 0x7a && gf_mul(14, 0xb1) == 0x74 && gf_mul(14, 0xb2) == 0x66 && gf_mul(14, 0xb3) == 0x68
        &&& gf_mul(14, 0xb4) == 0x42 && gf_mul(14, 0xb5) == 0x4c && gf_mul(14, 0xb6) == 0x5e && gf_mul(14, 0xb7) == 0x50
        &&& gf_mul(14, 0xb8) == 0x0a && gf_mul(14, 0xb9) == 0x04 && gf_mul(14, 0xba) == 0x16 && gf_mul(14, 0xbb) == 0x18
        &&& gf_mul(14, 0xbc) == 0x32 && gf_mul(14, 0xbd) == 0x3c && gf_mul(14, 0xbe) == 0x2e && gf_mul(14, 0xbf) == 0x20
        &&& gf_mul(14, 0xc0) == 0xec && gf_mul(14, 0xc1) == 0xe2 && gf_mul(14, 0xc2) == 0xf0 && gf_mul(14, 0xc3) == 0xfe
        &&& gf_mul(14, 0xc4) == 0xd4 && gf_mul(14, 0xc5) == 0xda && gf_mul(14, 0xc6) == 0xc8 && gf_mul(14, 0xc7) == 0xc6
        &&& gf_mul(14, 0xc8) == 0x9c && gf_mul(14, 0xc9) == 0x92 && gf_mul(14, 0xca) == 0x80 && gf_mul(14, 0xcb) == 0x8e
        &&& gf_mul(14, 0xcc) == 0xa4 && gf_mul(14, 0xcd) == 0xaa && gf_mul(14, 0xce) == 0xb8 && gf_mul(14, 0xcf) == 0xb6
        &&& gf_mul(14, 0xd0) == 0x0c && gf_mul(14, 0xd1) == 0x02 && gf_mul(14, 0xd2) == 0x10 && gf_mul(14, 0xd3) == 0x1e
        &&& gf_mul(14, 0xd4) == 0x34 && gf_mul(14, 0xd5) == 0x3a && gf_mul(14, 0xd6) == 0x28 && gf_mul(14, 0xd7) == 0x26
        &&& gf_mul(14, 0xd8) == 0x7c && gf_mul(14, 0xd9) == 0x72 && gf_mul(14, 0xda) == 0x60 && gf_mul(14, 0xdb) == 0x6e
        &&& gf_mul(14, 0xdc) == 0x44 && gf_mul(14, 0xdd) == 0x4a && gf_mul(14, 0xde) == 0x58 && gf_mul(14, 0xdf) == 0x56
        &&& gf_mul(14, 0xe0) == 0x37 && gf_mul(14, 0xe1) == 0x39 && gf_mul(14, 0xe2) == 0x2b && gf_mul(14, 0xe3) == 0x25
        &&& gf_mul(14, 0xe4) == 0x0f && gf_mul(14, 0xe5) == 0x01 && gf_mul(14, 0xe6) == 0x13 && gf_mul(14, 0xe7) == 0x1d
        &&& gf_mul(14, 0xe8) == 0x47 && gf_mul(14, 0xe9) == 0x49 && gf_mul(14, 0xea) == 0x5b && gf_mul(14, 0xeb) == 0x55
        &&& gf_mul(14, 0xec) == 0x7f && gf_mul(14, 0xed) == 0x71 && gf_mul(14, 0xee) == 0x63 && gf_mul(14, 0xef) == 0x6d
        &&& gf_mul(14, 0xf0) == 0xd7 && gf_mul(14, 0xf1) == 0xd9 && gf_mul(14, 0xf2) == 0xcb && gf_mul(14, 0xf3) == 0xc5
        &&& gf_mul(14, 0xf4) == 0xef && gf_mul(14, 0xf5) == 0xe1 && gf_mul(14, 0xf6) == 0xf3 && gf_mul(14, 0xf7) == 0xfd
        &&& gf_mul(14, 0xf8) == 0xa7 && gf_mul(14, 0xf9) == 0xa9 && gf_mul(14, 0xfa) == 0xbb && gf_mul(14, 0xfb) == 0xb5
        &&& gf_mul(14, 0xfc) == 0x9f && gf_mul(14, 0xfd) == 0x91 && gf_mul(14, 0xfe) == 0x83 && gf_mul(14, 0xff) == 0x8d
    }) by (bit_vector);
}

/// Each entry of the substitution box is the affine image of the inverse of
/// its index: undoing the affine map on `SBOX_TABLE[x]` gives the inverse of
/// `x`, and zero for zero.
pub proof fn lemma_sbox_inverts(x: u8)
    ensures
        inverse_pair(x, affine_inv(sbox(x))),
{
    reveal(sbox);
    // for every index, the product with what the entry stands for
    assert({
        &&& inverse_pair(0x00, affine_inv(0x63)) && inverse_pair(0x01, affine_inv(0x7c)) && inverse_pair(0x02, affine_inv(0x77))
        &&& inverse_pair(0x03, affine_inv(0x7b)) && inverse_pair(0x04, affine_inv(0xf2)) && inverse_pair(0x05, affine_inv(0x6b))
        &&& inverse_pair(0x06, affine_inv(0x6f)) && inverse_pair(0x07, affine_inv(0xc5)) && inverse_pair(0x08, affine_inv(0x30))
        &&& inverse_pair(0x09, affine_inv(0x01)) && inverse_pair(0x0a, affine_inv(0x67)) && inverse_pair(0x0b, affine_inv(0x2b))
        &&& inverse_pair(0x0c, affine_inv(0xfe)) && inverse_pair(0x0d, affine_inv(0xd7)) && inverse_pair(0x0e, affine_inv(0xab))
        &&& inverse_pair(0x0f, affine_inv(0x76)) && inverse_pair(0x10, affine_inv(0xca)) && inverse_pair(0x11, affine_inv(0x82))
        &&& inverse_pair(0x12, affine_inv(0xc9)) && inverse_pair(0x13, affine_inv(0x7d)) && inverse_pair(0x14, affine_inv(0xfa))
        &&& inverse_pair(0x15, affine_inv(0x59)) && inverse_pair(0x16, affine_inv(0x47)) && inverse_pair(0x17, affine_inv(0xf0))
        &&& inverse_pair(0x18, affine_inv(0xad)) && inverse_pair(0x19, affine_inv(0xd4)) && inverse_pair(0x1a, affine_inv(0xa2))
        &&& inverse_pair(0x1b, affine_inv(0xaf)) && inverse_pair(0x1c, affine_inv(0x9c)) && inverse_pair(0x1d, affine_inv(0xa4))
        &&& inverse_pair(0x1e, affine_inv(0x72)) && inverse_pair(0x1f, affine_inv(0xc0)) && inverse_pair(0x20, affine_inv(0xb7))
        &&& inverse_pair(0x21, affine_inv(0xfd)) && inverse_pair(0x22, affine_inv(0x93)) && inverse_pair(0x23, affine_inv(0x26))
        &&& inverse_pair(0x24, affine_inv(0x36)) && inverse_pair(0x25, affine_inv(0x3f)) && inverse_pair(0x26, affine_inv(0xf7))
        &&& inverse_pair(0x27, affine_inv(0xcc)) && inverse_pair(0x28, affine_inv(0x34)) && inverse_pair(0x29, affine_inv(0xa5))
        &&& inverse_pair(0x2a, affine_inv(0xe5)) && inverse_pair(0x2b, affine_inv(0xf1)) && inverse_pair(0x2c, affine_inv(0x71))
        &&& inverse_pair(0x2d, affine_inv(0xd8)) && inverse_pair(0x2e, affine_inv(0x31)) && inverse_pair(0x2f, affine_inv(0x15))
        &&& inverse_pair(0x30, affine_inv(0x04)) && inverse_pair(0x31, affine_inv(0xc7)) && inverse_pair(0x32, affine_inv(0x23))
        &&& inverse_pair(0x33, affine_inv(0xc3)) && inverse_pair(0x34, affine_inv(0x18)) && inverse_pair(0x35, affine_inv(0x96))
        &&& inverse_pair(0x36, affine_inv(0x05)) && inverse_pair(0x37, affine_inv(0x9a)) && inverse_pair(0x38, affine_inv(0x07))
        &&& inverse_pair(0x39, affine_inv(0x12)) && inverse_pair(0x3a, affine_inv(0x80)) && inverse_pair(0x3b, affine_inv(0xe2))
        &&& inverse_pair(0x3c, affine_inv(0xeb)) && inverse_pair(0x3d, affine_inv(0x27)) && inverse_pair(0x3e, affine_inv(0xb2))
        &&& inverse_pair(0x3f, affine_inv(0x75)) && inverse_pair(0x40, affine_inv(0x09)) && inverse_pair(0x41, affine_inv(0x83))
        &&& inverse_pair(0x42, affine_inv(0x2c)) && inverse_pair(0x43, affine_inv(0x1a)) && inverse_pair(0x44, affine_inv(0x1b))
        &&& inverse_pair(0x45, affine_inv(0x6e)) && inverse_pair(0x46, affine_inv(0x5a)) && inverse_pair(0x47, affine_inv(0xa0))
        &&& inverse_pair(0x48, affine_inv(0x52)) && inverse_pair(0x49, affine_inv(0x3b)) && inverse_pair(0x4a, affine_inv(0xd6))
        &&& inverse_pair(0x4b, affine_inv(0xb3)) && inverse_pair(0x4c, affine_inv(0x29)) && inverse_pair(0x4d, affine_inv(0xe3))
        &&& inverse_pair(0x4e, affine_inv(0x2f)) && inverse_pair(0x4f, affine_inv(0x84)) && inverse_pair(0x50, affine_inv(0x53))
        &&& inverse_pair(0x51, affine_inv(0xd1)) && inverse_pair(0x52, affine_inv(0x00)) && inverse_pair(0x53, affine_inv(0xed))
        &&& inverse_pair(0x54, affine_inv(0x20)) && inverse_pair(0x55, affine_inv(0xfc)) && inverse_pair(0x56, affine_inv(0xb1))
        &&& inverse_pair(0x57, affine_inv(0x5b)) && inverse_pair(0x58, affine_inv(0x6a)) && inverse_pair(0x59, affine_inv(0xcb))
        &&& inverse_pair(0x5a, affine_inv(0xbe)) && inverse_pair(0x5b, affine_inv(0x39)) && inverse_pair(0x5c, affine_inv(0x4a))
        &&& inverse_pair(0x5d, affine_inv(0x4c)) && inverse_pair(0x5e, affine_inv(0x58)) && inverse_pair(0x5f, affine_inv(0xcf))
        &&& inverse_pair(0x60, affine_inv(0xd0)) && inverse_pair(0x61, affine_inv(0xef)) && inverse_pair(0x62, affine_inv(0xaa))
        &&& inverse_pair(0x63, affine_inv(0xfb)) && inverse_pair(0x64, affine_inv(0x43)) && inverse_pair(0x65, affine_inv(0x4d))
        &&& inverse_pair(0x66, affine_inv(0x33)) && inverse_pair(0x67, affine_inv(0x85)) && inverse_pair(0x68, affine_inv(0x45))
        &&& inverse_pair(0x69, affine_inv(0xf9)) && inverse_pair(0x6a, affine_inv(0x02)) && inverse_pair(0x6b, affine_inv(0x7f))
        &&& inverse_pair(0x6c, affine_inv(0x50)) && inverse_pair(0x6d, affine_inv(0x3c)) && inverse_pair(0x6e, affine_inv(0x9f))
        &&& inverse_pair(0x6f, affine_inv(0xa8)) && inverse_pair(0x70, affine_inv(0x51)) && inverse_pair(0x71, affine_inv(0xa3))
        &&& inverse_pair(0x72, affine_inv(0x40)) && inverse_pair(0x73, affine_inv(0x8f)) && inverse_pair(0x74, affine_inv(0x92))
        &&& inverse_pair(0x75, affine_inv(0x9d)) && inverse_pair(0x76, affine_inv(0x38)) && inverse_pair(0x77, affine_inv(0xf5))
        &&& inverse_pair(0x78, affine_inv(0xbc)) && inverse_pair(0x79, affine_inv(0xb6)) && inverse_pair(0x7a, affine_inv(0xda))
        &&& inverse_pair(0x7b, affine_inv(0x21)) && inverse_pair(0x7c, affine_inv(0x10)) && inverse_pair(0x7d, affine_inv(0xff))
        &&& inverse_pair(0x7e, affine_inv(0xf3)) && inverse_pair(0x7f, affine_inv(0xd2)) && inverse_pair(0x80, affine_inv(0xcd))
        &&& inverse_pair(0x81, affine_inv(0x0c)) && inverse_pair(0x82, affine_inv(0x13)) && inverse_pair(0x83, affine_inv(0xec))
        &&& inverse_pair(0x84, affine_inv(0x5f)) && inverse_pair(0x85, affine_inv(0x97)) && inverse_pair(0x86, affine_inv(0x44))
        &&& inverse_pair(0x87, affine_inv(0x17)) && inverse_pair(0x88, affine_inv(0xc4)) && inverse_pair(0x89, affine_inv(0xa7))
        &&& inverse_pair(0x8a, affine_inv(0x7e)) && inverse_pair(0x8b, affine_inv(0x3d)) && inverse_pair(0x8c, affine_inv(0x64))
        &&& inverse_pair(0x8d, affine_inv(0x5d)) && inverse_pair(0x8e, affine_inv(0x19)) && inverse_pair(0x8f, affine_inv(0x73))
        &&& inverse_pair(0x90, affine_inv(0x60)) && inverse_pair(0x91, affine_inv(0x81)) && inverse_pair(0x92, affine_inv(0x4f))
        &&& inverse_pair(0x93, affine_inv(0xdc)) && inverse_pair(0x94, affine_inv(0x22)) && inverse_pair(0x95, affine_inv(0x2a))
        &&& inverse_pair(0x96, affine_inv(0x90)) && inverse_pair(0x97, affine_inv(0x88)) && inverse_pair(0x98, affine_inv(0x46))
        &&& inverse_pair(0x99, affine_inv(0xee)) && inverse_pair(0x9a, affine_inv(0xb8)) && inverse_pair(0x9b, affine_inv(0x14))
        &&& inverse_pair(0x9c, affine_inv(0xde)) && inverse_pair(0x9d, affine_inv(0x5e)) && inverse_pair(0x9e, affine_inv(0x0b))
        &&& inverse_pair(0x9f, affine_inv(0xdb)) && inverse_pair(0xa0, affine_inv(0xe0)) && inverse_pair(0xa1, affine_inv(0x32))
        &&& inverse_pair(0xa2, affine_inv(0x3a)) && inverse_pair(0xa3, affine_inv(0x0a)) && inverse_pair(0xa4, affine_inv(0x49))
        &&& inverse_pair(0xa5, affine_inv(0x06)) && inverse_pair(0xa6, affine_inv(0x24)) && inverse_pair(0xa7, affine_inv(0x5c))
        &&& inverse_pair(0xa8, affine_inv(0xc2)) && inverse_pair(0xa9, affine_inv(0xd3)) && inverse_pair(0xaa, affine_inv(0xac))
        &&& inverse_pair(0xab, affine_inv(0x62)) && inverse_pair(0xac, affine_inv(0x91)) && inverse_pair(0xad, affine_inv(0x95))
        &&& inverse_pair(0xae, affine_inv(0xe4)) && inverse_pair(0xaf, affine_inv(0x79)) && inverse_pair(0xb0, affine_inv(0xe7))
        &&& inverse_pair(0xb1, affine_inv(0xc8)) && inverse_pair(0xb2, affine_inv(0x37)) && inverse_pair(0xb3, affine_inv(0x6d))
        &&& inverse_pair(0xb4, affine_inv(0x8d)) && inverse_pair(0xb5, affine_inv(0xd5)) && inverse_pair(0xb6, affine_inv(0x4e))
        &&& inverse_pair(0xb7, affine_inv(0xa9)) && inverse_pair(0xb8, affine_inv(0x6c)) && inverse_pair(0xb9, affine_inv(0x56))
        &&& inverse_pair(0xba, affine_inv(0xf4)) && inverse_pair(0xbb, affine_inv(0xea)) && inverse_pair(0xbc, affine_inv(0x65))
        &&& inverse_pair(0xbd, affine_inv(0x7a)) && inverse_pair(0xbe, affine_inv(0xae)) && inverse_pair(0xbf, affine_inv(0x08))
        &&& inverse_pair(0xc0, affine_inv(0xba)) && inverse_pair(0xc1, affine_inv(0x78)) && inverse_pair(0xc2, affine_inv(0x25))
        &&& inverse_pair(0xc3, affine_inv(0x2e)) && inverse_pair(0xc4, affine_inv(0x1c)) && inverse_pair(0xc5, affine_inv(0xa6))
        &&& inverse_pair(0xc6, affine_inv(0xb4)) && inverse_pair(0xc7, affine_inv(0xc6)) && inverse_pair(0xc8, affine_inv(0xe8))
        &&& inverse_pair(0xc9, affine_inv(0xdd)) && inverse_pair(0xca, affine_inv(0x74)) && inverse_pair(0xcb, affine_inv(0x1f))
        &&& inverse_pair(0xcc, affine_inv(0x4b)) && inverse_pair(0xcd, affine_inv(0xbd)) && inverse_pair(0xce, affine_inv(0x8b))
        &&& inverse_pair(0xcf, affine_inv(0x8a)) && inverse_pair(0xd0, affine_inv(0x70)) && inverse_pair(0xd1, affine_inv(0x3e))
        &&& inverse_pair(0xd2, affine_inv(0xb5)) && inverse_pair(0xd3, affine_inv(0x66)) && inverse_pair(0xd4, affine_inv(0x48))
        &&& inverse_pair(0xd5, affine_inv(0x03)) && inverse_pair(0xd6, affine_inv(0xf6)) && inverse_pair(0xd7, affine_inv(0x0e))
        &&& inverse_pair(0xd8, affine_inv(0x61)) && inverse_pair(0xd9, affine_inv(0x35)) && inverse_pair(0xda, affine_inv(0x57))
        &&& inverse_pair(0xdb, affine_inv(0xb9)) && inverse_pair(0xdc, affine_inv(0x86)) && inverse_pair(0xdd, affine_inv(0xc1))
        &&& inverse_pair(0xde, affine_inv(0x1d)) && inverse_pair(0xdf, affine_inv(0x9e)) && inverse_pair(0xe0, affine_inv(0xe1))
        &&& inverse_pair(0xe1, affine_inv(0xf8)) && inverse_pair(0xe2, affine_inv(0x98)) && inverse_pair(0xe3, affine_inv(0x11))
        &&& inverse_pair(0xe4, affine_inv(0x69)) && inverse_pair(0xe5, affine_inv(0xd9)) && inverse_pair(0xe6, affine_inv(0x8e))
        &&& inverse_pair(0xe7, affine_inv(0x94)) && inverse_pair(0xe8, affine_inv(0x9b)) && inverse_pair(0xe9, affine_inv(0x1e))
        &&& inverse_pair(0xea, affine_inv(0x87)) && inverse_pair(0xeb, affine_inv(0xe9)) && inverse_pair(0xec, affine_inv(0xce))
        &&& inverse_pair(0xed, affine_inv(0x55)) && inverse_pair(0xee, affine_inv(0x28)) && inverse_pair(0xef, affine_inv(0xdf))
        &&& inverse_pair(0xf0, affine_inv(0x8c)) && inverse_pair(0xf1, affine_inv(0xa1)) && inverse_pair(0xf2, affine_inv(0x89))
        &&& inverse_pair(0xf3, affine_inv(0x0d)) && inverse_pair(0xf4, affine_inv(0xbf)) && inverse_pair(0xf5, affine_inv(0xe6))
        &&& inverse_pair(0xf6, affine_inv(0x42)) && inverse_pair(0xf7, affine_inv(0x68)) && inverse_pair(0xf8, affine_inv(0x41))
        &&& inverse_pair(0xf9, affine_inv(0x99)) && inverse_pair(0xfa, affine_inv(0x2d)) && inverse_pair(0xfb, affine_inv(0x0f))
        &&& inverse_pair(0xfc, affine_inv(0xb0)) && inverse_pair(0xfd, affine_inv(0x54)) && inverse_pair(0xfe, affine_inv(0xbb))
        &&& inverse_pair(0xff, affine_inv(0x16))
    }) by (bit_vector);
}

/// The two substitution boxes undo each other.
pub proof fn lemma_sbox_round_trip(x: u8)
    ensures
        inv_sbox(sbox(x)) == x,
        sbox(inv_sbox(x)) == x,
{
    reveal(sbox);
    reveal(inv_sbox);
}

/// `RCON_RC` holds the first ten round constants.
pub proof fn lemma_rcon_table(i: int)
    requires
        0 <= i < 10,
    ensures
        RCON_RC[i] == rcon(i as nat),
{
    reveal_with_fuel(rcon, 11);
    // each constant is the double of the one before it
    assert({
        &&& xtime(0x01) == 0x02 && xtime(0x02) == 0x04 && xtime(0x04) == 0x08
        &&& xtime(0x08) == 0x10 && xtime(0x10) == 0x20 && xtime(0x20) == 0x40
        &&& xtime(0x40) == 0x80 && xtime(0x80) == 0x1b && xtime(0x1b) == 0x36
    }) by (bit_vector);
}

/// Looks up the substitution of `x`.
pub fn sub_byte(x: u8) -> (r: u8)
    ensures
        r == sbox(x),
{
    proof {
        reveal(sbox);
    }
    SBOX_TABLE[x as usize]
}

/// Looks up the inverse substitution of `x`.
pub fn inv_sub_byte(x: u8) -> (r: u8)
    ensures
        r == inv_sbox(x),
{
    proof {
        reveal(inv_sbox);
    }
    INV_SBOX_TABLE[x as usize]
}

/// Looks up the round constant with index `i`.
pub fn round_constant(i: usize) -> (r: u8)
    requires
        i < 10,
    ensures
        r == rcon(i as nat),
{
    proof {
        lemma_rcon_table(i as int);
    }
    RCON_RC[i]
}

/// Looks up the product of two and `x`.
pub fn mul_2(x: u8) -> (r: u8)
    ensures
        r == gf_mul(2, x),
{
    proof {
        lemma_gmul_2(x);
    }
    GMUL_2[x as usize]
}

/// Looks up the product of three and `x`.
pub fn mul_3(x: u8) -> (r: u8)
    ensures
        r == gf_mul(3, x),
{
    proof {
        lemma_gmul_3(x);
    }
    GMUL_3[x as usize]
}

/// Looks up the product of nine and `x`.
pub fn mul_9(x: u8) -> (r: u8)
    ensures
        r == gf_mul(9, x),
{
    proof {
        lemma_gmul_9(x);
    }
    GMUL_9[x as usize]
}

/// Looks up the product of eleven and `x`.
pub fn mul_11(x: u8) -> (r: u8)
    ensures
        r == gf_mul(11, x),
{
    proof {
        lemma_gmul_11(x);
    }
    GMUL_11[x as usize]
}

/// Looks up the product of thirteen and `x`.
pub fn mul_13(x: u8) -> (r: u8)
    ensures
        r == gf_mul(13, x),
{
    proof {
        lemma_gmul_13(x);
    }
    GMUL_13[x as usize]
}

/// Looks up the product of fourteen and `x`.
pub fn mul_14(x: u8) -> (r: u8)
    ensures
        r == gf_mul(14, x),
{
    proof {
        lemma_gmul_14(x);
    }
    GMUL_14[x as usize]
}

} // verus!
