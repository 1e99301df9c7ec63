//! The substitution box, computed from the field arithmetic.
use vstd::prelude::*;
use crate::aes::tables::{
    affine, affine_inv, divided_by_three, gf_mul, inverse_pair, lemma_affine_inverse,
    lemma_gf_mul_unit, lemma_gmul_3, lemma_inverse_unique, lemma_sbox_inverts, lemma_three_step,
    rotl8_spec, sbox, times_three, GMUL_3, SBOX_TABLE,
};

verus! {

/// The powers of three in GF(2^8): entry `k` is three to the power `k`.
/// Three generates the multiplicative group, so the entries 1 to 255 are
/// the 255 elements other than zero, each once.
#[verifier::opaque]
pub open spec fn powers_of_three() -> [u8; 256] {
    [
        0x01, 0x03, 0x05, 0x0f, 0x11, 0x33, 0x55, 0xff, 0x1a, 0x2e, 0x72, 0x96, 0xa1, 0xf8, 0x13, 0x35,
        0x5f, 0xe1, 0x38, 0x48, 0xd8, 0x73, 0x95, 0xa4, 0xf7, 0x02, 0x06, 0x0a, 0x1e, 0x22, 0x66, 0xaa,
        0xe5, 0x34, 0x5c, 0xe4, 0x37, 0x59, 0xeb, 0x26, 0x6a, 0xbe, 0xd9, 0x70, 0x90, 0xab, 0xe6, 0x31,
        0x53, 0xf5, 0x04, 0x0c, 0x14, 0x3c, 0x44, 0xcc, 0x4f, 0xd1, 0x68, 0xb8, 0xd3, 0x6e, 0xb2, 0xcd,
        0x4c, 0xd4, 0x67, 0xa9, 0xe0, 0x3b, 0x4d, 0xd7, 0x62, 0xa6, 0xf1, 0x08, 0x18, 0x28, 0x78, 0x88,
        0x83, 0x9e, 0xb9, 0xd0, 0x6b, 0xbd, 0xdc, 0x7f, 0x81, 0x98, 0xb3, 0xce, 0x49, 0xdb, 0x76, 0x9a,
        0xb5, 0xc4, 0x57, 0xf9, 0x10, 0x30, 0x50, 0xf0, 0x0b, 0x1d, 0x27, 0x69, 0xbb, 0xd6, 0x61, 0xa3,
        0xfe, 0x19, 0x2b, 0x7d, 0x87, 0x92, 0xad, 0xec, 0x2f, 0x71, 0x93, 0xae, 0xe9, 0x20, 0x60, 0xa0,
        0xfb, 0x16, 0x3a, 0x4e, 0xd2, 0x6d, 0xb7, 0xc2, 0x5d, 0xe7, 0x32, 0x56, 0xfa, 0x15, 0x3f, 0x41,
        0xc3, 0x5e, 0xe2, 0x3d, 0x47, 0xc9, 0x40, 0xc0, 0x5b, 0xed, 0x2c, 0x74, 0x9c, 0xbf, 0xda, 0x75,
        0x9f, 0xba, 0xd5, 0x64, 0xac, 0xef, 0x2a, 0x7e, 0x82, 0x9d, 0xbc, 0xdf, 0x7a, 0x8e, 0x89, 0x80,
        0x9b, 0xb6, 0xc1, 0x58, 0xe8, 0x23, 0x65, 0xaf, 0xea, 0x25, 0x6f, 0xb1, 0xc8, 0x43, 0xc5, 0x54,
        0xfc, 0x1f, 0x21, 0x63, 0xa5, 0xf4, 0x07, 0x09, 0x1b, 0x2d, 0x77, 0x99, 0xb0, 0xcb, 0x46, 0xca,
        0x45, 0xcf, 0x4a, 0xde, 0x79, 0x8b, 0x86, 0x91, 0xa8, 0xe3, 0x3e, 0x42, 0xc6, 0x51, 0xf3, 0x0e,
        0x12, 0x36, 0x5a, 0xee, 0x29, 0x7b, 0x8d, 0x8c, 0x8f, 0x8a, 0x85, 0x94, 0xa7, 0xf2, 0x0d, 0x17,
        0x39, 0x4b, 0xdd, 0x7c, 0x84, 0x97, 0xa2, 0xfd, 0x1c, 0x24, 0x6c, 0xb4, 0xc7, 0x52, 0xf6, 0x01,
    ]
}

/// The logarithms to the base three in GF(2^8): entry `x` is the exponent
/// between 1 and 255 that takes three to `x`. The entry of zero, which has
/// no logarithm, is zero.
#[verifier::opaque]
pub open spec fn logarithms_of_three() -> [u8; 256] {
    [
        0x00, 0xff, 0x19, 0x01, 0x32, 0x02, 0x1a, 0xc6, 0x4b, 0xc7, 0x1b, 0x68, 0x33, 0xee, 0xdf, 0x03,
        0x64, 0x04, 0xe0, 0x0e, 0x34, 0x8d, 0x81, 0xef, 0x4c, 0x71, 0x08, 0xc8, 0xf8, 0x69, 0x1c, 0xc1,
        0x7d, 0xc2, 0x1d, 0xb5, 0xf9, 0xb9, 0x27, 0x6a, 0x4d, 0xe4, 0xa6, 0x72, 0x9a, 0xc9, 0x09, 0x78,
        0x65, 0x2f, 0x8a, 0x05, 0x21, 0x0f, 0xe1, 0x24, 0x12, 0xf0, 0x82, 0x45, 0x35, 0x93, 0xda, 0x8e,
        0x96, 0x8f, 0xdb, 0xbd, 0x36, 0xd0, 0xce, 0x94, 0x13, 0x5c, 0xd2, 0xf1, 0x40, 0x46, 0x83, 0x38,
        0x66, 0xdd, 0xfd, 0x30, 0xbf, 0x06, 0x8b, 0x62, 0xb3, 0x25, 0xe2, 0x98, 0x22, 0x88, 0x91, 0x10,
        0x7e, 0x6e, 0x48, 0xc3, 0xa3, 0xb6, 0x1e, 0x42, 0x3a, 0x6b, 0x28, 0x54, 0xfa, 0x85, 0x3d, 0xba,
        0x2b, 0x79, 0x0a, 0x15, 0x9b, 0x9f, 0x5e, 0xca, 0x4e, 0xd4, 0xac, 0xe5, 0xf3, 0x73, 0xa7, 0x57,
        0xaf, 0x58, 0xa8, 0x50, 0xf4, 0xea, 0xd6, 0x74, 0x4f, 0xae, 0xe9, 0xd5, 0xe7, 0xe6, 0xad, 0xe8,
        0x2c, 0xd7, 0x75, 0x7a, 0xeb, 0x16, 0x0b, 0xf5, 0x59, 0xcb, 0x5f, 0xb0, 0x9c, 0xa9, 0x51, 0xa0,
        0x7f, 0x0c, 0xf6, 0x6f, 0x17, 0xc4, 0x49, 0xec, 0xd8, 0x43, 0x1f, 0x2d, 0xa4, 0x76, 0x7b, 0xb7,
        0xcc, 0xbb, 0x3e, 0x5a, 0xfb, 0x60, 0xb1, 0x86, 0x3b, 0x52, 0xa1, 0x6c, 0xaa, 0x55, 0x29, 0x9d,
        0x97, 0xb2, 0x87, 0x90, 0x61, 0xbe, 0xdc, 0xfc, 0xbc, 0x95, 0xcf, 0xcd, 0x37, 0x3f, 0x5b, 0xd1,
        0x53, 0x39, 0x84, 0x3c, 0x41, 0xa2, 0x6d, 0x47, 0x14, 0x2a, 0x9e, 0x5d, 0x56, 0xf2, 0xd3, 0xab,
        0x44, 0x11, 0x92, 0xd9, 0x23, 0x20, 0x2e, 0x89, 0xb4, 0x7c, 0xb8, 0x26, 0x77, 0x99, 0xe3, 0xa5,
        0x67, 0x4a, 0xed, 0xde, 0xc5, 0x31, 0xfe, 0x18, 0x0d, 0x63, 0x8c, 0x80, 0xc0, 0xf7, 0x70, 0x07,
    ]
}

/// The two tables of powers and logarithms are inverse to each other on
/// the exponents 1 to 255, each power is three times the one before it,
/// and only the last of them is one.
proof fn lemma_powers_of_three(x: u8)
    ensures
        x != 0 ==> 1 <= logarithms_of_three()[x as int] && powers_of_three()[logarithms_of_three()[x as int] as int]
            == x,
        x != 0 ==> powers_of_three()[x as int] != 0 && logarithms_of_three()[powers_of_three()[x as int] as int]
            == x,
        x != 255 ==> GMUL_3[powers_of_three()[x as int] as int] == powers_of_three()[x + 1],
        powers_of_three()[x as int] == 1 ==> x == 0 || x == 255,
        powers_of_three()[0] == 1,
        powers_of_three()[255] == 1,
{
    reveal(powers_of_three);
    reveal(logarithms_of_three);
}

/// Rotates `x` to the left by `shift` bits.
pub fn rotl8(x: u8, shift: u8) -> (r: u8)
    requires
        1 <= shift <= 7,
    ensures
        r == rotl8_spec(x, shift),
{
    ((x) << (shift)) | ((x) >> (8 - (shift)))
}

/// Computes the substitution box by walking through the powers of three:
/// `p` runs through the elements other than zero while `q` runs through
/// their inverses, and each `p` gets the affine image of its `q`.
pub fn calculate_aes_sbox() -> (table: [u8; 256])
    ensures
        table@ == SBOX_TABLE@,
        forall|x: u8| table@[x as int] == sbox(x),
{
    let mut table: [u8; 256] = [0_u8; 256];

    let mut p = 1u8;
    let mut q = 1u8;
    let ghost mut k: int = 0;

    proof {
        lemma_gf_mul_unit(1);
        lemma_powers_of_three(0);
        assert forall|x: u8| x != 0 implies 1 <= logarithms_of_three()[x as int] by {
            lemma_powers_of_three(x);
        }
    }

    /* loop invariant: p * q == 1 in the Galois field */
    loop
        invariant_except_break
            0 <= k <= 254,
            p == powers_of_three()[k],
            gf_mul(p, q) == 1,
            forall|x: u8|
                x != 0 && logarithms_of_three()[x as int] <= k ==> #[trigger] table@[x as int]
                    == sbox(x),
        ensures
            forall|x: u8| x != 0 ==> #[trigger] table@[x as int] == sbox(x),
        decreases 255 - k,
    {
        let ghost before = table@;
        let ghost p0 = p;
        let ghost q0 = q;
        /* multiply p by 3 */
        p = p ^ (p << 1) ^ (if (p & 0x80) != 0x0 { 0x1B } else { 0 });

        /* divide q by 3 (equals multiplication by 0xf6) */
        q ^= q << 1;
        q ^= q << 2;
        q ^= q << 4;
        q ^= if (q & 0x80) != 0x0 { 0x09 } else { 0 };

        /* compute the affine transformation */
        let xformed = q ^ rotl8(q, 1) ^ rotl8(q, 2) ^ rotl8(q, 3) ^ rotl8(q, 4);

        table[p as usize] = xformed ^ 0x63;

        proof {
            assert(p == times_three(p0));
            assert(q == divided_by_three(q0));
            lemma_three_step(p0, q0);
            lemma_gmul_3(p0);
            lemma_powers_of_three(k as u8);
            assert(p == powers_of_three()[k + 1]);
            lemma_sbox_value(p, q);
            assert(table@[p as int] == sbox(p));
            assert forall|x: u8|
                x != 0 && logarithms_of_three()[x as int] <= k + 1 implies #[trigger] table@[x as int]
                == sbox(x) by {
                lemma_powers_of_three(x);
                lemma_powers_of_three((k + 1) as u8);
                if x != p {
                    assert(table@[x as int] == before[x as int]);
                }
            }
            k = k + 1;
        }

        if p == 1 {
            proof {
                lemma_powers_of_three(k as u8);
                assert forall|x: u8| x != 0 implies #[trigger] table@[x as int] == sbox(x) by {
                    lemma_powers_of_three(x);
                }
            }
            break ;
        }
        proof {
            lemma_powers_of_three(k as u8);
        }
    }

    /* 0 is a special case since it has no inverse */
    table[0] = 0x63;

    proof {
        lemma_sbox_of_zero();
        reveal(sbox);
        assert forall|x: u8| table@[x as int] == sbox(x) by {
        }
        assert(table@ =~= SBOX_TABLE@);
    }
    table
}

/// The substitute of an element is the affine image of its inverse.
proof fn lemma_sbox_value(p: u8, q: u8)
    requires
        p != 0,
        gf_mul(p, q) == 1,
    ensures
        sbox(p) == affine(q),
{
    reveal(inverse_pair);
    lemma_sbox_inverts(p);
    lemma_inverse_unique(p, q, affine_inv(sbox(p)));
    lemma_affine_inverse(sbox(p));
}

/// The substitute of zero is the constant of the affine map.
proof fn lemma_sbox_of_zero()
    ensures
        sbox(0) == 0x63,
{
    reveal(sbox);
}

} // verus!
