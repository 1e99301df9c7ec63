use cryptopals::aes::sbox::rotl8;
use cryptopals::aes::tables::{
    inv_sub_byte, mul_11, mul_13, mul_14, mul_2, mul_3, mul_9, round_constant, sub_byte,
    INV_SBOX_TABLE, RCON_RC, SBOX_TABLE,
};
use cryptopals::aes::utils::{to_arr, to_arr_range, word4, LengthMismatch};

// multiplication in GF(2^8), bit by bit
fn gf_mul(mut a: u8, mut b: u8) -> u8 {
    let mut product = 0u8;
    while b != 0 {
        if b & 1 != 0 {
            product ^= a;
        }
        let carry = a & 0x80 != 0;
        a <<= 1;
        if carry {
            a ^= 0x1b;
        }
        b >>= 1;
    }
    product
}

#[test]
fn substitution_boxes() {
    assert_eq!(sub_byte(0x00), 0x63);
    assert_eq!(sub_byte(0x53), 0xed);
    assert_eq!(sub_byte(0xff), 0x16);
    assert_eq!(inv_sub_byte(0x63), 0x00);
    assert_eq!(inv_sub_byte(0xed), 0x53);
    for x in 0..=255u8 {
        assert_eq!(sub_byte(x), SBOX_TABLE[x as usize]);
        assert_eq!(inv_sub_byte(x), INV_SBOX_TABLE[x as usize]);
        assert_eq!(inv_sub_byte(sub_byte(x)), x);
        assert_eq!(sub_byte(inv_sub_byte(x)), x);
    }
}

#[test]
fn substitution_is_the_affine_image_of_the_inverse() {
    for x in 1..=255u8 {
        let s = sub_byte(x);
        let y = s.rotate_left(1) ^ s.rotate_left(3) ^ s.rotate_left(6) ^ 0x05;
        assert_eq!(gf_mul(x, y), 1);
    }
}

#[test]
fn multiplication_tables() {
    assert_eq!(mul_2(0x57), 0xae);
    assert_eq!(mul_2(0xae), 0x47);
    assert_eq!(mul_3(0x57), 0xf9);
    for x in 0..=255u8 {
        assert_eq!(mul_2(x), gf_mul(2, x));
        assert_eq!(mul_3(x), gf_mul(3, x));
        assert_eq!(mul_9(x), gf_mul(9, x));
        assert_eq!(mul_11(x), gf_mul(11, x));
        assert_eq!(mul_13(x), gf_mul(13, x));
        assert_eq!(mul_14(x), gf_mul(14, x));
    }
}

#[test]
fn round_constants() {
    assert_eq!(RCON_RC, [1, 2, 4, 8, 16, 32, 64, 128, 27, 54]);
    for i in 0..10 {
        assert_eq!(round_constant(i), RCON_RC[i]);
    }
}

#[test]
fn rotation() {
    assert_eq!(rotl8(0b1000_0001, 1), 0b0000_0011);
    assert_eq!(rotl8(0b1000_0001, 7), 0b1100_0000);
    assert_eq!(rotl8(0x12, 4), 0x21);
}

#[test]
fn slices_to_arrays() {
    let data: Vec<u8> = (0..40).collect();
    assert_eq!(to_arr::<4>(&data[..4]), Ok([0, 1, 2, 3]));
    assert_eq!(to_arr::<4>(&data[..5]), Err(LengthMismatch));
    assert_eq!(to_arr::<0>(&[]), Ok([]));
    assert_eq!(to_arr_range::<3>(&data, 5..8), Ok([5, 6, 7]));
    assert_eq!(to_arr_range::<3>(&data, 5..9), Err(LengthMismatch));
    assert_eq!(to_arr_range::<3>(&data, 5..5), Err(LengthMismatch));
    let expected: [u8; 16] = core::array::from_fn(|i| 8 + i as u8);
    assert_eq!(word4(&data, 2), Ok(expected));
    let last: [u8; 16] = core::array::from_fn(|i| 24 + i as u8);
    assert_eq!(word4(&data, 6), Ok(last));
}
