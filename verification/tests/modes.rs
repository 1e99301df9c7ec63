use cryptopals::aes::modes::ModeError;
use cryptopals::aes::{Aes128, Aes128CBC, Aes192, Aes192CBC, Aes256, Aes256CBC, Modes};
use cryptopals::hex::ToHex;

fn unhex(s: &str) -> Vec<u8> {
    hex::decode(s).unwrap()
}

#[test]
fn aes_cbc_test() {
    let text = "6bc1bee22e409f96e93d7e117393172a11111111111111"
        .to_hex()
        .unwrap();
    let key = "2b7e151628aed2a6abf7158809cf4f3c".to_hex().unwrap();
    let enc = Aes128CBC::new().encrypt(text.data(), key.data()).unwrap();
    let dec = Aes128CBC::new().decrypt(&enc.clone(), key.data()).unwrap();

    let enc_ecb = Aes128::new().encrypt(text.data(), key.data()).unwrap();
    let dec_ecb = Aes128::new().decrypt(&enc_ecb.clone(), key.data()).unwrap();

    assert_eq!(text.data(), dec);
    assert_eq!(text.data(), dec_ecb);
}

// The vectors of NIST SP 800-38A, F.1.1 and F.2.1; the last block of each
// ciphertext is the encrypted padding.
#[test]
fn ecb_aes128_sp800_38a() {
    let key = unhex("2b7e151628aed2a6abf7158809cf4f3c");
    let plain = unhex(
        "6bc1bee22e409f96e93d7e117393172aae2d8a571e03ac9c9eb76fac45af8e51\
         30c81c46a35ce411e5fbc1191a0a52eff69f2445df4f9b17ad2b417be66c3710",
    );
    let enc = Aes128::new().encrypt(&plain, &key).unwrap();
    assert_eq!(enc.len(), 80);
    assert_eq!(
        hex::encode(&enc[..64]),
        "3ad77bb40d7a3660a89ecaf32466ef97f5d3d58503b9699de785895a96fdbaaf\
         43b1cd7f598ece23881b00e3ed0306887b0c785e27e8ad3f8223207104725dd4"
    );
    assert_eq!(hex::encode(&enc[64..]), "a254be88e037ddd9d79fb6411c3f9df8");
    assert_eq!(Aes128::new().decrypt(&enc, &key).unwrap(), plain);
}

#[test]
fn cbc_aes128_sp800_38a() {
    let key = unhex("2b7e151628aed2a6abf7158809cf4f3c");
    let iv = unhex("000102030405060708090a0b0c0d0e0f");
    let plain = unhex(
        "6bc1bee22e409f96e93d7e117393172aae2d8a571e03ac9c9eb76fac45af8e51\
         30c81c46a35ce411e5fbc1191a0a52eff69f2445df4f9b17ad2b417be66c3710",
    );
    let mode = Aes128CBC::with_iv(iv);
    let enc = mode.encrypt(&plain, &key).unwrap();
    assert_eq!(enc.len(), 80);
    assert_eq!(
        hex::encode(&enc[..64]),
        "7649abac8119b246cee98e9b12e9197d5086cb9b507219ee95db113a917678b2\
         73bed6b8e3c1743b7116e69e222295163ff1caa1681fac09120eca307586e1a7"
    );
    assert_eq!(mode.decrypt(&enc, &key).unwrap(), plain);
}

#[test]
fn default_iv_is_a_block_of_zeros() {
    let key = unhex("2b7e151628aed2a6abf7158809cf4f3c");
    let plain = b"some text of no particular length".to_vec();
    let a = Aes128CBC::new().encrypt(&plain, &key).unwrap();
    let b = Aes128CBC::with_iv(vec![0u8; 16]).encrypt(&plain, &key).unwrap();
    assert_eq!(a, b);
    // with a zero vector the first block is that of ECB
    let c = Aes128::new().encrypt(&plain, &key).unwrap();
    assert_eq!(a[..16], c[..16]);
    assert_ne!(a[16..32], c[16..32]);
}

#[test]
fn round_trip_all_key_sizes_and_lengths() {
    let key128: Vec<u8> = (0..16).collect();
    let key192: Vec<u8> = (0..24).collect();
    let key256: Vec<u8> = (0..32).collect();
    let iv: Vec<u8> = (100..116).collect();
    for len in 0..50usize {
        let plain: Vec<u8> = (0..len).map(|i| (i * 31 + 5) as u8).collect();

        let enc = Aes128::new().encrypt(&plain, &key128).unwrap();
        assert_eq!(enc.len(), 16 * (len / 16 + 1));
        assert_eq!(Aes128::new().decrypt(&enc, &key128).unwrap(), plain);
        let enc = Aes192::new().encrypt(&plain, &key192).unwrap();
        assert_eq!(Aes192::new().decrypt(&enc, &key192).unwrap(), plain);
        let enc = Aes256::new().encrypt(&plain, &key256).unwrap();
        assert_eq!(Aes256::new().decrypt(&enc, &key256).unwrap(), plain);

        let enc = Aes128CBC::with_iv(iv.clone()).encrypt(&plain, &key128).unwrap();
        assert_eq!(enc.len(), 16 * (len / 16 + 1));
        assert_eq!(Aes128CBC::with_iv(iv.clone()).decrypt(&enc, &key128).unwrap(), plain);
        let enc = Aes192CBC::with_iv(iv.clone()).encrypt(&plain, &key192).unwrap();
        assert_eq!(Aes192CBC::with_iv(iv.clone()).decrypt(&enc, &key192).unwrap(), plain);
        let enc = Aes256CBC::with_iv(iv.clone()).encrypt(&plain, &key256).unwrap();
        assert_eq!(Aes256CBC::with_iv(iv.clone()).decrypt(&enc, &key256).unwrap(), plain);
    }
}

#[test]
fn ecb_equal_blocks_give_equal_blocks() {
    let key: Vec<u8> = (0..16).collect();
    let mut plain = vec![0u8; 48];
    for i in 0..16 {
        plain[i] = i as u8;
        plain[16 + i] = 0xaa;
        plain[32 + i] = i as u8;
    }
    let ecb = Aes128::new().encrypt(&plain, &key).unwrap();
    assert_eq!(ecb[0..16], ecb[32..48]);
    assert_ne!(ecb[0..16], ecb[16..32]);
    // chaining tells the two apart
    let cbc = Aes128CBC::new().encrypt(&plain, &key).unwrap();
    assert_ne!(cbc[0..16], cbc[32..48]);
}

#[test]
fn cbc_bit_flip_reaches_two_blocks() {
    let key: Vec<u8> = (0..16).collect();
    let iv: Vec<u8> = (50..66).collect();
    // 63 bytes: one byte of padding, which the flip does not touch
    let plain: Vec<u8> = (0..63).map(|i| (i * 3) as u8).collect();
    let mode = Aes128CBC::with_iv(iv);
    let enc = mode.encrypt(&plain, &key).unwrap();
    assert_eq!(enc.len(), 64);

    let mut bad = enc.clone();
    bad[16 + 5] ^= 0x08;
    let dec = mode.decrypt(&bad, &key).unwrap();
    assert_eq!(dec.len(), plain.len());
    // nothing before the block
    assert_eq!(dec[..16], plain[..16]);
    // the block itself is garbled
    assert_ne!(dec[16..32], plain[16..32]);
    // the next block has the same bit flipped and no other
    let mut expected = plain[32..48].to_vec();
    expected[5] ^= 0x08;
    assert_eq!(dec[32..48], expected[..]);
    // nothing after it
    assert_eq!(dec[48..], plain[48..]);
}

#[test]
fn invalid_key_length_is_refused() {
    for len in [0usize, 1, 15, 17, 24, 32, 33] {
        let key = vec![1u8; len];
        assert_eq!(Aes128::new().encrypt(b"abc", &key), Err(ModeError::InvalidKeyLength));
        assert_eq!(Aes128::new().decrypt(&[0u8; 16], &key), Err(ModeError::InvalidKeyLength));
        assert_eq!(Aes128CBC::new().encrypt(b"abc", &key), Err(ModeError::InvalidKeyLength));
        assert_eq!(Aes128CBC::new().decrypt(&[0u8; 16], &key), Err(ModeError::InvalidKeyLength));
    }
    assert_eq!(Aes192::new().encrypt(b"abc", &[0u8; 16]), Err(ModeError::InvalidKeyLength));
    assert_eq!(Aes256::new().encrypt(b"abc", &[0u8; 24]), Err(ModeError::InvalidKeyLength));
    assert!(Aes192::new().encrypt(b"abc", &[0u8; 24]).is_ok());
    assert!(Aes256::new().encrypt(b"abc", &[0u8; 32]).is_ok());
}

#[test]
fn partial_block_is_refused() {
    let key = vec![1u8; 16];
    for len in [1usize, 15, 17, 31] {
        let data = vec![0u8; len];
        assert_eq!(Aes128::new().decrypt(&data, &key), Err(ModeError::PartialBlock));
        assert_eq!(Aes128CBC::new().decrypt(&data, &key), Err(ModeError::PartialBlock));
    }
    // the key is looked at first
    assert_eq!(Aes128::new().decrypt(&[0u8; 5], &[0u8; 5]), Err(ModeError::InvalidKeyLength));
    // no blocks at all decrypt to nothing
    assert_eq!(Aes128::new().decrypt(&[], &key), Ok(vec![]));
    assert_eq!(Aes128CBC::new().decrypt(&[], &key), Ok(vec![]));
}
