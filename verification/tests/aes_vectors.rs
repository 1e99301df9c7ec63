use cryptopals::aes::cipher::{AesCipher, BlockCipher};
use cryptopals::aes::sbox::calculate_aes_sbox;
use cryptopals::aes::tables::SBOX_TABLE;

fn unhex(s: &str) -> Vec<u8> {
    hex::decode(s).unwrap()
}

fn block(s: &str) -> [u8; 16] {
    let v = unhex(s);
    let mut b = [0u8; 16];
    b.copy_from_slice(&v);
    b
}

#[test]
fn fips197_aes128_known_answer() {
    let key = unhex("000102030405060708090a0b0c0d0e0f");
    let plain = block("00112233445566778899aabbccddeeff");
    let cipher = AesCipher::<128>::cipher(plain, &key);
    assert_eq!(hex::encode(cipher), "69c4e0d86a7b0430d8cdb78070b4c55a");
    assert_eq!(AesCipher::<128>::inv_cipher(cipher, &key), plain);
}

#[test]
fn fips197_aes192_known_answer() {
    let key = unhex("000102030405060708090a0b0c0d0e0f1011121314151617");
    let plain = block("00112233445566778899aabbccddeeff");
    let cipher = AesCipher::<192>::cipher(plain, &key);
    assert_eq!(hex::encode(cipher), "dda97ca4864cdfe06eaf70a0ec0d7191");
    assert_eq!(AesCipher::<192>::inv_cipher(cipher, &key), plain);
}

#[test]
fn fips197_aes256_known_answer() {
    let key = unhex("000102030405060708090a0b0c0d0e0f101112131415161718191a1b1c1d1e1f");
    let plain = block("00112233445566778899aabbccddeeff");
    let cipher = AesCipher::<256>::cipher(plain, &key);
    assert_eq!(hex::encode(cipher), "8ea2b7ca516745bfeafc49904b496089");
    assert_eq!(AesCipher::<256>::inv_cipher(cipher, &key), plain);
}

#[test]
fn computed_sbox_is_the_table() {
    assert_eq!(calculate_aes_sbox(), SBOX_TABLE);
}

// The worked example of FIPS-197, appendix A.1 and B: the schedule of a key,
// a whole block, and every step of the first round.
#[test]
fn test_aes() {
    let key = unhex("2b7e151628aed2a6abf7158809cf4f3c");
    let schedule = AesCipher::<128>::key_expansion(&key);
    assert_eq!(
        hex::encode(&schedule),
        "2b7e151628aed2a6abf7158809cf4f3ca0fafe1788542cb123a339392a6c7605\
         f2c295f27a96b9435935807a7359f67f3d80477d4716fe3e1e237e446d7a883b\
         ef44a541a8525b7fb671253bdb0bad00d4d1c6f87c839d87caf2b8bc11f915bc\
         6d88a37a110b3efddbf98641ca0093fd4e54f70e5f5fc9f384a64fb24ea6dc4f\
         ead27321b58dbad2312bf5607f8d292fac7766f319fadc2128d12941575c006e\
         d014f9a8c9ee2589e13f0cc8b6630ca6"
    );

    let plain = block("3243f6a8885a308d313198a2e0370734");
    let cipher = AesCipher::<128>::cipher(plain, &key);
    assert_eq!(hex::encode(cipher), "3925841d02dc09fbdc118597196a0b32");
    assert_eq!(AesCipher::<128>::inv_cipher(cipher, &key), plain);

    let mut state = plain;
    AesCipher::<128>::add_round_key(&mut state, &block("2b7e151628aed2a6abf7158809cf4f3c"));
    assert_eq!(hex::encode(state), "193de3bea0f4e22b9ac68d2ae9f84808");
    AesCipher::<128>::sub_bytes(&mut state);
    assert_eq!(hex::encode(state), "d42711aee0bf98f1b8b45de51e415230");
    AesCipher::<128>::shift_rows(&mut state);
    assert_eq!(hex::encode(state), "d4bf5d30e0b452aeb84111f11e2798e5");
    AesCipher::<128>::mix_columns(&mut state);
    assert_eq!(hex::encode(state), "046681e5e0cb199a48f8d37a2806264c");
    AesCipher::<128>::add_round_key(&mut state, &block("a0fafe1788542cb123a339392a6c7605"));
    assert_eq!(hex::encode(state), "a49c7ff2689f352b6b5bea43026a5049");

    // and back again
    AesCipher::<128>::add_round_key(&mut state, &block("a0fafe1788542cb123a339392a6c7605"));
    AesCipher::<128>::inv_mix_columns(&mut state);
    assert_eq!(hex::encode(state), "d4bf5d30e0b452aeb84111f11e2798e5");
    AesCipher::<128>::inv_shift_rows(&mut state);
    assert_eq!(hex::encode(state), "d42711aee0bf98f1b8b45de51e415230");
    AesCipher::<128>::inv_sub_bytes(&mut state);
    assert_eq!(hex::encode(state), "193de3bea0f4e22b9ac68d2ae9f84808");
}

#[test]
fn key_schedule_of_the_zero_key() {
    let schedule = AesCipher::<128>::key_expansion(&[0u8; 16]);
    assert_eq!(schedule.len(), 176);
    assert_eq!(
        hex::encode(&schedule),
        "00000000000000000000000000000000626363636263636362636363626363639b9898c9f9fbfbaa\
         9b9898c9f9fbfbaa90973450696ccffaf2f457330b0fac99ee06da7b876a1581759e42b27e91ee2b\
         7f2e2b88f8443e098dda7cbbf34b9290ec614b851425758c99ff09376ab49ba7217517873550620b\
         acaf6b3cc61bf09b0ef903333ba9613897060a04511dfa9fb1d4d8e28a7db9da1d7bb3de4c664941\
         b4ef5bcb3e92e21123e951cf6f8f188e"
    );
    // the same key, the same schedule
    assert_eq!(AesCipher::<128>::key_expansion(&[0u8; 16]), schedule);
}

#[test]
fn key_schedules_for_192_and_256_bits() {
    let schedule =
        AesCipher::<192>::key_expansion(&unhex("8e73b0f7da0e6452c810f32b809079e562f8ead2522c6b7b"));
    assert_eq!(schedule.len(), 208);
    assert_eq!(hex::encode(&schedule[..24]), "8e73b0f7da0e6452c810f32b809079e562f8ead2522c6b7b");
    assert_eq!(hex::encode(&schedule[24..40]), "fe0c91f72402f5a5ec12068e6c827f6b");
    assert_eq!(hex::encode(&schedule[192..]), "e98ba06f448c773c8ecc720401002202");

    let schedule = AesCipher::<256>::key_expansion(&unhex(
        "603deb1015ca71be2b73aef0857d77811f352c073b6108d72d9810a30914dff4",
    ));
    assert_eq!(schedule.len(), 240);
    assert_eq!(hex::encode(&schedule[32..48]), "9ba354118e6925afa51a8b5f2067fcde");
    // the word that is only substituted
    assert_eq!(hex::encode(&schedule[48..52]), "a8b09c1a");
    assert_eq!(hex::encode(&schedule[224..]), "fe4890d1e6188d0b046df344706c631e");
}

#[test]
fn block_cipher_with_a_schedule() {
    let key = unhex("000102030405060708090a0b0c0d0e0f");
    let schedule = AesCipher::<128>::expand_key(&key);
    let plain = block("00112233445566778899aabbccddeeff");
    let cipher = AesCipher::<128>::encrypt_block(plain, &schedule);
    assert_eq!(hex::encode(cipher), "69c4e0d86a7b0430d8cdb78070b4c55a");
    assert_eq!(AesCipher::<128>::decrypt_block(cipher, &schedule), plain);
    // decryption is a permutation too
    let other = AesCipher::<128>::decrypt_block(plain, &schedule);
    assert_eq!(AesCipher::<128>::encrypt_block(other, &schedule), plain);

    let mut state = plain;
    AesCipher::<128>::block_cipher(&mut state, &schedule);
    assert_eq!(state, cipher);
    AesCipher::<128>::block_inv_cipher(&mut state, &schedule);
    assert_eq!(state, plain);
}

#[test]
fn accepted_key_lengths() {
    assert!(AesCipher::<128>::accepts_key(&[0u8; 16]));
    assert!(AesCipher::<192>::accepts_key(&[0u8; 24]));
    assert!(AesCipher::<256>::accepts_key(&[0u8; 32]));
    for len in [0usize, 15, 17, 18, 19, 20, 24, 32] {
        assert!(!AesCipher::<128>::accepts_key(&vec![0u8; len]));
    }
    assert!(!AesCipher::<192>::accepts_key(&[0u8; 16]));
    assert!(!AesCipher::<256>::accepts_key(&[0u8; 24]));
    // no other key size is a cipher
    assert!(!AesCipher::<64>::accepts_key(&[0u8; 8]));
    assert_eq!(AesCipher::<128>::nr(), 10);
    assert_eq!(AesCipher::<192>::nr(), 12);
    assert_eq!(AesCipher::<256>::nr(), 14);
    assert_eq!(AesCipher::<128>::nk(), 4);
    assert_eq!(AesCipher::<192>::nk(), 6);
    assert_eq!(AesCipher::<256>::nk(), 8);
}
