use cryptopals::hex::decode;
use cryptopals::set1::{find_same_chunks, repeating_key_xor, score_aes_ecb_data};

#[test]
fn set1_c5_repeating_key_xor() {
    let value = "Burning 'em, if you ain't quick and nimble\nI go crazy when I hear a cymbal";
    let key = "ICE";

    let xored = repeating_key_xor(value.as_bytes(), key.as_bytes());
    let expected = decode(b"0b3637272a2b2e63622c2e69692a23693a2a3c6324202d623d63343c2a26226324272765272a282b2f20430a652e2c652a3124333a653e2b2027630c692b20283165286326302e27282f").unwrap();

    assert_eq!(xored, expected);
}

#[test]
fn repeating_key_xor_undoes_itself() {
    let value = b"some bytes to hide".to_vec();
    let hidden = repeating_key_xor(&value, b"key");
    assert_ne!(hidden.0, value);
    assert_eq!(repeating_key_xor(&hidden.0, b"key").0, value);
    assert_eq!(repeating_key_xor(&[], b"key").0, Vec::<u8>::new());
    // a key longer than the text
    assert_eq!(repeating_key_xor(&[1, 2], &[1, 1, 9, 9]).0, vec![0, 3]);
}

#[test]
fn repeated_chunks_are_counted() {
    // chunks of two bytes: ab cd ab ef cd ab gh
    let data = b"abcdabefcdabgh";
    assert_eq!(find_same_chunks(data, 2), vec![3, 2]);
    // no chunk twice
    assert_eq!(find_same_chunks(b"abcdefgh", 2), Vec::<usize>::new());
    // what is left over at the end is no chunk
    assert_eq!(find_same_chunks(b"ababa", 2), vec![2]);
    assert_eq!(find_same_chunks(b"aaaa", 1), vec![4]);
    assert_eq!(find_same_chunks(b"", 3), Vec::<usize>::new());
    assert_eq!(find_same_chunks(b"ab", 3), Vec::<usize>::new());
}

#[test]
fn repeated_chunks_largest_first() {
    // x twice, y four times, z three times, w once
    let data = b"xyzyzywyxz";
    assert_eq!(find_same_chunks(data, 1), vec![4, 3, 2]);
}

#[test]
fn ecb_score_is_the_largest_mean() {
    // nothing repeats
    let data: Vec<u8> = (0..144).collect();
    assert_eq!(score_aes_ecb_data(&data), 0);

    // one block of 16 bytes three times, another twice: mean 5 / 2
    let a = [1u8; 16];
    let b: Vec<u8> = (0..16).collect();
    let c: Vec<u8> = (100..116).collect();
    let mut data = Vec::new();
    data.extend_from_slice(&a);
    data.extend_from_slice(&b);
    data.extend_from_slice(&a);
    data.extend_from_slice(&c);
    data.extend_from_slice(&b);
    data.extend_from_slice(&a);
    assert_eq!(find_same_chunks(&data, 16), vec![3, 2]);
    assert_eq!(score_aes_ecb_data(&data), 2);

    // all bytes equal: 9 chunks of 16, 6 of 24, 4 of 36
    let data = vec![7u8; 144];
    assert_eq!(score_aes_ecb_data(&data), 9);
}
