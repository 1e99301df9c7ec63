use cryptopals::xor::{
    calculate_hamming_distance, chunk_pair_distances, transpose_blocks, xor_slice_by_char,
    KeySizeError,
};

#[test]
fn hamming_distance_of_the_example() {
    assert_eq!(calculate_hamming_distance(b"this is a test", b"wokka wokka!!!"), 37);
}

#[test]
fn hamming_distance_counts_bits() {
    assert_eq!(calculate_hamming_distance(b"", b""), 0);
    assert_eq!(calculate_hamming_distance(&[0x00], &[0xff]), 8);
    assert_eq!(calculate_hamming_distance(&[0b1010_1010, 1], &[0b0101_0101, 3]), 9);
    assert_eq!(calculate_hamming_distance(b"same", b"same"), 0);
}

#[test]
fn xor_with_one_byte() {
    assert_eq!(xor_slice_by_char(&[0x00, 0xff, 0x0f], 0xf0), vec![0xf0, 0x0f, 0xff]);
    assert_eq!(xor_slice_by_char(&[], 7), Vec::<u8>::new());
    let text = b"Cooking MC's like a pound of bacon";
    let hidden = xor_slice_by_char(text, b'X');
    assert_eq!(
        hex::encode(&hidden),
        "1b37373331363f78151b7f2b783431333d78397828372d363c78373e783a393b3736"
    );
    assert_eq!(xor_slice_by_char(&hidden, b'X'), text.to_vec());
}

#[test]
fn distances_of_neighbouring_chunks() {
    let data = [0x00, 0x00, 0xff, 0xff, 0x0f, 0x0f, 0x0f, 0x0e, 0x55];
    assert_eq!(chunk_pair_distances(&data, 2, 2), Ok(vec![16]));
    assert_eq!(chunk_pair_distances(&data, 2, 4), Ok(vec![16, 1]));
    assert_eq!(chunk_pair_distances(&data, 1, 8), Ok(vec![0, 0, 0, 1]));
    assert_eq!(chunk_pair_distances(&data, 4, 2), Ok(vec![17]));
}

#[test]
fn distances_need_pairs_and_data() {
    let data = [0u8; 9];
    assert_eq!(
        chunk_pair_distances(&data, 2, 0),
        Err(KeySizeError::UnpairedBlocks { num_block: 0 })
    );
    assert_eq!(
        chunk_pair_distances(&data, 2, 3),
        Err(KeySizeError::UnpairedBlocks { num_block: 3 })
    );
    assert_eq!(
        chunk_pair_distances(&data, 5, 2),
        Err(KeySizeError::NotEnoughData { key_size: 5, num_block: 2, len: 9 })
    );
    assert_eq!(
        chunk_pair_distances(&data, usize::MAX, 2),
        Err(KeySizeError::NotEnoughData { key_size: usize::MAX, num_block: 2, len: 9 })
    );
    // the number of blocks is looked at first
    assert_eq!(
        chunk_pair_distances(&data, 100, 3),
        Err(KeySizeError::UnpairedBlocks { num_block: 3 })
    );
}

#[test]
fn transposed_blocks() {
    let data: Vec<u8> = (0..11).collect();
    assert_eq!(
        transpose_blocks(&data, 3),
        vec![vec![0, 3, 6], vec![1, 4, 7], vec![2, 5, 8]]
    );
    assert_eq!(transpose_blocks(&data, 1), vec![data.clone()]);
    assert_eq!(transpose_blocks(&data, 11), (0..11).map(|b| vec![b]).collect::<Vec<_>>());
    assert_eq!(transpose_blocks(&data, 12), vec![Vec::<u8>::new(); 12]);
}
