use cryptopals::aes::padding::{CipherPadding, PKCS7Padding};

#[test]
fn test_pkcs7_padding_empty() {
    let data = vec![];
    let padded = PKCS7Padding::add_pad::<16>(data.clone());
    let unpadded = PKCS7Padding::remove_pad::<16>(data.clone());

    assert_eq!(padded, vec![16; 16]);
    assert_eq!(unpadded, data);
}

#[test]
fn test_pkcs7_padding_more_than_buffer() {
    let data = vec![1];
    let padded = PKCS7Padding::add_pad::<16>(data.clone());
    let unpadded = PKCS7Padding::remove_pad::<16>(padded.clone());

    assert_eq!(padded, [data.clone(), vec![15; 15]].concat());
    assert_eq!(unpadded, data);
}

#[test]
fn test_pkcs7_padding_remove_more_than_buffer() {
    let padded = vec![1, 3];
    let unpadded = PKCS7Padding::remove_pad::<16>(padded.clone());
    assert_eq!(unpadded, vec![]);
}

#[test]
fn set2_c9_pkcs7_padding() {
    let text = "YELLOW SUBMARINE";
    let padded = PKCS7Padding::add_pad::<20>(text.as_bytes().to_vec());
    assert_eq!("YELLOW SUBMARINE\x04\x04\x04\x04", String::from_utf8(padded).unwrap());
}

#[test]
fn pkcs7_full_block_for_whole_blocks() {
    for blocks in 0..4usize {
        let data = vec![7u8; 16 * blocks];
        let padded = PKCS7Padding::add_pad::<16>(data.clone());
        assert_eq!(padded.len(), data.len() + 16);
        assert_eq!(&padded[..data.len()], &data[..]);
        assert!(padded[data.len()..].iter().all(|&b| b == 16));
        assert_eq!(PKCS7Padding::remove_pad::<16>(padded), data);
    }
}

#[test]
fn pkcs7_round_trip_for_every_remainder() {
    for len in 0..40usize {
        let data: Vec<u8> = (0..len).map(|i| (i * 7 + 3) as u8).collect();
        let padded = PKCS7Padding::add_pad::<16>(data.clone());
        assert_eq!(padded.len() % 16, 0);
        let pad = padded.len() - data.len();
        assert!(1 <= pad && pad <= 16);
        assert_eq!(pad, 16 - len % 16);
        assert!(padded[len..].iter().all(|&b| b as usize == pad));
        assert_eq!(PKCS7Padding::remove_pad::<16>(padded), data);
    }
}

#[test]
fn pkcs7_largest_block_size() {
    let padded = PKCS7Padding::add_pad::<255>(vec![]);
    assert_eq!(padded, vec![255u8; 255]);
    assert_eq!(PKCS7Padding::remove_pad::<255>(padded), Vec::<u8>::new());
}

#[test]
fn pkcs7_remove_does_not_check_the_padding() {
    // the last byte alone decides how much is cut
    assert_eq!(PKCS7Padding::remove_pad::<16>(vec![9, 8, 7, 2]), vec![9, 8]);
    assert_eq!(PKCS7Padding::remove_pad::<16>(vec![9, 8, 7, 0]), vec![9, 8, 7, 0]);
    assert_eq!(PKCS7Padding::remove_pad::<16>(vec![9, 8, 7, 4]), Vec::<u8>::new());
    assert_eq!(PKCS7Padding::remove_pad::<16>(vec![9, 8, 7, 5]), Vec::<u8>::new());
}
