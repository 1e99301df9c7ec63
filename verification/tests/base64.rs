use cryptopals::naivebase64::{calculate_base64_len_padding, decode, encode, InvalidBase64Char};

fn base64_encode<const N: u8>() {
    let data: Vec<u8> = (0..N).collect();

    let a = base64::encode(data.clone());
    let b = encode(&data);

    assert_eq!(a, b, "asserting for length {}", N);
}

fn base64_decode(data: &str) {
    let a = base64::decode(data).unwrap();
    let b = decode(data.as_bytes()).unwrap();

    assert_eq!(a, b, "assetion for decode, data={data}, a={a:?}, b={b:?}");
}

#[test]
fn test_base64_encode() {
    base64_encode::<100>();
    base64_encode::<101>();
    base64_encode::<102>();
    base64_encode::<104>();
}

#[test]
fn test_base64_decode() {
    base64_decode("cXdlcnR5dWlvcGFzZGZnaGprbHp4Y3Zibm0wMA==");
}

#[test]
fn encode_known_values() {
    assert_eq!(encode(b""), "");
    assert_eq!(encode(b"f"), "Zg==");
    assert_eq!(encode(b"fo"), "Zm8=");
    assert_eq!(encode(b"foo"), "Zm9v");
    assert_eq!(encode(b"foob"), "Zm9vYg==");
    assert_eq!(encode(b"fooba"), "Zm9vYmE=");
    assert_eq!(encode(b"foobar"), "Zm9vYmFy");
    assert_eq!(encode(&[0xfb, 0xff, 0xbf]), "+/+/");
    assert_eq!(encode(&[0x00, 0x10, 0x83]), "ABCD");
}

#[test]
fn decode_known_values() {
    assert_eq!(decode(b""), Ok(vec![]));
    assert_eq!(decode(b"Zg=="), Ok(b"f".to_vec()));
    assert_eq!(decode(b"Zm8="), Ok(b"fo".to_vec()));
    assert_eq!(decode(b"Zm9v"), Ok(b"foo".to_vec()));
    assert_eq!(decode(b"Zm9vYmFy"), Ok(b"foobar".to_vec()));
    assert_eq!(decode(b"+/+/"), Ok(vec![0xfb, 0xff, 0xbf]));
}

#[test]
fn encode_and_decode_agree_with_the_base64_crate() {
    for len in 0..70usize {
        let data: Vec<u8> = (0..len).map(|i| (i * 37 + 11) as u8).collect();
        let text = encode(&data);
        assert_eq!(text, base64::encode(&data));
        assert_eq!(decode(text.as_bytes()), Ok(data));
    }
    let all: Vec<u8> = (0..=255).collect();
    assert_eq!(decode(encode(&all).as_bytes()), Ok(all));
}

#[test]
fn decode_reports_the_first_bad_character() {
    assert_eq!(decode(b"Zm9v!m9v"), Err(InvalidBase64Char('!')));
    assert_eq!(decode(b"Zm 9"), Err(InvalidBase64Char(' ')));
    assert_eq!(decode(b"Zm9-Zm9_"), Err(InvalidBase64Char('-')));
    assert_eq!(decode(&[b'Z', 0xe9, b'9', b'v']), Err(InvalidBase64Char('é')));
}

#[test]
fn decode_leaves_a_partial_group_alone() {
    assert_eq!(decode(b"Zm9vYg"), Ok(b"foo".to_vec()));
    assert_eq!(decode(b"Zm9v!"), Ok(b"foo".to_vec()));
    assert_eq!(decode(b"Zm9"), Ok(vec![]));
}

#[test]
fn decode_takes_padding_anywhere() {
    // the padding character counts as zero, and only the third and fourth
    // place of a group shorten what comes out
    assert_eq!(decode(b"===="), Ok(vec![0]));
    assert_eq!(decode(b"Zg==Zg=="), Ok(b"ff".to_vec()));
    assert_eq!(decode(b"Zm=v"), Ok(vec![b'f']));
    assert_eq!(decode(b"=m9v"), Ok(vec![0x02, 0x6f, 0x6f]));
}

#[test]
fn reserved_length() {
    assert_eq!(calculate_base64_len_padding(0), 3);
    assert_eq!(calculate_base64_len_padding(1), 2);
    assert_eq!(calculate_base64_len_padding(2), 1);
    assert_eq!(calculate_base64_len_padding(3), 7);
    assert_eq!(calculate_base64_len_padding(100), 134);
}
