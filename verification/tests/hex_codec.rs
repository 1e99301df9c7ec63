use cryptopals::hex::{
    char_to_hex_point, decode, encode, encode_with_break, encode_with_break_space,
    hex_point_to_hex_char, Error, Hex, ToHex,
};

#[test]
fn test_hex_decode() {
    let hex_str = "49276d206b696c6c696e6720796f757220627261696e206c696b65206120706f69736f6e6f7573206d757368726f6f6d";
    let a = hex::decode(hex_str).unwrap();
    let b: Hex = hex_str.try_into().unwrap();

    assert_eq!(a, b.0);
}

#[test]
fn test_hex_encode() {
    let hex_str = "49276d206b696c6c696e6720796f757220627261696e206c696b65206120706f69736f6e6f7573206d757368726f6f6d";
    let a = hex::decode(hex_str).unwrap();
    let b: Hex = hex_str.try_into().unwrap();

    let encode_a = hex::encode(a).to_ascii_lowercase();
    let encode_b = b.to_string().to_ascii_lowercase();

    assert_eq!(encode_a, encode_b);
}

#[test]
fn set1_c2_xor() {
    let a = decode(b"1c0111001f010100061a024b53535009181c").unwrap();
    let b = decode(b"686974207468652062756c6c277320657965").unwrap();
    let c = a ^ b;
    assert_eq!(
        encode(c.data()).unwrap(),
        "746865206b696420646f6e277420706c6179"
    );
}

#[test]
fn decode_takes_both_cases() {
    assert_eq!(decode(b"00ff7FaBcD").unwrap().0, vec![0x00, 0xff, 0x7f, 0xab, 0xcd]);
    assert_eq!(decode(b"").unwrap().0, Vec::<u8>::new());
}

#[test]
fn decode_reports_the_first_bad_digit() {
    // the position is that of the pair, for either digit of it
    assert_eq!(decode(b"00g0"), Err(Error::InvalidHexLiteral { idx: 2, val: 'g' }));
    assert_eq!(decode(b"000g"), Err(Error::InvalidHexLiteral { idx: 2, val: 'g' }));
    assert_eq!(decode(b"zz"), Err(Error::InvalidHexLiteral { idx: 0, val: 'z' }));
    assert_eq!(decode(b"0 "), Err(Error::InvalidHexLiteral { idx: 0, val: ' ' }));
    assert_eq!(decode(&[b'1', b'2', 0xe9, b'4']), Err(Error::InvalidHexLiteral { idx: 2, val: 'é' }));
    // a bad digit is found before the length is
    assert_eq!(decode(b"00x"), Err(Error::InvalidHexLiteral { idx: 2, val: 'x' }));
    assert_eq!(decode(b"0x0"), Err(Error::InvalidHexLiteral { idx: 0, val: 'x' }));
}

#[test]
fn decode_refuses_an_odd_length() {
    assert_eq!(decode(b"0"), Err(Error::OddLength));
    assert_eq!(decode(b"abc"), Err(Error::OddLength));
}

#[test]
fn try_from_checks_the_length_first() {
    assert_eq!(Hex::try_from("0x0"), Err(Error::OddLength));
    assert_eq!(Hex::try_from("0x"), Err(Error::InvalidHexLiteral { idx: 0, val: 'x' }));
    assert_eq!(Hex::try_from(String::from("0a0b")), Ok(Hex(vec![10, 11])));
    // bytes are taken as they are
    assert_eq!(Hex::try_from(&[1u8, 2][..]), Ok(Hex(vec![1, 2])));
    assert_eq!(Hex::try_from(&[1u8, 2, 3][..]), Err(Error::OddLength));
}

#[test]
fn encode_is_lower_case() {
    assert_eq!(encode(&[0x00, 0x0f, 0xf0, 0xab, 0xff]).unwrap(), "000ff0abff");
    assert_eq!(encode(&[]).unwrap(), "");
    assert_eq!(Hex::encode(&[0xde, 0xad]).unwrap(), "dead");
    assert_eq!(Hex(vec![0xbe, 0xef]).to_string(), "beef");
}

#[test]
fn encode_agrees_with_the_hex_crate() {
    let all: Vec<u8> = (0..=255).collect();
    assert_eq!(encode(&all).unwrap(), hex::encode(&all));
    assert_eq!(decode(hex::encode(&all).as_bytes()).unwrap().0, all);
    assert_eq!(decode(hex::encode_upper(&all).as_bytes()).unwrap().0, all);
}

#[test]
fn encode_with_breaks() {
    let data = [0x01, 0x23, 0x45, 0x67, 0x89];
    assert_eq!(encode_with_break(&data, 4).unwrap(), "0123\n4567\n89");
    assert_eq!(encode_with_break(&data, 3).unwrap(), "012\n345\n678\n9");
    assert_eq!(encode_with_break(&data, 10).unwrap(), "0123456789");
    assert_eq!(encode_with_break(&data, 100).unwrap(), "0123456789");
    assert_eq!(encode_with_break(&[], 0).unwrap(), "");
    assert_eq!(Hex::encode_with_break(&data, 4).unwrap(), "0123\n4567\n89");
}

#[test]
fn encode_with_breaks_and_spaces() {
    let data = [0x01, 0x23, 0x45, 0x67, 0x89];
    assert_eq!(encode_with_break_space(&data, 4).unwrap(), "01 23\n45 67\n89");
    assert_eq!(encode_with_break_space(&data, 100).unwrap(), "01 23 45 67 89");
    // a break takes the place of the space, wherever it falls
    assert_eq!(encode_with_break_space(&data, 3).unwrap(), "01 2\n3 45\n67 8\n9");
    assert_eq!(encode_with_break_space(&[], 0).unwrap(), "");
}

#[test]
fn to_hex_on_text_and_bytes() {
    assert_eq!("0aff".to_hex().unwrap().0, vec![0x0a, 0xff]);
    assert_eq!(String::from("0aff").to_hex().unwrap().0, vec![0x0a, 0xff]);
    assert_eq!((&b"0aff"[..]).to_hex().unwrap().0, vec![0x0a, 0xff]);
    assert_eq!(b"0aff".to_vec().to_hex().unwrap().0, vec![0x0a, 0xff]);
    assert_eq!("0af".to_hex(), Err(Error::OddLength));
}

#[test]
fn xor_is_as_long_as_the_shorter() {
    let a = Hex(vec![0xff, 0x0f, 0x01]);
    let b = Hex(vec![0x0f, 0x0f]);
    assert_eq!(a.xor(&b), Hex(vec![0xf0, 0x00]));
    assert_eq!(a.clone() ^ b.clone(), Hex(vec![0xf0, 0x00]));
    assert_eq!(b ^ a, Hex(vec![0xf0, 0x00]));
}

#[test]
fn single_digits() {
    assert_eq!(char_to_hex_point(b'0', 0), Ok(0));
    assert_eq!(char_to_hex_point(b'9', 0), Ok(9));
    assert_eq!(char_to_hex_point(b'a', 0), Ok(10));
    assert_eq!(char_to_hex_point(b'F', 0), Ok(15));
    assert_eq!(char_to_hex_point(b'G', 7), Err(Error::InvalidHexLiteral { idx: 7, val: 'G' }));
    assert_eq!(char_to_hex_point(b'/', 1), Err(Error::InvalidHexLiteral { idx: 1, val: '/' }));
    assert_eq!(char_to_hex_point(b':', 1), Err(Error::InvalidHexLiteral { idx: 1, val: ':' }));
    assert_eq!(char_to_hex_point(b'`', 1), Err(Error::InvalidHexLiteral { idx: 1, val: '`' }));

    assert_eq!(hex_point_to_hex_char(0, 0), Ok(b'0'));
    assert_eq!(hex_point_to_hex_char(9, 0), Ok(b'9'));
    assert_eq!(hex_point_to_hex_char(10, 0), Ok(b'a'));
    assert_eq!(hex_point_to_hex_char(15, 0), Ok(b'f'));
    assert_eq!(hex_point_to_hex_char(16, 3), Err(Error::InvalidHexCodePoint { idx: 3, val: 16 }));
    assert_eq!(hex_point_to_hex_char(255, 4), Err(Error::InvalidHexCodePoint { idx: 4, val: 255 }));
}
