//! Hexadecimal text: decoding it to bytes and encoding bytes as text.
use vstd::prelude::*;
use vstd::string::{StrSliceExecFns, StringExecFns, StringSliceAdditionalSpecFns};
use vstd::std_specs::convert::TryFromSpecImpl;
use vstd::std_specs::ops::BitXorSpecImpl;

verus! {

/// The result of a conversion from or to hexadecimal text.
pub type HexResult<T> = Result<T, Error>;

/// Why a conversion from or to hexadecimal text fails.
#[derive(Debug, Clone, Copy, PartialEq, Eq)]
#[allow(inconsistent_fields)]
pub enum Error {
    /// The character `val` is no hexadecimal digit. `idx` is the position of
    /// the pair of characters that holds it.
    InvalidHexLiteral { idx: usize, val: char },
    /// The value `val`, at position `idx`, is over 15 and has no digit.
    InvalidHexCodePoint { idx: usize, val: u8 },
    /// The text has an odd number of characters.
    OddLength,
}

/// Bytes that were written as hexadecimal text.
#[derive(Debug, Clone, Eq, PartialEq)]
pub struct Hex(pub Vec<u8>);

/// `c` is the code of a hexadecimal digit, in either case.
pub open spec fn is_hex_digit(c: u8) -> bool {
    ||| 48 <= c <= 57
    ||| 65 <= c <= 70
    ||| 97 <= c <= 102
}

/// The value of the hexadecimal digit with code `c`.
pub open spec fn hex_digit_value(c: u8) -> u8 {
    if c <= 57 {
        (c - 48) as u8
    } else if c <= 70 {
        (c - 55) as u8
    } else {
        (c - 87) as u8
    }
}

/// The code of the lower-case hexadecimal digit with value `n`.
pub open spec fn hex_digit_code(n: u8) -> u8 {
    if n <= 9 {
        (n + 48) as u8
    } else {
        (n + 87) as u8
    }
}

/// The position of the first character from `from` on that is no
/// hexadecimal digit, and the length of the text where there is none.
pub open spec fn first_bad_digit(text: Seq<u8>, from: int) -> int
    decreases text.len() - from,
{
    if from < 0 || from >= text.len() {
        text.len() as int
    } else if !is_hex_digit(text[from]) {
        from
    } else {
        first_bad_digit(text, from + 1)
    }
}

/// The bytes that a text of hexadecimal digits stands for: each pair of
/// digits is one byte, the first digit its upper half.
pub open spec fn decoded_bytes(text: Seq<u8>) -> Seq<u8> {
    Seq::new(
        text.len() / 2,
        |i: int| (16 * hex_digit_value(text[2 * i]) + hex_digit_value(text[2 * i + 1])) as u8,
    )
}

/// What decoding makes of `text`. The first character that is no digit is
/// reported with the position of its pair; a text of digits alone must have
/// an even length.
pub open spec fn decode_spec(text: Seq<u8>) -> Result<Seq<u8>, Error> {
    let bad = first_bad_digit(text, 0);
    if bad < text.len() {
        Err(Error::InvalidHexLiteral { idx: (2 * (bad / 2)) as usize, val: text[bad] as char })
    } else if text.len() % 2 != 0 {
        Err(Error::OddLength)
    } else {
        Ok(decoded_bytes(text))
    }
}

/// `r` is what decoding makes of `text`.
pub open spec fn decodes_to(text: Seq<u8>, r: HexResult<Hex>) -> bool {
    match r {
        Ok(hex) => decode_spec(text) == Ok::<Seq<u8>, Error>(hex.0@),
        Err(e) => decode_spec(text) == Err::<Seq<u8>, Error>(e),
    }
}

/// The codes of the digits that `bytes` are written with: two lower-case
/// digits for each byte, the upper half first.
pub open spec fn encoded_codes(bytes: Seq<u8>) -> Seq<u8> {
    Seq::new(
        2 * bytes.len(),
        |i: int|
            if i % 2 == 0 {
                hex_digit_code(bytes[i / 2] >> 4)
            } else {
                hex_digit_code(bytes[i / 2] & 15)
            },
    )
}

/// The hexadecimal text of `bytes`.
pub open spec fn encoded_text(bytes: Seq<u8>) -> Seq<char> {
    Seq::new(2 * bytes.len(), |i: int| encoded_codes(bytes)[i] as char)
}

/// What is put before the character with index `i` when a line is broken
/// after every `n` characters.
pub open spec fn break_before(i: int, n: int) -> Seq<char> {
    if i != 0 && i % n == 0 {
        seq!['\n']
    } else {
        Seq::empty()
    }
}

/// What is put before the character with index `i` when a line is broken
/// after every `n` characters and the pairs of digits on a line are set
/// apart by a space.
pub open spec fn break_or_space_before(i: int, n: int) -> Seq<char> {
    if i != 0 && i % n == 0 {
        seq!['\n']
    } else if i != 0 && i % 2 == 0 {
        seq![' ']
    } else {
        Seq::empty()
    }
}

/// The first `count` characters of `text`, each behind what `before` puts
/// in front of it.
pub open spec fn with_separators(
    text: Seq<char>,
    before: spec_fn(int) -> Seq<char>,
    count: nat,
) -> Seq<char>
    decreases count,
{
    if count == 0 {
        Seq::empty()
    } else {
        with_separators(text, before, (count - 1) as nat) + before(count - 1) + seq![
            text[count - 1],
        ]
    }
}

/// Line breaks after every `n` characters.
pub open spec fn breaks(n: int) -> spec_fn(int) -> Seq<char> {
    |i: int| break_before(i, n)
}

/// Line breaks after every `n` characters, and spaces between the pairs of
/// digits on a line.
pub open spec fn breaks_and_spaces(n: int) -> spec_fn(int) -> Seq<char> {
    |i: int| break_or_space_before(i, n)
}

/// The hexadecimal text of `bytes` with a line break after every `n`
/// characters.
pub open spec fn encoded_with_break(bytes: Seq<u8>, n: int) -> Seq<char> {
    with_separators(encoded_text(bytes), breaks(n), 2 * bytes.len())
}

/// The hexadecimal text of `bytes` with a line break after every `n`
/// characters and a space between the pairs of digits on a line.
pub open spec fn encoded_with_break_space(bytes: Seq<u8>, n: int) -> Seq<char> {
    with_separators(encoded_text(bytes), breaks_and_spaces(n), 2 * bytes.len())
}

/// The byte-wise XOR of two buffers, as long as the shorter of them.
pub open spec fn xor_bytes(a: Seq<u8>, b: Seq<u8>) -> Seq<u8> {
    Seq::new(if a.len() <= b.len() { a.len() } else { b.len() }, |i: int| a[i] ^ b[i])
}

proof fn lemma_nibbles(v: u8, hi: u8, lo: u8)
    by (bit_vector)
    ensures
        v >> 4 <= 15,
        v & 15 <= 15,
        hi <= 15 && lo <= 15 ==> (hi << 4) == 16 * hi && (hi << 4) + lo <= 255,
{
}

/// Every code of an encoded text is that of a lower-case digit.
proof fn lemma_encoded_codes_are_digits(bytes: Seq<u8>, i: int)
    requires
        0 <= i < 2 * bytes.len(),
    ensures
        48 <= encoded_codes(bytes)[i] <= 57 || 97 <= encoded_codes(bytes)[i] <= 102,
{
    lemma_nibbles(bytes[i / 2], 0, 0);
}

/// Where the first bad digit lies, and that all before it are digits.
proof fn lemma_first_bad_digit(text: Seq<u8>, from: int)
    requires
        0 <= from <= text.len(),
    ensures
        from <= first_bad_digit(text, from) <= text.len(),
        forall|k: int| from <= k < first_bad_digit(text, from) ==> is_hex_digit(text[k]),
        first_bad_digit(text, from) < text.len() ==> !is_hex_digit(
            text[first_bad_digit(text, from)],
        ),
    decreases text.len() - from,
{
    if from < text.len() && is_hex_digit(text[from]) {
        lemma_first_bad_digit(text, from + 1);
    }
}

/// The first bad digit from `from` on is the first one overall, when all
/// characters before `from` are digits.
proof fn lemma_first_bad_digit_from(text: Seq<u8>, from: int)
    requires
        0 <= from <= text.len(),
        forall|k: int| 0 <= k < from ==> is_hex_digit(text[k]),
    ensures
        first_bad_digit(text, 0) == first_bad_digit(text, from),
    decreases from,
{
    if from > 0 {
        lemma_first_bad_digit_from(text, from - 1);
    }
}

/// Decodes hexadecimal text to the bytes it stands for.
pub fn decode(v: &[u8]) -> (r: HexResult<Hex>)
    ensures
        decodes_to(v@, r),
{
    unpacked_u8_slice_to_hex(v)
}

/// Encodes bytes as hexadecimal text in lower case.
pub fn encode(v: &[u8]) -> (r: HexResult<String>)
    ensures
        r matches Ok(s) && s@ == encoded_text(v@),
{
    let points = hex_to_codepoints(v)?;
    let mut text = String::new();
    for i in 0..points.len()
        invariant
            points@ == encoded_codes(v@),
            text@ == Seq::new(i as nat, |k: int| points@[k] as char),
    {
        proof {
            lemma_encoded_codes_are_digits(v@, i as int);
        }
        text.append(digit_str(points[i]));
        assert(text@ =~= Seq::new((i + 1) as nat, |k: int| points@[k] as char));
    }
    assert(text@ =~= encoded_text(v@));
    Ok(text)
}

/// Encodes bytes as hexadecimal text with a line break after every `n`
/// characters. `n` may be zero only where there is nothing to encode.
pub fn encode_with_break(v: &[u8], n: usize) -> (r: HexResult<String>)
    requires
        n > 0 || v@.len() == 0,
    ensures
        r matches Ok(s) && s@ == encoded_with_break(v@, n as int),
{
    let points = hex_to_codepoints(v)?;
    let ghost chars = encoded_text(v@);
    let ghost before = breaks(n as int);
    let mut text = String::new();
    for i in 0..points.len()
        invariant
            n > 0 || v@.len() == 0,
            points@ == encoded_codes(v@),
            chars == encoded_text(v@),
            before == breaks(n as int),
            text@ == with_separators(chars, before, i as nat),
    {
        proof {
            reveal_strlit("\n");
        }
        if i != 0 && i % n == 0 {
            text.append("\n");
        }
        assert(text@ =~= with_separators(chars, before, i as nat) + before(i as int));
        proof {
            lemma_encoded_codes_are_digits(v@, i as int);
        }
        text.append(digit_str(points[i]));
    }
    Ok(text)
}

/// Encodes bytes as hexadecimal text with a line break after every `n`
/// characters and a space between the pairs of digits on a line. `n` may be
/// zero only where there is nothing to encode.
pub fn encode_with_break_space(v: &[u8], n: usize) -> (r: HexResult<String>)
    requires
        n > 0 || v@.len() == 0,
    ensures
        r matches Ok(s) && s@ == encoded_with_break_space(v@, n as int),
{
    let points = hex_to_codepoints(v)?;
    let ghost chars = encoded_text(v@);
    let ghost before = breaks_and_spaces(n as int);
    let mut text = String::new();
    for i in 0..points.len()
        invariant
            n > 0 || v@.len() == 0,
            points@ == encoded_codes(v@),
            chars == encoded_text(v@),
            before == breaks_and_spaces(n as int),
            text@ == with_separators(chars, before, i as nat),
    {
        proof {
            reveal_strlit("\n");
            reveal_strlit(" ");
        }
        if i != 0 && i % n == 0 {
            text.append("\n");
        } else if i != 0 && i % 2 == 0 {
            text.append(" ");
        }
        assert(text@ =~= with_separators(chars, before, i as nat) + before(i as int));
        proof {
            lemma_encoded_codes_are_digits(v@, i as int);
        }
        text.append(digit_str(points[i]));
    }
    Ok(text)
}

/// The lower-case digit with code `code`, as a string of one character.
fn digit_str(code: u8) -> (digit: &'static str)
    requires
        48 <= code <= 57 || 97 <= code <= 102,
    ensures
        digit@ == seq![code as char],
{
    let digits = "0123456789abcdef";
    proof {
        reveal_strlit("0123456789abcdef");
    }
    let value = if code <= 57 {
        code - 48
    } else {
        code - 87
    };
    let digit = digits.substring_ascii(value as usize, value as usize + 1);
    assert(digit@ =~= seq![code as char]);
    digit
}

/// The value of the hexadecimal digit with code `c`, which is reported with
/// the position `idx` where it is no digit.
pub fn char_to_hex_point(c: u8, idx: usize) -> (r: HexResult<u8>)
    ensures
        is_hex_digit(c) ==> r == Ok::<u8, Error>(hex_digit_value(c)),
        !is_hex_digit(c) ==> r == Err::<u8, Error>(
            Error::InvalidHexLiteral { idx, val: c as char },
        ),
{
    if 48 <= c && c <= 57 {
        Ok(c - 48)
    } else if 65 <= c && c <= 70 {
        Ok(c - 65 + 10)
    } else if 97 <= c && c <= 102 {
        Ok(c - 97 + 10)
    } else {
        Err(Error::InvalidHexLiteral { idx, val: c as char })
    }
}

/// The code of the lower-case digit with value `c`, which is reported with
/// the position `idx` where it is over 15.
pub fn hex_point_to_hex_char(c: u8, idx: usize) -> (r: HexResult<u8>)
    ensures
        c <= 15 ==> r == Ok::<u8, Error>(hex_digit_code(c)),
        c > 15 ==> r == Err::<u8, Error>(Error::InvalidHexCodePoint { idx, val: c }),
{
    if c <= 9 {
        Ok(c + 48)
    } else if c <= 15 {
        Ok(c + 97 - 10)
    } else {
        Err(Error::InvalidHexCodePoint { idx, val: c })
    }
}

fn unpacked_u8_slice_to_hex(value: &[u8]) -> (r: HexResult<Hex>)
    ensures
        decodes_to(value@, r),
{
    let mut bytes: Vec<u8> = Vec::new();
    let pairs = value.len() / 2;
    assert(bytes@ =~= decoded_bytes(value@.subrange(0, 0)));
    for idx in 0..pairs
        invariant
            pairs == value@.len() / 2,
            value@.len() <= usize::MAX,
            bytes@ == decoded_bytes(value@.subrange(0, 2 * idx)),
            forall|k: int| 0 <= k < 2 * idx ==> is_hex_digit(value@[k]),
    {
        proof {
            lemma_first_bad_digit_from(value@, 2 * idx);
            lemma_first_bad_digit(value@, 2 * idx);
        }
        let hi = char_to_hex_point(value[idx * 2], idx * 2)?;
        proof {
            lemma_first_bad_digit_from(value@, 2 * idx + 1);
            lemma_first_bad_digit(value@, 2 * idx + 1);
        }
        let lo = char_to_hex_point(value[idx * 2 + 1], idx * 2)?;
        proof {
            lemma_nibbles(0, hi, lo);
        }
        bytes.push((hi << 4) + lo);
        assert(bytes@ =~= decoded_bytes(value@.subrange(0, 2 * (idx + 1))));
    }
    proof {
        lemma_first_bad_digit_from(value@, 2 * pairs);
        lemma_first_bad_digit(value@, 2 * pairs);
    }
    if value.len() % 2 != 0 {
        // a last digit without its pair
        let last = char_to_hex_point(value[pairs * 2], pairs * 2)?;
        proof {
            lemma_first_bad_digit_from(value@, 2 * pairs + 1);
        }
        return Err(Error::OddLength);
    }
    assert(value@.subrange(0, 2 * pairs) =~= value@);
    Ok(Hex(bytes))
}

// unpack the hex, to one u8 per hex codepoint
fn hex_to_codepoints(value: &[u8]) -> (r: HexResult<Vec<u8>>)
    ensures
        r matches Ok(points) && points@ == encoded_codes(value@),
{
    let mut points: Vec<u8> = Vec::with_capacity(value.len());
    for idx in 0..value.len()
        invariant
            points@ == encoded_codes(value@.subrange(0, idx as int)),
    {
        let v = value[idx];
        proof {
            lemma_nibbles(v, 0, 0);
        }
        let lo = v >> 4;
        let hi = v & 15;
        let first = hex_point_to_hex_char(lo, idx)?;
        let second = hex_point_to_hex_char(hi, idx)?;
        points.push(first);
        points.push(second);
        assert(points@ =~= encoded_codes(value@.subrange(0, idx + 1)));
    }
    assert(value@.subrange(0, value@.len() as int) =~= value@);
    Ok(points)
}

/// A value that holds hexadecimal text and can be decoded.
pub trait ToHex<T> {
    /// The text that the value holds, as bytes.
    spec fn hex_text(&self) -> Seq<u8>;

    /// Decodes the text that the value holds.
    fn to_hex(&self) -> (r: HexResult<Hex>)
        ensures
            decodes_to(self.hex_text(), r),
    ;
}

impl<'a> ToHex<&'a [u8]> for &'a [u8] {
    open spec fn hex_text(&self) -> Seq<u8> {
        self@
    }

    fn to_hex(&self) -> (r: HexResult<Hex>) {
        decode(*self)
    }
}

impl<'a> ToHex<&'a str> for &'a str {
    open spec fn hex_text(&self) -> Seq<u8> {
        self.spec_bytes()
    }

    fn to_hex(&self) -> (r: HexResult<Hex>) {
        decode(self.as_bytes())
    }
}

impl ToHex<Vec<u8>> for Vec<u8> {
    open spec fn hex_text(&self) -> Seq<u8> {
        self@
    }

    fn to_hex(&self) -> (r: HexResult<Hex>) {
        decode(self.as_slice())
    }
}

impl ToHex<String> for String {
    open spec fn hex_text(&self) -> Seq<u8> {
        vstd::utf8::encode_utf8(self@)
    }

    fn to_hex(&self) -> (r: HexResult<Hex>) {
        decode(self.as_str().as_bytes())
    }
}

impl Hex {
    /// The bytes.
    pub fn data(&self) -> (bytes: &[u8])
        ensures
            bytes@ == self.0@,
    {
        self.0.as_slice()
    }

    /// Encodes bytes as hexadecimal text in lower case.
    pub fn encode(value: &[u8]) -> (r: HexResult<String>)
        ensures
            r matches Ok(s) && s@ == encoded_text(value@),
    {
        encode(value)
    }

    /// Encodes bytes as hexadecimal text with a line break after every `n`
    /// characters.
    pub fn encode_with_break(value: &[u8], n: usize) -> (r: HexResult<String>)
        requires
            n > 0 || value@.len() == 0,
        ensures
            r matches Ok(s) && s@ == encoded_with_break(value@, n as int),
    {
        encode_with_break(value, n)
    }

    /// The bytes as hexadecimal text in lower case.
    pub fn to_string(&self) -> (text: String)
        ensures
            text@ == encoded_text(self.0@),
    {
        encode(self.0.as_slice()).unwrap()
    }

    /// The bytes of `value` as they are, which must be an even number.
    pub fn from_bytes(value: &[u8]) -> (r: HexResult<Hex>)
        ensures
            value@.len() % 2 != 0 ==> r == Err::<Hex, Error>(Error::OddLength),
            value@.len() % 2 == 0 ==> (r matches Ok(hex) && hex.0@ == value@),
    {
        if value.len() % 2 != 0 {
            Err(Error::OddLength)
        } else {
            Ok(Hex(vstd::slice::slice_to_vec(value)))
        }
    }

    /// The bytes that the hexadecimal text `value` stands for. A text of
    /// odd length is refused before its digits are looked at.
    pub fn from_text(value: &str) -> (r: HexResult<Hex>)
        ensures
            value.spec_bytes().len() % 2 != 0 ==> r == Err::<Hex, Error>(Error::OddLength),
            value.spec_bytes().len() % 2 == 0 ==> decodes_to(value.spec_bytes(), r),
    {
        let bytes = value.as_bytes();
        if bytes.len() % 2 != 0 {
            Err(Error::OddLength)
        } else {
            unpacked_u8_slice_to_hex(bytes)
        }
    }

    /// The byte-wise XOR with `rhs`, as long as the shorter of the two.
    pub fn xor(&self, rhs: &Hex) -> (out: Hex)
        ensures
            out.0@ == xor_bytes(self.0@, rhs.0@),
    {
        let a = self.data();
        let b = rhs.data();
        let len = if a.len() <= b.len() {
            a.len()
        } else {
            b.len()
        };
        let mut out: Vec<u8> = Vec::with_capacity(len);
        for i in 0..len
            invariant
                len <= a@.len(),
                len <= b@.len(),
                out@ == Seq::new(i as nat, |k: int| a@[k] ^ b@[k]),
        {
            out.push(a[i] ^ b[i]);
            assert(out@ =~= Seq::new((i + 1) as nat, |k: int| a@[k] ^ b@[k]));
        }
        Hex(out)
    }
}

// The conversions and the operator below are impls of traits of the
// standard library. Each states its result on the method itself; nothing is
// claimed through the trait's own spec functions, which cannot name a value
// that holds a `Vec`.
impl<'a> TryFrom<&'a [u8]> for Hex {
    type Error = Error;

    /// The bytes of `value` as they are, which must be an even number.
    fn try_from(value: &'a [u8]) -> (r: HexResult<Self>)
        ensures
            value@.len() % 2 != 0 ==> r == Err::<Hex, Error>(Error::OddLength),
            value@.len() % 2 == 0 ==> (r matches Ok(hex) && hex.0@ == value@),
    {
        Hex::from_bytes(value)
    }
}

impl<'a> TryFromSpecImpl<&'a [u8]> for Hex {
    open spec fn obeys_try_from_spec() -> bool {
        false
    }

    open spec fn try_from_spec(v: &'a [u8]) -> Result<Self, Error> {
        Err(Error::OddLength)
    }
}

impl<'a> TryFrom<&'a str> for Hex {
    type Error = Error;

    /// The bytes that the hexadecimal text `value` stands for. A text of
    /// odd length is refused before its digits are looked at.
    fn try_from(value: &'a str) -> (r: HexResult<Self>)
        ensures
            value.spec_bytes().len() % 2 != 0 ==> r == Err::<Hex, Error>(Error::OddLength),
            value.spec_bytes().len() % 2 == 0 ==> decodes_to(value.spec_bytes(), r),
    {
        Hex::from_text(value)
    }
}

impl<'a> TryFromSpecImpl<&'a str> for Hex {
    open spec fn obeys_try_from_spec() -> bool {
        false
    }

    open spec fn try_from_spec(v: &'a str) -> Result<Self, Error> {
        Err(Error::OddLength)
    }
}

impl TryFrom<String> for Hex {
    type Error = Error;

    /// The bytes that the hexadecimal text `value` stands for. A text of
    /// odd length is refused before its digits are looked at.
    fn try_from(value: String) -> (r: HexResult<Self>)
        ensures
            vstd::utf8::encode_utf8(value@).len() % 2 != 0 ==> r == Err::<Hex, Error>(
                Error::OddLength,
            ),
            vstd::utf8::encode_utf8(value@).len() % 2 == 0 ==> decodes_to(
                vstd::utf8::encode_utf8(value@),
                r,
            ),
    {
        Hex::from_text(value.as_str())
    }
}

impl TryFromSpecImpl<String> for Hex {
    open spec fn obeys_try_from_spec() -> bool {
        false
    }

    open spec fn try_from_spec(v: String) -> Result<Self, Error> {
        Err(Error::OddLength)
    }
}

impl core::ops::BitXor for Hex {
    type Output = Hex;

    /// The byte-wise XOR with `rhs`, as long as the shorter of the two.
    fn bitxor(self, rhs: Self) -> (out: Hex)
        ensures
            out.0@ == xor_bytes(self.0@, rhs.0@),
    {
        self.xor(&rhs)
    }
}

impl BitXorSpecImpl for Hex {
    open spec fn obeys_bitxor_spec() -> bool {
        false
    }

    open spec fn bitxor_req(self, rhs: Self) -> bool {
        true
    }

    open spec fn bitxor_spec(self, rhs: Self) -> Hex {
        self
    }
}

/// A text of digits alone has no bad digit.
proof fn lemma_no_bad_digit(text: Seq<u8>, from: int)
    requires
        0 <= from <= text.len(),
        forall|k: int| from <= k < text.len() ==> is_hex_digit(text[k]),
    ensures
        first_bad_digit(text, from) == text.len(),
    decreases text.len() - from,
{
    if from < text.len() {
        lemma_no_bad_digit(text, from + 1);
    }
}

proof fn lemma_byte_of_nibbles(b: u8)
    by (bit_vector)
    ensures
        16 * (b >> 4) + (b & 15) == b,
{
}

/// Decoding undoes encoding: the text of any bytes decodes to those bytes.
pub proof fn lemma_decode_encoded(bytes: Seq<u8>)
    ensures
        decode_spec(encoded_codes(bytes)) == Ok::<Seq<u8>, Error>(bytes),
{
    let text = encoded_codes(bytes);
    assert forall|k: int| 0 <= k < text.len() implies is_hex_digit(text[k]) by {
        lemma_encoded_codes_are_digits(bytes, k);
    }
    lemma_no_bad_digit(text, 0);
    assert forall|i: int| 0 <= i < bytes.len() implies decoded_bytes(text)[i] == bytes[i] by {
        lemma_nibbles(bytes[i], 0, 0);
        lemma_byte_of_nibbles(bytes[i]);
        assert(text[2 * i] == hex_digit_code(bytes[(2 * i) / 2] >> 4));
        assert(text[2 * i + 1] == hex_digit_code(bytes[(2 * i + 1) / 2] & 15));
    }
    assert(decoded_bytes(text) =~= bytes);
}

} // verus!
