//! Base64 with the standard alphabet and `=` padding.
use vstd::prelude::*;
use vstd::string::{StrSliceExecFns, StringExecFns};

verus! {

/// A character that is no part of base64 text.
#[derive(Debug, Clone, Copy, PartialEq, Eq)]
pub struct InvalidBase64Char(pub char);

/// The code of the base64 digit with value `n`, for `n` below 64.
pub open spec fn base64_digit_code(n: int) -> u8 {
    if n < 26 {
        (n + 65) as u8
    } else if n < 52 {
        (n + 71) as u8
    } else if n < 62 {
        (n - 4) as u8
    } else if n == 62 {
        43u8
    } else {
        47u8
    }
}

/// `c` is the code of a character of base64 text: a digit or the padding
/// character.
pub open spec fn is_base64_char(c: u8) -> bool {
    ||| 65 <= c <= 90
    ||| 97 <= c <= 122
    ||| 48 <= c <= 57
    ||| c == 43
    ||| c == 47
    ||| c == 61
}

/// The value of the character with code `c`. The padding character counts
/// as zero.
pub open spec fn base64_char_value_spec(c: u8) -> int {
    if 65 <= c <= 90 {
        c - 65
    } else if 97 <= c <= 122 {
        c - 71
    } else if 48 <= c <= 57 {
        c + 4
    } else if c == 43 {
        62
    } else if c == 47 {
        63
    } else {
        0
    }
}

/// The number of characters that `data_len` bytes encode to, as it is
/// reserved: four for each whole group of three bytes, and up to three more.
pub open spec fn base64_len_padding_spec(data_len: int) -> int {
    (data_len / 3) * 4 + (3 - data_len % 3)
}

/// The byte with index `i` of `data`, and zero behind its end.
pub open spec fn byte_or_zero(data: Seq<u8>, i: int) -> int {
    if 0 <= i < data.len() {
        data[i] as int
    } else {
        0
    }
}

/// The code of the character with index `i` of the base64 text of `data`.
/// Each group of three bytes gives four digits of six bits. A last group of
/// one or two bytes is filled with zero bits, and gives two or three digits
/// and the padding character in the places that are left.
pub open spec fn encoded_code(data: Seq<u8>, i: int) -> u8 {
    let g = 3 * (i / 4);
    let a = byte_or_zero(data, g);
    let b = byte_or_zero(data, g + 1);
    let c = byte_or_zero(data, g + 2);
    if i % 4 == 0 {
        base64_digit_code(a / 4)
    } else if i % 4 == 1 {
        base64_digit_code((a % 4) * 16 + b / 16)
    } else if i % 4 == 2 {
        if g + 1 < data.len() {
            base64_digit_code((b % 16) * 4 + c / 64)
        } else {
            61u8
        }
    } else {
        if g + 2 < data.len() {
            base64_digit_code(c % 64)
        } else {
            61u8
        }
    }
}

/// The codes of the characters of the base64 text of `data`.
pub open spec fn encoded_codes(data: Seq<u8>) -> Seq<u8> {
    Seq::new(4 * ((data.len() + 2) / 3), |i: int| encoded_code(data, i))
}

/// The base64 text of `data`.
pub open spec fn encoded_text(data: Seq<u8>) -> Seq<char> {
    Seq::new(4 * ((data.len() + 2) / 3), |i: int| encoded_code(data, i) as char)
}

/// The bytes that one group of four characters stands for: three, or two
/// where the last character is the padding character, or one where the
/// third is.
pub open spec fn decoded_group(c0: u8, c1: u8, c2: u8, c3: u8) -> Seq<u8> {
    let v0 = base64_char_value_spec(c0);
    let v1 = base64_char_value_spec(c1);
    let v2 = base64_char_value_spec(c2);
    let v3 = base64_char_value_spec(c3);
    let first = (v0 * 4 + v1 / 16) as u8;
    let second = ((v1 % 16) * 16 + v2 / 4) as u8;
    let third = ((v2 % 4) * 64 + v3) as u8;
    if c2 == 61 {
        seq![first]
    } else if c3 == 61 {
        seq![first, second]
    } else {
        seq![first, second, third]
    }
}

/// The bytes that the first `groups` groups of four characters of `text`
/// stand for.
pub open spec fn decoded_groups(text: Seq<u8>, groups: nat) -> Seq<u8>
    decreases groups,
{
    if groups == 0 {
        Seq::empty()
    } else {
        let g = 4 * (groups - 1);
        decoded_groups(text, (groups - 1) as nat) + decoded_group(
            text[g],
            text[g + 1],
            text[g + 2],
            text[g + 3],
        )
    }
}

/// The position of the first character from `from` on, and before `end`,
/// that is no character of base64 text, and `end` where there is none.
pub open spec fn first_bad_char(text: Seq<u8>, from: int, end: int) -> int
    decreases end - from,
{
    if from < 0 || from >= end {
        end
    } else if !is_base64_char(text[from]) {
        from
    } else {
        first_bad_char(text, from + 1, end)
    }
}

/// What decoding makes of `text`: its whole groups of four characters are
/// decoded, and what is left over at the end is not looked at. The first
/// character of a whole group that is no character of base64 text is the
/// error.
pub open spec fn decode_spec(text: Seq<u8>) -> Result<Seq<u8>, InvalidBase64Char> {
    let groups = text.len() / 4;
    let bad = first_bad_char(text, 0, 4 * groups as int);
    if bad < 4 * groups {
        Err(InvalidBase64Char(text[bad] as char))
    } else {
        Ok(decoded_groups(text, groups))
    }
}

proof fn lemma_sextets(lo: u8, mid: u8, hi: u8)
    by (bit_vector)
    ensures
        (lo >> 2) & 63 == lo / 4,
        (((lo << 4) + (mid >> 4)) as u8) & 63 == (lo % 4) * 16 + mid / 16,
        (lo << 4) + (mid >> 4) <= 255,
        (((mid << 2) + (hi >> 6)) as u8) & 63 == (mid % 16) * 4 + hi / 64,
        (mid << 2) + (hi >> 6) <= 255,
        hi & 63 == hi % 64,
        (lo << 4) & 63 == (lo % 4) * 16,
        (mid << 2) & 63 == (mid % 16) * 4,
{
}

proof fn lemma_octets(b0: u8, b1: u8, b2: u8, b3: u8)
    by (bit_vector)
    requires
        b0 <= 63,
        b1 <= 63,
        b2 <= 63,
        b3 <= 63,
    ensures
        (b0 << 2) + (b1 >> 4) == b0 * 4 + b1 / 16,
        (b1 << 4) + (b2 >> 2) == (b1 % 16) * 16 + b2 / 4,
        (b2 << 6) + b3 == (b2 % 4) * 64 + b3,
        (b0 << 2) + (b1 >> 4) <= 255,
        (b1 << 4) + (b2 >> 2) <= 255,
        (b2 << 6) + b3 <= 255,
{
}

/// Where the first bad character lies, and that all before it are good.
proof fn lemma_first_bad_char(text: Seq<u8>, from: int, end: int)
    requires
        0 <= from <= end <= text.len(),
    ensures
        from <= first_bad_char(text, from, end) <= end,
        first_bad_char(text, from, end) < end ==> !is_base64_char(
            text[first_bad_char(text, from, end)],
        ),
    decreases end - from,
{
    if from < end && is_base64_char(text[from]) {
        lemma_first_bad_char(text, from + 1, end);
    }
}

/// The first bad character from `from` on is the first one overall, when
/// all characters before `from` are good.
proof fn lemma_first_bad_char_from(text: Seq<u8>, from: int, end: int)
    requires
        0 <= from <= end <= text.len(),
        forall|k: int| 0 <= k < from ==> is_base64_char(text[k]),
    ensures
        first_bad_char(text, 0, end) == first_bad_char(text, from, end),
    decreases from,
{
    if from > 0 {
        lemma_first_bad_char_from(text, from - 1, end);
    }
}

/// The base64 digit with value `n`, as a string of one character.
fn digit_str(n: u8) -> (digit: &'static str)
    requires
        n < 64,
    ensures
        digit@ == seq![base64_digit_code(n as int) as char],
{
    let digits = "ABCDEFGHIJKLMNOPQRSTUVWXYZabcdefghijklmnopqrstuvwxyz0123456789+/";
    proof {
        reveal_strlit("ABCDEFGHIJKLMNOPQRSTUVWXYZabcdefghijklmnopqrstuvwxyz0123456789+/");
    }
    let digit = digits.substring_ascii(n as usize, n as usize + 1);
    assert(digit@ =~= seq![base64_digit_code(n as int) as char]);
    digit
}

fn base64_char_value(v: u8) -> (r: Result<u8, InvalidBase64Char>)
    ensures
        is_base64_char(v) ==> r == Ok::<u8, InvalidBase64Char>(base64_char_value_spec(v) as u8),
        !is_base64_char(v) ==> r == Err::<u8, InvalidBase64Char>(InvalidBase64Char(v as char)),
        r matches Ok(value) ==> value <= 63,
{
    if 65 <= v && v <= 90 {
        Ok(v - 65)
    } else if 97 <= v && v <= 122 {
        Ok(v - 97 + 26)
    } else if 48 <= v && v <= 57 {
        Ok(v - 48 + 52)
    } else if v == 43 {
        Ok(62)
    } else if v == 47 {
        Ok(63)
    } else if v == 61 {
        Ok(0)
    } else {
        Err(InvalidBase64Char(v as char))
    }
}

/// The number of characters to reserve for the text of `data_len` bytes.
pub fn calculate_base64_len_padding(data_len: usize) -> (len: usize)
    requires
        data_len <= usize::MAX / 2,
    ensures
        len == base64_len_padding_spec(data_len as int),
{
    let (q, r) = (data_len / 3, data_len % 3);
    (q * 4) + (3 - r)
}

/// Encodes `value` as base64 text.
pub fn encode(value: &[u8]) -> (text: String)
    ensures
        text@ == encoded_text(value@),
{
    let data = value;
    let whole = data.len() / 3;
    let rem = data.len() % 3;

    let mut res = String::new();

    for k in 0..whole
        invariant
            whole == data@.len() / 3,
            data@.len() <= usize::MAX,
            res@ == Seq::new((4 * k) as nat, |i: int| encoded_code(data@, i) as char),
    {
        let lo = data[3 * k];
        let mid = data[3 * k + 1];
        let hi = data[3 * k + 2];
        proof {
            lemma_sextets(lo, mid, hi);
        }

        // 1st
        res.append(digit_str((lo >> 2) & 63));
        // 2nd
        res.append(digit_str(((lo << 4) + (mid >> 4)) & 63));
        // 3rd
        res.append(digit_str(((mid << 2) + (hi >> 6)) & 63));
        // 4th
        res.append(digit_str(hi & 63));
        assert(res@ =~= Seq::new((4 * (k + 1)) as nat, |i: int| encoded_code(data@, i) as char));
    }

    proof {
        reveal_strlit("=");
    }
    if rem == 2 {
        let lo = data[3 * whole];
        let mid = data[3 * whole + 1];
        proof {
            lemma_sextets(lo, mid, 0);
        }

        // 1st
        res.append(digit_str((lo >> 2) & 63));
        // 2nd
        res.append(digit_str(((lo << 4) + (mid >> 4)) & 63));
        // 3rd
        res.append(digit_str((mid << 2) & 63));
        // 4th
        res.append("=");
    } else if rem == 1 {
        let lo = data[3 * whole];
        proof {
            lemma_sextets(lo, 0, 0);
        }

        // 1st
        res.append(digit_str((lo >> 2) & 63));
        // 2nd
        res.append(digit_str((lo << 4) & 63));
        // 3rd
        res.append("=");
        // 4th
        res.append("=");
    }
    assert(res@ =~= encoded_text(value@));

    res
}

/// Decodes base64 text. Only whole groups of four characters are decoded.
pub fn decode(value: &[u8]) -> (r: Result<Vec<u8>, InvalidBase64Char>)
    ensures
        match r {
            Ok(bytes) => decode_spec(value@) == Ok::<Seq<u8>, InvalidBase64Char>(bytes@),
            Err(e) => decode_spec(value@) == Err::<Seq<u8>, InvalidBase64Char>(e),
        },
{
    let data = value;
    let groups = data.len() / 4;
    let mut res: Vec<u8> = Vec::with_capacity(groups * 3);
    for k in 0..groups
        invariant
            groups == data@.len() / 4,
            data@.len() <= usize::MAX,
            data@ == value@,
            res@ == decoded_groups(data@, k as nat),
            forall|j: int| 0 <= j < 4 * k ==> is_base64_char(data@[j]),
    {
        let ghost end = 4 * groups as int;
        proof {
            lemma_first_bad_char_from(data@, 4 * k, end);
            lemma_first_bad_char(data@, 4 * k, end);
        }
        let b0 = base64_char_value(data[4 * k])?;
        proof {
            lemma_first_bad_char_from(data@, 4 * k + 1, end);
            lemma_first_bad_char(data@, 4 * k + 1, end);
        }
        let b1 = base64_char_value(data[4 * k + 1])?;
        proof {
            lemma_first_bad_char_from(data@, 4 * k + 2, end);
            lemma_first_bad_char(data@, 4 * k + 2, end);
        }
        let b2 = base64_char_value(data[4 * k + 2])?;
        proof {
            lemma_first_bad_char_from(data@, 4 * k + 3, end);
            lemma_first_bad_char(data@, 4 * k + 3, end);
        }
        let b3 = base64_char_value(data[4 * k + 3])?;
        proof {
            lemma_octets(b0, b1, b2, b3);
        }

        let ghost before = res@;
        res.push((b0 << 2) + (b1 >> 4));
        if data[4 * k + 2] != 61 {
            res.push((b1 << 4) + (b2 >> 2));
            if data[4 * k + 3] != 61 {
                res.push((b2 << 6) + b3);
            }
        }
        assert(res@ =~= before + decoded_group(
            data@[4 * k],
            data@[4 * k + 1],
            data@[4 * k + 2],
            data@[4 * k + 3],
        ));
    }
    proof {
        lemma_first_bad_char_from(data@, 4 * groups, 4 * groups);
    }

    Ok(res)
}

/// A text of base64 characters alone has no bad character.
proof fn lemma_no_bad_char(text: Seq<u8>, from: int, end: int)
    requires
        0 <= from <= end <= text.len(),
        forall|k: int| from <= k < end ==> is_base64_char(text[k]),
    ensures
        first_bad_char(text, from, end) == end,
    decreases end - from,
{
    if from < end {
        lemma_no_bad_char(text, from + 1, end);
    }
}

/// A digit is a character of base64 text, is not the padding character, and
/// has the value it was made from.
proof fn lemma_digit_value(n: int)
    requires
        0 <= n < 64,
    ensures
        is_base64_char(base64_digit_code(n)),
        base64_digit_code(n) != 61,
        base64_char_value_spec(base64_digit_code(n)) == n,
{
}

/// Three bytes are found again in the four digits of six bits that they
/// were cut into.
proof fn lemma_sextets_to_octets(a: int, b: int, c: int)
    requires
        0 <= a < 256,
        0 <= b < 256,
        0 <= c < 256,
    ensures
        0 <= a / 4 < 64,
        0 <= (a % 4) * 16 + b / 16 < 64,
        0 <= (b % 16) * 4 + c / 64 < 64,
        0 <= c % 64 < 64,
        (a / 4) * 4 + ((a % 4) * 16 + b / 16) / 16 == a,
        (((a % 4) * 16 + b / 16) % 16) * 16 + ((b % 16) * 4 + c / 64) / 4 == b,
        (((b % 16) * 4 + c / 64) % 4) * 64 + c % 64 == c,
{
}

/// Group `k` of the text of `data` decodes to the bytes it was made from:
/// three of them, or the one or two that are left at the end.
proof fn lemma_decode_encoded_group(data: Seq<u8>, k: int)
    requires
        0 <= k < (data.len() + 2) / 3,
    ensures
        decoded_group(
            encoded_code(data, 4 * k),
            encoded_code(data, 4 * k + 1),
            encoded_code(data, 4 * k + 2),
            encoded_code(data, 4 * k + 3),
        ) == data.subrange(
            3 * k,
            if 3 * k + 3 <= data.len() {
                3 * k + 3
            } else {
                data.len() as int
            },
        ),
{
    let g = 3 * k;
    let a = byte_or_zero(data, g);
    let b = byte_or_zero(data, g + 1);
    let c = byte_or_zero(data, g + 2);
    let c0 = encoded_code(data, 4 * k);
    let c1 = encoded_code(data, 4 * k + 1);
    let c2 = encoded_code(data, 4 * k + 2);
    let c3 = encoded_code(data, 4 * k + 3);
    lemma_sextets_to_octets(a, b, c);
    lemma_digit_value(a / 4);
    lemma_digit_value((a % 4) * 16 + b / 16);
    lemma_digit_value((b % 16) * 4 + c / 64);
    lemma_digit_value(c % 64);
    assert(c0 == base64_digit_code(a / 4));
    assert(c1 == base64_digit_code((a % 4) * 16 + b / 16));
    let group = decoded_group(c0, c1, c2, c3);
    if g + 2 < data.len() {
        assert(c2 == base64_digit_code((b % 16) * 4 + c / 64));
        assert(c3 == base64_digit_code(c % 64));
        assert(group =~= data.subrange(g, g + 3));
    } else if g + 1 < data.len() {
        assert(c2 == base64_digit_code((b % 16) * 4 + c / 64));
        assert(c3 == 61);
        assert(group =~= data.subrange(g, g + 2));
    } else {
        assert(c2 == 61);
        assert(group =~= data.subrange(g, g + 1));
    }
}

/// The first `groups` groups of the text of `data` decode to the bytes they
/// were made from.
proof fn lemma_decode_encoded_groups(data: Seq<u8>, groups: nat)
    requires
        groups <= (data.len() + 2) / 3,
    ensures
        decoded_groups(encoded_codes(data), groups) == data.subrange(
            0,
            if 3 * groups <= data.len() {
                3 * groups as int
            } else {
                data.len() as int
            },
        ),
    decreases groups,
{
    let text = encoded_codes(data);
    if groups == 0 {
        assert(decoded_groups(text, groups) =~= data.subrange(0, 0));
    } else {
        let k = groups - 1;
        lemma_decode_encoded_groups(data, k as nat);
        lemma_decode_encoded_group(data, k);
        let before = data.subrange(0, 3 * k);
        let end = if 3 * k + 3 <= data.len() {
            3 * k + 3
        } else {
            data.len() as int
        };
        assert(before + data.subrange(3 * k, end) =~= data.subrange(0, end));
    }
}

/// Decoding undoes encoding: the text of any bytes decodes to those bytes.
pub proof fn lemma_decode_encoded(data: Seq<u8>)
    ensures
        decode_spec(encoded_codes(data)) == Ok::<Seq<u8>, InvalidBase64Char>(data),
{
    let text = encoded_codes(data);
    let groups = (data.len() + 2) / 3;
    assert(text.len() / 4 == groups);
    assert forall|k: int| 0 <= k < text.len() implies is_base64_char(text[k]) by {
        let g = 3 * (k / 4);
        let a = byte_or_zero(data, g);
        let b = byte_or_zero(data, g + 1);
        let c = byte_or_zero(data, g + 2);
        lemma_sextets_to_octets(a, b, c);
        lemma_digit_value(a / 4);
        lemma_digit_value((a % 4) * 16 + b / 16);
        lemma_digit_value((b % 16) * 4 + c / 64);
        lemma_digit_value(c % 64);
    }
    lemma_no_bad_char(text, 0, 4 * groups as int);
    lemma_decode_encoded_groups(data, groups);
    assert(data.subrange(0, data.len() as int) =~= data);
}

} // verus!
