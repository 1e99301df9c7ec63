//! The AES round transform, the key schedule, and the block cipher that
//! binds the two for each key size.
use vstd::prelude::*;
use crate::aes::tables::{
    gf_mul, inv_mix_byte, inv_sbox, inv_sub_byte, lemma_mix_bytes_cancel, lemma_sbox_round_trip,
    mix_byte, mul_11, mul_13, mul_14, mul_2, mul_3, mul_9, rcon, round_constant, sbox, sub_byte,
};
use crate::aes::utils::word4;

verus! {

/// A cipher on blocks of `B` bytes. A key is expanded once into a schedule,
/// and each block is then transformed under that schedule.
pub trait BlockCipher<const B: usize> {
    /// The keys that the cipher accepts.
    spec fn valid_key(key: Seq<u8>) -> bool;

    /// The schedules that the block transforms accept.
    spec fn valid_schedule(schedule: Seq<u8>) -> bool;

    /// The schedule that a key expands to.
    spec fn schedule_spec(key: Seq<u8>) -> Seq<u8>;

    /// The encryption of one block under a schedule.
    spec fn encrypt_block_spec(block: Seq<u8>, schedule: Seq<u8>) -> Seq<u8>;

    /// The decryption of one block under a schedule.
    spec fn decrypt_block_spec(block: Seq<u8>, schedule: Seq<u8>) -> Seq<u8>;

    /// An accepted key expands to an accepted schedule.
    proof fn lemma_schedule_valid(key: Seq<u8>)
        requires
            Self::valid_key(key),
        ensures
            Self::valid_schedule(Self::schedule_spec(key)),
    ;

    /// Under one schedule, encryption and decryption map blocks to blocks
    /// and undo each other.
    proof fn lemma_block_round_trip(block: Seq<u8>, schedule: Seq<u8>)
        requires
            Self::valid_schedule(schedule),
            block.len() == B,
        ensures
            Self::encrypt_block_spec(block, schedule).len() == B,
            Self::decrypt_block_spec(block, schedule).len() == B,
            Self::decrypt_block_spec(Self::encrypt_block_spec(block, schedule), schedule) == block,
            Self::encrypt_block_spec(Self::decrypt_block_spec(block, schedule), schedule) == block,
    ;

    /// Tells whether the cipher accepts `key`.
    fn accepts_key(key: &[u8]) -> (ok: bool)
        ensures
            ok == Self::valid_key(key@),
    ;

    /// Expands `key` into its schedule.
    fn expand_key(key: &[u8]) -> (schedule: Vec<u8>)
        requires
            Self::valid_key(key@),
        ensures
            schedule@ == Self::schedule_spec(key@),
    ;

    /// Encrypts one block under an expanded schedule.
    fn encrypt_block(block: [u8; B], schedule: &[u8]) -> (out: [u8; B])
        requires
            Self::valid_schedule(schedule@),
        ensures
            out@ == Self::encrypt_block_spec(block@, schedule@),
    ;

    /// Decrypts one block under an expanded schedule.
    fn decrypt_block(block: [u8; B], schedule: &[u8]) -> (out: [u8; B])
        requires
            Self::valid_schedule(schedule@),
        ensures
            out@ == Self::decrypt_block_spec(block@, schedule@),
    ;

    /// Encrypts one block under `key`, expanding the key for this call.
    fn cipher(block: [u8; B], key: &[u8]) -> (out: [u8; B])
        requires
            Self::valid_key(key@),
        ensures
            out@ == Self::encrypt_block_spec(block@, Self::schedule_spec(key@)),
    ;

    /// Decrypts one block under `key`, expanding the key for this call.
    fn inv_cipher(block: [u8; B], key: &[u8]) -> (out: [u8; B])
        requires
            Self::valid_key(key@),
        ensures
            out@ == Self::decrypt_block_spec(block@, Self::schedule_spec(key@)),
    ;
}

/// Byte substitution: each byte is replaced by its image under the
/// substitution box.
#[verifier::opaque]
pub open spec fn sub_bytes_spec(s: Seq<u8>) -> Seq<u8> {
    Seq::new(s.len(), |i: int| sbox(s[i]))
}

/// The inverse of [`sub_bytes_spec`].
#[verifier::opaque]
pub open spec fn inv_sub_bytes_spec(s: Seq<u8>) -> Seq<u8> {
    Seq::new(s.len(), |i: int| inv_sbox(s[i]))
}

/// Where the byte at index `i` comes from when the rows are shifted: the
/// block is a 4x4 matrix in column-major order, and row `r` moves `r`
/// columns to the left.
pub open spec fn shift_source(i: int) -> int {
    i % 4 + 4 * ((i / 4 + i % 4) % 4)
}

/// Where the byte at index `i` comes from when the shift is undone: row `r`
/// moves `r` columns to the right.
pub open spec fn inv_shift_source(i: int) -> int {
    i % 4 + 4 * ((i / 4 + 4 - i % 4) % 4)
}

/// Row shifting of a block.
#[verifier::opaque]
pub open spec fn shift_rows_spec(s: Seq<u8>) -> Seq<u8> {
    Seq::new(16, |i: int| s[shift_source(i)])
}

/// The inverse of [`shift_rows_spec`].
#[verifier::opaque]
pub open spec fn inv_shift_rows_spec(s: Seq<u8>) -> Seq<u8> {
    Seq::new(16, |i: int| s[inv_shift_source(i)])
}

/// Column mixing: each column is multiplied by the circulant matrix with
/// first row (2 3 1 1) over GF(2^8).
#[verifier::opaque]
pub open spec fn mix_columns_spec(s: Seq<u8>) -> Seq<u8> {
    Seq::new(
        16,
        |i: int|
            {
                let c = 4 * (i / 4);
                let r = i % 4;
                mix_byte(s[c + r], s[c + (r + 1) % 4], s[c + (r + 2) % 4], s[c + (r + 3) % 4])
            },
    )
}

/// The inverse of [`mix_columns_spec`]: the circulant matrix with first row
/// (14 11 13 9).
#[verifier::opaque]
pub open spec fn inv_mix_columns_spec(s: Seq<u8>) -> Seq<u8> {
    Seq::new(
        16,
        |i: int|
            {
                let c = 4 * (i / 4);
                let r = i % 4;
                inv_mix_byte(s[c + r], s[c + (r + 1) % 4], s[c + (r + 2) % 4], s[c + (r + 3) % 4])
            },
    )
}

/// Round-key addition: the byte-wise XOR of a block and a round key.
#[verifier::opaque]
pub open spec fn add_round_key_spec(s: Seq<u8>, round_key: Seq<u8>) -> Seq<u8> {
    Seq::new(16, |i: int| s[i] ^ round_key[i])
}

/// The round key with index `r` of a schedule.
pub open spec fn round_key(schedule: Seq<u8>, r: int) -> Seq<u8> {
    schedule.subrange(16 * r, 16 * r + 16)
}

/// The state after round `r` of an encryption, for `r` below the number of
/// rounds: round 0 adds the first round key, and every later round
/// substitutes, shifts, mixes and adds its round key.
pub open spec fn cipher_rounds(block: Seq<u8>, schedule: Seq<u8>, r: nat) -> Seq<u8>
    decreases r,
{
    if r == 0 {
        add_round_key_spec(block, round_key(schedule, 0))
    } else {
        add_round_key_spec(
            mix_columns_spec(
                shift_rows_spec(sub_bytes_spec(cipher_rounds(block, schedule, (r - 1) as nat))),
            ),
            round_key(schedule, r as int),
        )
    }
}

/// The encryption of a block in `rounds` rounds: the last round leaves the
/// column mix out.
pub open spec fn block_cipher_spec(block: Seq<u8>, schedule: Seq<u8>, rounds: nat) -> Seq<u8> {
    add_round_key_spec(
        shift_rows_spec(sub_bytes_spec(cipher_rounds(block, schedule, (rounds - 1) as nat))),
        round_key(schedule, rounds as int),
    )
}

/// The state of a decryption after `n` of its inner rounds: it starts by
/// adding the last round key, and inner round `n` undoes round `rounds - n`
/// of the encryption.
pub open spec fn inv_cipher_rounds(block: Seq<u8>, schedule: Seq<u8>, rounds: nat, n: nat) -> Seq<
    u8,
>
    decreases n,
{
    if n == 0 {
        add_round_key_spec(block, round_key(schedule, rounds as int))
    } else {
        inv_mix_columns_spec(
            add_round_key_spec(
                inv_sub_bytes_spec(
                    inv_shift_rows_spec(
                        inv_cipher_rounds(block, schedule, rounds, (n - 1) as nat),
                    ),
                ),
                round_key(schedule, rounds - n),
            ),
        )
    }
}

/// The decryption of a block in `rounds` rounds.
pub open spec fn block_inv_cipher_spec(block: Seq<u8>, schedule: Seq<u8>, rounds: nat) -> Seq<u8> {
    add_round_key_spec(
        inv_sub_bytes_spec(
            inv_shift_rows_spec(
                inv_cipher_rounds(block, schedule, rounds, (rounds - 1) as nat),
            ),
        ),
        round_key(schedule, 0),
    )
}

/// A word of the schedule turned by one byte to the left.
pub open spec fn rot_word_spec(w: Seq<u8>) -> Seq<u8> {
    seq![w[1], w[2], w[3], w[0]]
}

/// A word of the schedule with each byte substituted.
pub open spec fn sub_word_spec(w: Seq<u8>) -> Seq<u8> {
    seq![sbox(w[0]), sbox(w[1]), sbox(w[2]), sbox(w[3])]
}

/// What word `i` of a schedule takes from the word before it, `prev`, for a
/// key of `nk` words: where `i` is a multiple of `nk` the word is turned,
/// substituted and given the round constant with index `i / nk - 1`; where
/// `nk` is over 6 and `i` is 4 past a multiple it is only substituted;
/// elsewhere it is taken as it is.
pub open spec fn schedule_temp(prev: Seq<u8>, nk: int, i: int) -> Seq<u8> {
    if i % nk == 0 {
        let t = sub_word_spec(rot_word_spec(prev));
        seq![t[0] ^ rcon((i / nk - 1) as nat), t[1], t[2], t[3]]
    } else if nk > 6 && i % nk == 4 {
        sub_word_spec(prev)
    } else {
        prev
    }
}

/// Word `i` of the schedule of `key`, where the key has `nk` words. The
/// first `nk` words are the key. A later word is the XOR of the word `nk`
/// places back and what [`schedule_temp`] makes of the word before it.
pub open spec fn schedule_word(key: Seq<u8>, nk: int, i: int) -> Seq<u8>
    decreases i,
{
    if nk <= 0 || i < nk {
        key.subrange(4 * i, 4 * i + 4)
    } else {
        let temp = schedule_temp(schedule_word(key, nk, i - 1), nk, i);
        let back = schedule_word(key, nk, i - nk);
        seq![temp[0] ^ back[0], temp[1] ^ back[1], temp[2] ^ back[2], temp[3] ^ back[3]]
    }
}

/// The first `words` words of `expanded` are those of the schedule of `key`.
pub open spec fn schedule_prefix(expanded: Seq<u8>, key: Seq<u8>, nk: int, words: int) -> bool {
    forall|j: int|
        0 <= j < 4 * words ==> #[trigger] expanded[j] == schedule_word(key, nk, j / 4)[j % 4]
}

/// The schedule of `key` for `nk` key words and `nr` rounds: `nr + 1` round
/// keys of 16 bytes.
pub open spec fn key_expansion_spec(key: Seq<u8>, nk: int, nr: int) -> Seq<u8> {
    Seq::new((16 * (nr + 1)) as nat, |j: int| schedule_word(key, nk, j / 4)[j % 4])
}

/// Every word of a schedule has four bytes.
pub proof fn lemma_schedule_word_len(key: Seq<u8>, nk: int, i: int)
    requires
        nk > 0,
        key.len() == 4 * nk,
        0 <= i,
    ensures
        schedule_word(key, nk, i).len() == 4,
    decreases i,
{
    if i >= nk {
        lemma_schedule_word_len(key, nk, i - 1);
        lemma_schedule_word_len(key, nk, i - nk);
    }
}

/// A word inside a prefix of a schedule, byte by byte.
proof fn lemma_schedule_prefix_word(expanded: Seq<u8>, key: Seq<u8>, nk: int, words: int, i: int)
    requires
        schedule_prefix(expanded, key, nk, words),
        0 <= i < words,
    ensures
        expanded[4 * i + 0] == schedule_word(key, nk, i)[0],
        expanded[4 * i + 1] == schedule_word(key, nk, i)[1],
        expanded[4 * i + 2] == schedule_word(key, nk, i)[2],
        expanded[4 * i + 3] == schedule_word(key, nk, i)[3],
{
    assert((4 * i + 0) / 4 == i && (4 * i + 1) / 4 == i && (4 * i + 2) / 4 == i && (4 * i + 3) / 4
        == i);
}

/// Writing word `i` behind a prefix of `i` words gives a prefix of `i + 1`.
proof fn lemma_schedule_prefix_extend(
    before: Seq<u8>,
    after: Seq<u8>,
    key: Seq<u8>,
    nk: int,
    i: int,
)
    requires
        0 <= i,
        4 * i + 4 <= before.len(),
        schedule_prefix(before, key, nk, i),
        after =~= before.update(4 * i + 0, schedule_word(key, nk, i)[0]).update(
            4 * i + 1,
            schedule_word(key, nk, i)[1],
        ).update(4 * i + 2, schedule_word(key, nk, i)[2]).update(
            4 * i + 3,
            schedule_word(key, nk, i)[3],
        ),
    ensures
        schedule_prefix(after, key, nk, i + 1),
{
    assert forall|j: int| 0 <= j < 4 * (i + 1) implies #[trigger] after[j] == schedule_word(
        key,
        nk,
        j / 4,
    )[j % 4] by {
        if j < 4 * i {
            assert(after[j] == before[j]);
        } else {
            assert(j / 4 == i);
        }
    }
}

proof fn lemma_xor_cancels(a: u8, k: u8)
    by (bit_vector)
    ensures
        (a ^ k) ^ k == a,
{
}

/// A sum of four may start with any of them, the others following in turn.
proof fn lemma_xor_rotations(p: u8, q: u8, r: u8, t: u8)
    by (bit_vector)
    ensures
        q ^ r ^ t ^ p == p ^ q ^ r ^ t,
        r ^ t ^ p ^ q == p ^ q ^ r ^ t,
        t ^ p ^ q ^ r == p ^ q ^ r ^ t,
{
}

proof fn lemma_byte_of_nibbles(b: u8)
    by (bit_vector)
    ensures
        (b & 15) + 16 * (b >> 4) == b,
{
}

/// Adding the same round key twice gives the block back.
pub proof fn lemma_add_round_key_cancels(s: Seq<u8>, k: Seq<u8>)
    requires
        s.len() == 16,
    ensures
        add_round_key_spec(add_round_key_spec(s, k), k) == s,
{
    reveal(add_round_key_spec);
    assert forall|i: int| 0 <= i < 16 implies add_round_key_spec(add_round_key_spec(s, k), k)[i]
        == s[i] by {
        lemma_xor_cancels(s[i], k[i]);
    }
    assert(add_round_key_spec(add_round_key_spec(s, k), k) =~= s);
}

/// Substitution and its inverse undo each other.
pub proof fn lemma_sub_bytes_cancel(s: Seq<u8>)
    ensures
        inv_sub_bytes_spec(sub_bytes_spec(s)) == s,
        sub_bytes_spec(inv_sub_bytes_spec(s)) == s,
{
    reveal(sub_bytes_spec);
    reveal(inv_sub_bytes_spec);
    assert forall|i: int| 0 <= i < s.len() implies inv_sbox(sbox(s[i])) == s[i] && sbox(
        inv_sbox(s[i]),
    ) == s[i] by {
        lemma_sbox_round_trip(s[i]);
    }
    assert(inv_sub_bytes_spec(sub_bytes_spec(s)) =~= s);
    assert(sub_bytes_spec(inv_sub_bytes_spec(s)) =~= s);
}

/// The row shift and its inverse undo each other.
pub proof fn lemma_shift_rows_cancel(s: Seq<u8>)
    requires
        s.len() == 16,
    ensures
        inv_shift_rows_spec(shift_rows_spec(s)) == s,
        shift_rows_spec(inv_shift_rows_spec(s)) == s,
{
    reveal(shift_rows_spec);
    reveal(inv_shift_rows_spec);
    assert forall|i: int| 0 <= i < 16 implies 0 <= shift_source(i) < 16 && 0 <= inv_shift_source(i)
        < 16 && shift_source(inv_shift_source(i)) == i && inv_shift_source(shift_source(i))
        == i by {}
    assert(inv_shift_rows_spec(shift_rows_spec(s)) =~= s);
    assert(shift_rows_spec(inv_shift_rows_spec(s)) =~= s);
}

/// The column mix and its inverse undo each other.
pub proof fn lemma_mix_columns_cancel(s: Seq<u8>)
    requires
        s.len() == 16,
    ensures
        inv_mix_columns_spec(mix_columns_spec(s)) == s,
        mix_columns_spec(inv_mix_columns_spec(s)) == s,
{
    reveal(mix_columns_spec);
    reveal(inv_mix_columns_spec);
    let m = mix_columns_spec(s);
    let u = inv_mix_columns_spec(s);
    assert forall|i: int| 0 <= i < 16 implies inv_mix_columns_spec(m)[i] == s[i]
        && mix_columns_spec(u)[i] == s[i] by {
        let c = 4 * (i / 4);
        let r = i % 4;
        let r1 = (r + 1) % 4;
        let r2 = (r + 2) % 4;
        let r3 = (r + 3) % 4;
        lemma_mix_bytes_cancel(s[c + r], s[c + r1], s[c + r2], s[c + r3]);
        assert(4 * ((c + r1) / 4) == c && (c + r1) % 4 == r1);
        assert(4 * ((c + r2) / 4) == c && (c + r2) % 4 == r2);
        assert(4 * ((c + r3) / 4) == c && (c + r3) % 4 == r3);
        assert((r1 + 1) % 4 == r2 && (r1 + 2) % 4 == r3 && (r1 + 3) % 4 == r);
        assert((r2 + 1) % 4 == r3 && (r2 + 2) % 4 == r && (r2 + 3) % 4 == r1);
        assert((r3 + 1) % 4 == r && (r3 + 2) % 4 == r1 && (r3 + 3) % 4 == r2);
        assert(m[c + r] == mix_byte(s[c + r], s[c + r1], s[c + r2], s[c + r3]));
        assert(m[c + r1] == mix_byte(s[c + r1], s[c + r2], s[c + r3], s[c + r]));
        assert(m[c + r2] == mix_byte(s[c + r2], s[c + r3], s[c + r], s[c + r1]));
        assert(m[c + r3] == mix_byte(s[c + r3], s[c + r], s[c + r1], s[c + r2]));
        assert(u[c + r] == inv_mix_byte(s[c + r], s[c + r1], s[c + r2], s[c + r3]));
        assert(u[c + r1] == inv_mix_byte(s[c + r1], s[c + r2], s[c + r3], s[c + r]));
        assert(u[c + r2] == inv_mix_byte(s[c + r2], s[c + r3], s[c + r], s[c + r1]));
        assert(u[c + r3] == inv_mix_byte(s[c + r3], s[c + r], s[c + r1], s[c + r2]));
    }
    assert(inv_mix_columns_spec(m) =~= s);
    assert(mix_columns_spec(u) =~= s);
}

/// Substitution keeps the length, and the other steps of a round give a
/// block.
pub proof fn lemma_step_lengths(s: Seq<u8>, k: Seq<u8>)
    ensures
        sub_bytes_spec(s).len() == s.len(),
        inv_sub_bytes_spec(s).len() == s.len(),
        shift_rows_spec(s).len() == 16,
        inv_shift_rows_spec(s).len() == 16,
        mix_columns_spec(s).len() == 16,
        inv_mix_columns_spec(s).len() == 16,
        add_round_key_spec(s, k).len() == 16,
{
    reveal(sub_bytes_spec);
    reveal(inv_sub_bytes_spec);
    reveal(shift_rows_spec);
    reveal(inv_shift_rows_spec);
    reveal(mix_columns_spec);
    reveal(inv_mix_columns_spec);
    reveal(add_round_key_spec);
}

/// Every state of an encryption and of a decryption is a block.
pub proof fn lemma_round_lengths(block: Seq<u8>, schedule: Seq<u8>, rounds: nat, n: nat)
    ensures
        cipher_rounds(block, schedule, n).len() == 16,
        inv_cipher_rounds(block, schedule, rounds, n).len() == 16,
        block_cipher_spec(block, schedule, rounds).len() == 16,
        block_inv_cipher_spec(block, schedule, rounds).len() == 16,
{
    reveal(mix_columns_spec);
    reveal(inv_mix_columns_spec);
    reveal(add_round_key_spec);
}

/// After `n` inner rounds, the decryption of an encrypted block stands where
/// the encryption stood before the key addition of round `rounds - n`.
proof fn lemma_decrypt_retraces(block: Seq<u8>, schedule: Seq<u8>, rounds: nat, n: nat)
    requires
        block.len() == 16,
        n < rounds,
    ensures
        inv_cipher_rounds(block_cipher_spec(block, schedule, rounds), schedule, rounds, n)
            == shift_rows_spec(
            sub_bytes_spec(cipher_rounds(block, schedule, (rounds - 1 - n) as nat)),
        ),
    decreases n,
{
    let ct = block_cipher_spec(block, schedule, rounds);
    if n == 0 {
        let last = cipher_rounds(block, schedule, (rounds - 1) as nat);
        let k = round_key(schedule, rounds as int);
        lemma_step_lengths(sub_bytes_spec(last), k);
        lemma_add_round_key_cancels(shift_rows_spec(sub_bytes_spec(last)), k);
    } else {
        lemma_decrypt_retraces(block, schedule, rounds, (n - 1) as nat);
        let r = (rounds - n) as nat;
        let k = round_key(schedule, r as int);
        let before = cipher_rounds(block, schedule, (r - 1) as nat);
        let shifted = shift_rows_spec(sub_bytes_spec(before));
        let mixed = mix_columns_spec(shifted);
        let after = cipher_rounds(block, schedule, r);
        assert(after == add_round_key_spec(mixed, k));
        lemma_round_lengths(block, schedule, rounds, r);
        lemma_step_lengths(sub_bytes_spec(before), k);
        lemma_step_lengths(shifted, k);
        lemma_step_lengths(after, k);
        // the inner round first undoes the shift and the substitution of the round after r
        lemma_shift_rows_cancel(sub_bytes_spec(after));
        lemma_sub_bytes_cancel(after);
        // then the key addition and the mix of round r
        lemma_add_round_key_cancels(mixed, k);
        lemma_mix_columns_cancel(shifted);
    }
}

/// After round `r`, the encryption of a decrypted block stands where the
/// decryption stood before it undid that round.
proof fn lemma_encrypt_retraces(block: Seq<u8>, schedule: Seq<u8>, rounds: nat, r: nat)
    requires
        block.len() == 16,
        r < rounds,
    ensures
        cipher_rounds(block_inv_cipher_spec(block, schedule, rounds), schedule, r)
            == inv_sub_bytes_spec(
            inv_shift_rows_spec(inv_cipher_rounds(block, schedule, rounds, (rounds - 1 - r) as nat)),
        ),
    decreases r,
{
    let pt = block_inv_cipher_spec(block, schedule, rounds);
    if r == 0 {
        let last = inv_cipher_rounds(block, schedule, rounds, (rounds - 1) as nat);
        let k = round_key(schedule, 0);
        lemma_step_lengths(last, k);
        lemma_step_lengths(inv_shift_rows_spec(last), k);
        lemma_add_round_key_cancels(inv_sub_bytes_spec(inv_shift_rows_spec(last)), k);
    } else {
        lemma_encrypt_retraces(block, schedule, rounds, (r - 1) as nat);
        let n = (rounds - r) as nat;
        let k = round_key(schedule, r as int);
        let before = inv_cipher_rounds(block, schedule, rounds, (n - 1) as nat);
        let unsubbed = inv_sub_bytes_spec(inv_shift_rows_spec(before));
        let keyed = add_round_key_spec(unsubbed, k);
        let after = inv_cipher_rounds(block, schedule, rounds, n);
        assert(after == inv_mix_columns_spec(keyed));
        lemma_round_lengths(block, schedule, rounds, n);
        lemma_step_lengths(before, k);
        lemma_step_lengths(inv_shift_rows_spec(before), k);
        lemma_step_lengths(unsubbed, k);
        lemma_step_lengths(after, k);
        // round r first redoes the substitution and the shift
        lemma_sub_bytes_cancel(inv_shift_rows_spec(after));
        lemma_shift_rows_cancel(after);
        // then the mix and the key addition
        lemma_mix_columns_cancel(keyed);
        lemma_add_round_key_cancels(unsubbed, k);
    }
}

/// Under one schedule, decryption undoes encryption and encryption undoes
/// decryption, whatever the number of rounds.
pub proof fn lemma_cipher_round_trip(block: Seq<u8>, schedule: Seq<u8>, rounds: nat)
    requires
        block.len() == 16,
        rounds >= 1,
    ensures
        block_inv_cipher_spec(block_cipher_spec(block, schedule, rounds), schedule, rounds)
            == block,
        block_cipher_spec(block_inv_cipher_spec(block, schedule, rounds), schedule, rounds)
            == block,
{
    lemma_decrypt_retraces(block, schedule, rounds, (rounds - 1) as nat);
    let first = cipher_rounds(block, schedule, 0);
    lemma_round_lengths(block, schedule, rounds, 0);
    lemma_step_lengths(first, block);
    lemma_shift_rows_cancel(sub_bytes_spec(first));
    lemma_sub_bytes_cancel(first);
    lemma_add_round_key_cancels(block, round_key(schedule, 0));

    lemma_encrypt_retraces(block, schedule, rounds, (rounds - 1) as nat);
    let start = inv_cipher_rounds(block, schedule, rounds, 0);
    lemma_step_lengths(start, block);
    lemma_sub_bytes_cancel(inv_shift_rows_spec(start));
    lemma_shift_rows_cancel(start);
    lemma_add_round_key_cancels(block, round_key(schedule, rounds as int));
}

/// The AES cipher for keys of `K` bits, where `K` is 128, 192 or 256.
pub struct AesCipher<const K: usize>;

impl<const K: usize> AesCipher<K> {
    /// Whether `K` is one of the three key sizes of the standard.
    pub open spec fn supported() -> bool {
        K == 128 || K == 192 || K == 256
    }

    /// The number of rounds for the key size: 10, 12 or 14.
    pub open spec fn nr_spec() -> int {
        if K == 128 {
            10
        } else if K == 192 {
            12
        } else {
            14
        }
    }

    /// The number of 4-byte words in a key: 4, 6 or 8.
    pub open spec fn nk_spec() -> int {
        K as int / 32
    }

    /// The number of rounds for the key size.
    pub fn nr() -> (n: usize)
        requires
            Self::supported(),
        ensures
            n == Self::nr_spec(),
    {
        if K == 128 {
            10
        } else if K == 192 {
            12
        } else {
            14
        }
    }

    /// The number of 4-byte words in a key.
    pub fn nk() -> (n: usize)
        ensures
            n == Self::nk_spec(),
    {
        K / 32
    }

    /// Expands a key of `K` bits into the `16 * (rounds + 1)` bytes of its
    /// schedule.
    pub fn key_expansion(key: &[u8]) -> (expanded: Vec<u8>)
        requires
            Self::supported(),
            key@.len() == 4 * Self::nk_spec(),
        ensures
            expanded@ == key_expansion_spec(key@, Self::nk_spec(), Self::nr_spec()),
    {
        let nk = Self::nk();
        let nr = Self::nr();
        let mut expanded: Vec<u8> = vec![0u8; 16 * (nr + 1)];

        // First NK words are equal to key.
        for i in 0..key.len()
            invariant
                Self::supported(),
                nk == Self::nk_spec(),
                nr == Self::nr_spec(),
                key@.len() == 4 * nk,
                expanded@.len() == 16 * (nr + 1),
                forall|j: int| 0 <= j < i ==> expanded@[j] == key@[j],
        {
            expanded.set(i, key[i]);
        }
        assert(schedule_prefix(expanded@, key@, nk as int, nk as int)) by {
            assert forall|j: int| 0 <= j < 4 * nk implies expanded@[j] == schedule_word(
                key@,
                nk as int,
                j / 4,
            )[j % 4] by {
                assert(schedule_word(key@, nk as int, j / 4) == key@.subrange(
                    4 * (j / 4),
                    4 * (j / 4) + 4,
                ));
            }
        }

        // iter over WORDS (4 bytes)
        for i in nk..(4 * (nr + 1))
            invariant
                Self::supported(),
                nk == Self::nk_spec(),
                nr == Self::nr_spec(),
                key@.len() == 4 * nk,
                expanded@.len() == 16 * (nr + 1),
                schedule_prefix(expanded@, key@, nk as int, i as int),
        {
            let ghost prev = schedule_word(key@, nk as int, i - 1);
            let ghost back = schedule_word(key@, nk as int, i - nk);
            proof {
                lemma_schedule_prefix_word(expanded@, key@, nk as int, i as int, i - 1);
                lemma_schedule_prefix_word(expanded@, key@, nk as int, i as int, i - nk);
                Self::lemma_round_constant_index(i as int);
            }
            let mut temp = [
                expanded[(i - 1) * 4 + 0],
                expanded[(i - 1) * 4 + 1],
                expanded[(i - 1) * 4 + 2],
                expanded[(i - 1) * 4 + 3],
            ];
            assert(temp@ =~= prev);
            if i % nk == 0 {
                rot_word(&mut temp);
                sub_word(&mut temp);
                // XOR by Rcon[i/NK] = XOR by [rc[i/NK], 0, 0, 0]
                temp[0] = temp[0] ^ round_constant(i / nk - 1);
            } else if nk > 6 && i % nk == 4 {
                sub_word(&mut temp);
            }
            assert(temp@ =~= schedule_temp(prev, nk as int, i as int));

            // 1 WORD = 4 bytes
            let w0 = temp[0] ^ expanded[(i - nk) * 4 + 0];
            let w1 = temp[1] ^ expanded[(i - nk) * 4 + 1];
            let w2 = temp[2] ^ expanded[(i - nk) * 4 + 2];
            let w3 = temp[3] ^ expanded[(i - nk) * 4 + 3];
            let ghost before = expanded@;
            expanded.set(i * 4 + 0, w0);
            expanded.set(i * 4 + 1, w1);
            expanded.set(i * 4 + 2, w2);
            expanded.set(i * 4 + 3, w3);
            proof {
                assert(seq![w0, w1, w2, w3] =~= schedule_word(key@, nk as int, i as int));
                lemma_schedule_prefix_extend(before, expanded@, key@, nk as int, i as int);
            }
        }
        assert(expanded@ =~= key_expansion_spec(key@, Self::nk_spec(), Self::nr_spec()));
        expanded
    }

    /// The word of the schedule that takes a round constant takes one of
    /// the first ten.
    proof fn lemma_round_constant_index(i: int)
        requires
            Self::supported(),
            Self::nk_spec() <= i < 4 * (Self::nr_spec() + 1),
        ensures
            1 <= i / Self::nk_spec() <= 10,
    {
        if K == 128 {
            assert(1 <= i / 4 <= 10);
        } else if K == 192 {
            assert(1 <= i / 6 <= 10);
        } else {
            assert(1 <= i / 8 <= 10);
        }
    }

    /// Encrypts `block` in place under the round keys of a schedule.
    pub fn block_cipher(block: &mut [u8; 16], round_keys: &[u8])
        requires
            Self::supported(),
            round_keys@.len() >= 16 * (Self::nr_spec() + 1),
        ensures
            final(block)@ == block_cipher_spec(old(block)@, round_keys@, Self::nr_spec() as nat),
    {
        let nr = Self::nr();
        let ghost orig = block@;
        let first = word4_of(round_keys, 0);
        Self::add_round_key(block, &first);

        for r in 1..nr
            invariant
                nr == Self::nr_spec(),
                round_keys@.len() >= 16 * (nr + 1),
                block@ == cipher_rounds(orig, round_keys@, (r - 1) as nat),
        {
            Self::sub_bytes(block);
            Self::shift_rows(block);
            Self::mix_columns(block);
            let key = word4_of(round_keys, r * 4);
            Self::add_round_key(block, &key);
        }

        Self::sub_bytes(block);
        Self::shift_rows(block);
        let last = word4_of(round_keys, nr * 4);
        Self::add_round_key(block, &last);
    }

    /// Decrypts `block` in place under the round keys of a schedule.
    pub fn block_inv_cipher(block: &mut [u8; 16], round_keys: &[u8])
        requires
            Self::supported(),
            round_keys@.len() >= 16 * (Self::nr_spec() + 1),
        ensures
            final(block)@ == block_inv_cipher_spec(
                old(block)@,
                round_keys@,
                Self::nr_spec() as nat,
            ),
    {
        let nr = Self::nr();
        let ghost orig = block@;
        let last = word4_of(round_keys, nr * 4);
        Self::add_round_key(block, &last);

        let mut r = nr - 1;
        while r >= 1
            invariant
                nr == Self::nr_spec(),
                0 <= r < nr,
                round_keys@.len() >= 16 * (nr + 1),
                block@ == inv_cipher_rounds(orig, round_keys@, nr as nat, (nr - 1 - r) as nat),
            decreases r,
        {
            Self::inv_shift_rows(block);
            Self::inv_sub_bytes(block);
            let key = word4_of(round_keys, r * 4);
            Self::add_round_key(block, &key);
            Self::inv_mix_columns(block);
            r -= 1;
        }

        Self::inv_shift_rows(block);
        Self::inv_sub_bytes(block);
        let first = word4_of(round_keys, 0);
        Self::add_round_key(block, &first);
    }

    /// Replaces each byte of `block` by its substitute.
    pub fn sub_bytes(block: &mut [u8; 16])
        ensures
            final(block)@ == sub_bytes_spec(old(block)@),
    {
        proof {
            reveal(sub_bytes_spec);
        }
        let ghost orig = block@;
        for i in 0..16usize
            invariant
                forall|j: int| 0 <= j < i ==> block@[j] == sbox(orig[j]),
                forall|j: int| i <= j < 16 ==> block@[j] == orig[j],
        {
            proof {
                lemma_byte_of_nibbles(block@[i as int]);
            }
            let r = block[i] & 15;
            let c = block[i] >> 4;
            block[i] = sub_byte(r + 16 * c);
        }
        assert(block@ =~= sub_bytes_spec(orig));
    }

    /// Replaces each byte of `block` by its inverse substitute.
    pub fn inv_sub_bytes(block: &mut [u8; 16])
        ensures
            final(block)@ == inv_sub_bytes_spec(old(block)@),
    {
        proof {
            reveal(inv_sub_bytes_spec);
        }
        let ghost orig = block@;
        for i in 0..16usize
            invariant
                forall|j: int| 0 <= j < i ==> block@[j] == inv_sbox(orig[j]),
                forall|j: int| i <= j < 16 ==> block@[j] == orig[j],
        {
            proof {
                lemma_byte_of_nibbles(block@[i as int]);
            }
            let r = block[i] & 15;
            let c = block[i] >> 4;
            block[i] = inv_sub_byte(r + 16 * c);
        }
        assert(block@ =~= inv_sub_bytes_spec(orig));
    }

    /// Shifts row `r` of `block` by `r` columns to the left.
    pub fn shift_rows(block: &mut [u8; 16])
        ensures
            final(block)@ == shift_rows_spec(old(block)@),
    {
        proof {
            reveal(shift_rows_spec);
        }
        let copy = *block;

        block[1 + 0 * 4] = copy[1 + 1 * 4];
        block[2 + 0 * 4] = copy[2 + 2 * 4];
        block[3 + 0 * 4] = copy[3 + 3 * 4];
        block[1 + 1 * 4] = copy[1 + 2 * 4];
        block[2 + 1 * 4] = copy[2 + 3 * 4];
        block[3 + 1 * 4] = copy[3 + 0 * 4];
        block[1 + 2 * 4] = copy[1 + 3 * 4];
        block[2 + 2 * 4] = copy[2 + 0 * 4];
        block[3 + 2 * 4] = copy[3 + 1 * 4];
        block[1 + 3 * 4] = copy[1 + 0 * 4];
        block[2 + 3 * 4] = copy[2 + 1 * 4];
        block[3 + 3 * 4] = copy[3 + 2 * 4];

        assert(block@ =~= shift_rows_spec(copy@));
    }

    /// Shifts row `r` of `block` by `r` columns to the right.
    pub fn inv_shift_rows(block: &mut [u8; 16])
        ensures
            final(block)@ == inv_shift_rows_spec(old(block)@),
    {
        proof {
            reveal(inv_shift_rows_spec);
        }
        let copy = *block;

        block[1 + 1 * 4] = copy[1 + 0 * 4];
        block[2 + 2 * 4] = copy[2 + 0 * 4];
        block[3 + 3 * 4] = copy[3 + 0 * 4];
        block[1 + 2 * 4] = copy[1 + 1 * 4];
        block[2 + 3 * 4] = copy[2 + 1 * 4];
        block[3 + 0 * 4] = copy[3 + 1 * 4];
        block[1 + 3 * 4] = copy[1 + 2 * 4];
        block[2 + 0 * 4] = copy[2 + 2 * 4];
        block[3 + 1 * 4] = copy[3 + 2 * 4];
        block[1 + 0 * 4] = copy[1 + 3 * 4];
        block[2 + 1 * 4] = copy[2 + 3 * 4];
        block[3 + 2 * 4] = copy[3 + 3 * 4];

        assert(block@ =~= inv_shift_rows_spec(copy@));
    }

    /// Multiplies each column of `block` by the mix matrix.
    pub fn mix_columns(block: &mut [u8; 16])
        ensures
            final(block)@ == mix_columns_spec(old(block)@),
    {
        proof {
            reveal(mix_columns_spec);
        }
        let copy = *block;

        for c in 0..4usize
            invariant
                forall|j: int| 0 <= j < 4 * c ==> block@[j] == mix_columns_spec(copy@)[j],
        {
            proof {
                reveal(mix_columns_spec);
            }
            proof {
                let p = copy@[0 + c * 4];
                let q = copy@[1 + c * 4];
                let r = copy@[2 + c * 4];
                let t = copy@[3 + c * 4];
                lemma_xor_rotations(p, gf_mul(2, q), gf_mul(3, r), t);
                lemma_xor_rotations(p, q, gf_mul(2, r), gf_mul(3, t));
                lemma_xor_rotations(gf_mul(3, p), q, r, gf_mul(2, t));
            }
            block[0 + c * 4] = mul_2(copy[0 + c * 4]) ^ mul_3(copy[1 + c * 4]) ^ copy[2 + c * 4]
                ^ copy[3 + c * 4];

            block[1 + c * 4] = copy[0 + c * 4] ^ mul_2(copy[1 + c * 4]) ^ mul_3(copy[2 + c * 4])
                ^ copy[3 + c * 4];

            block[2 + c * 4] = copy[0 + c * 4] ^ copy[1 + c * 4] ^ mul_2(copy[2 + c * 4]) ^ mul_3(
                copy[3 + c * 4],
            );

            block[3 + c * 4] = mul_3(copy[0 + c * 4]) ^ copy[1 + c * 4] ^ copy[2 + c * 4] ^ mul_2(
                copy[3 + c * 4],
            );
        }
        assert(block@ =~= mix_columns_spec(copy@));
    }

    /// Multiplies each column of `block` by the inverse mix matrix.
    pub fn inv_mix_columns(block: &mut [u8; 16])
        ensures
            final(block)@ == inv_mix_columns_spec(old(block)@),
    {
        proof {
            reveal(inv_mix_columns_spec);
        }
        let copy = *block;

        for c in 0..4usize
            invariant
                forall|j: int| 0 <= j < 4 * c ==> block@[j] == inv_mix_columns_spec(copy@)[j],
        {
            proof {
                reveal(inv_mix_columns_spec);
            }
            proof {
                let p = copy@[0 + c * 4];
                let q = copy@[1 + c * 4];
                let r = copy@[2 + c * 4];
                let t = copy@[3 + c * 4];
                lemma_xor_rotations(gf_mul(9, p), gf_mul(14, q), gf_mul(11, r), gf_mul(13, t));
                lemma_xor_rotations(gf_mul(13, p), gf_mul(9, q), gf_mul(14, r), gf_mul(11, t));
                lemma_xor_rotations(gf_mul(11, p), gf_mul(13, q), gf_mul(9, r), gf_mul(14, t));
            }
            block[0 + c * 4] = mul_14(copy[0 + c * 4]) ^ mul_11(copy[1 + c * 4]) ^ mul_13(
                copy[2 + c * 4],
            ) ^ mul_9(copy[3 + c * 4]);

            block[1 + c * 4] = mul_9(copy[0 + c * 4]) ^ mul_14(copy[1 + c * 4]) ^ mul_11(
                copy[2 + c * 4],
            ) ^ mul_13(copy[3 + c * 4]);

            block[2 + c * 4] = mul_13(copy[0 + c * 4]) ^ mul_9(copy[1 + c * 4]) ^ mul_14(
                copy[2 + c * 4],
            ) ^ mul_11(copy[3 + c * 4]);

            block[3 + c * 4] = mul_11(copy[0 + c * 4]) ^ mul_13(copy[1 + c * 4]) ^ mul_9(
                copy[2 + c * 4],
            ) ^ mul_14(copy[3 + c * 4]);
        }
        assert(block@ =~= inv_mix_columns_spec(copy@));
    }

    /// XORs `round_key` into `block`.
    pub fn add_round_key(block: &mut [u8; 16], round_key: &[u8; 16])
        ensures
            final(block)@ == add_round_key_spec(old(block)@, round_key@),
    {
        proof {
            reveal(add_round_key_spec);
        }
        let ghost orig = block@;
        for c in 0..4usize
            invariant
                forall|j: int| 0 <= j < 4 * c ==> block@[j] == orig[j] ^ round_key@[j],
                forall|j: int| 4 * c <= j < 16 ==> block@[j] == orig[j],
        {
            block[0 + c * 4] = block[0 + c * 4] ^ round_key[0 + c * 4];
            block[1 + c * 4] = block[1 + c * 4] ^ round_key[1 + c * 4];
            block[2 + c * 4] = block[2 + c * 4] ^ round_key[2 + c * 4];
            block[3 + c * 4] = block[3 + c * 4] ^ round_key[3 + c * 4];
        }
        assert(block@ =~= add_round_key_spec(orig, round_key@));
    }
}

/// The round key that starts at word `word_idx` of a schedule.
fn word4_of(round_keys: &[u8], word_idx: usize) -> (key: [u8; 16])
    requires
        16 + word_idx * 4 <= round_keys@.len(),
    ensures
        key@ == round_keys@.subrange(word_idx * 4, word_idx * 4 + 16),
{
    word4(round_keys, word_idx).unwrap()
}

fn sub_word(word: &mut [u8; 4])
    ensures
        final(word)@ == sub_word_spec(old(word)@),
{
    word[0] = sub_byte(word[0]);
    word[1] = sub_byte(word[1]);
    word[2] = sub_byte(word[2]);
    word[3] = sub_byte(word[3]);
    assert(word@ =~= sub_word_spec(old(word)@));
}

fn rot_word(word: &mut [u8; 4])
    ensures
        final(word)@ == rot_word_spec(old(word)@),
{
    let first = word[0];
    word[0] = word[1];
    word[1] = word[2];
    word[2] = word[3];
    word[3] = first;
    assert(word@ =~= rot_word_spec(old(word)@));
}

impl<const K: usize> BlockCipher<16> for AesCipher<K> {
    open spec fn valid_key(key: Seq<u8>) -> bool {
        Self::supported() && key.len() == 4 * Self::nk_spec()
    }

    open spec fn valid_schedule(schedule: Seq<u8>) -> bool {
        Self::supported() && schedule.len() == 16 * (Self::nr_spec() + 1)
    }

    open spec fn schedule_spec(key: Seq<u8>) -> Seq<u8> {
        key_expansion_spec(key, Self::nk_spec(), Self::nr_spec())
    }

    open spec fn encrypt_block_spec(block: Seq<u8>, schedule: Seq<u8>) -> Seq<u8> {
        block_cipher_spec(block, schedule, Self::nr_spec() as nat)
    }

    open spec fn decrypt_block_spec(block: Seq<u8>, schedule: Seq<u8>) -> Seq<u8> {
        block_inv_cipher_spec(block, schedule, Self::nr_spec() as nat)
    }

    proof fn lemma_schedule_valid(key: Seq<u8>) {
    }

    proof fn lemma_block_round_trip(block: Seq<u8>, schedule: Seq<u8>) {
        lemma_round_lengths(block, schedule, Self::nr_spec() as nat, 0);
        lemma_cipher_round_trip(block, schedule, Self::nr_spec() as nat);
    }

    fn accepts_key(key: &[u8]) -> (ok: bool) {
        (K == 128 || K == 192 || K == 256) && key.len() == 4 * Self::nk()
    }

    fn expand_key(key: &[u8]) -> (schedule: Vec<u8>) {
        Self::key_expansion(key)
    }

    fn encrypt_block(block: [u8; 16], schedule: &[u8]) -> (out: [u8; 16]) {
        let mut out = block;
        Self::block_cipher(&mut out, schedule);
        out
    }

    fn decrypt_block(block: [u8; 16], schedule: &[u8]) -> (out: [u8; 16]) {
        let mut out = block;
        Self::block_inv_cipher(&mut out, schedule);
        out
    }

    fn cipher(block: [u8; 16], key: &[u8]) -> (out: [u8; 16]) {
        let key_sch = Self::key_expansion(key);
        let mut out = block;
        Self::block_cipher(&mut out, key_sch.as_slice());
        out
    }

    fn inv_cipher(block: [u8; 16], key: &[u8]) -> (out: [u8; 16]) {
        let key_sch = Self::key_expansion(key);
        let mut out = block;
        Self::block_inv_cipher(&mut out, key_sch.as_slice());
        out
    }
}

/// The schedule is a function of the key alone: equal keys have equal
/// schedules, and the schedule of a key starts with the key itself.
pub proof fn lemma_key_schedule_deterministic<const K: usize>(first: Seq<u8>, second: Seq<u8>)
    requires
        AesCipher::<K>::valid_key(first),
        first == second,
    ensures
        AesCipher::<K>::schedule_spec(first) == AesCipher::<K>::schedule_spec(second),
        AesCipher::<K>::schedule_spec(first).len() == 16 * (AesCipher::<K>::nr_spec() + 1),
        AesCipher::<K>::schedule_spec(first).subrange(0, first.len() as int) == first,
{
    let nk = AesCipher::<K>::nk_spec();
    let schedule = AesCipher::<K>::schedule_spec(first);
    assert forall|j: int| 0 <= j < first.len() implies schedule[j] == first[j] by {
        assert(schedule_word(first, nk, j / 4) == first.subrange(4 * (j / 4), 4 * (j / 4) + 4));
    }
    assert(schedule.subrange(0, first.len() as int) =~= first);
}

} // verus!
