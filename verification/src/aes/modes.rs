//! The chaining modes: how a block cipher and a padding scheme are composed
//! over a buffer of any length.
use vstd::prelude::*;
use std::marker::PhantomData;
use vstd::slice::slice_to_vec;
use crate::aes::cipher::BlockCipher;
use crate::aes::padding::CipherPadding;
use crate::aes::utils::{to_arr, to_arr_range};

verus! {

/// Why a mode refuses its input.
#[derive(Debug, Clone, Copy, PartialEq, Eq)]
pub enum ModeError {
    /// The key does not have a length that the cipher accepts.
    InvalidKeyLength,
    /// The ciphertext is not a whole number of blocks.
    PartialBlock,
}

/// Block `i` of `data` for blocks of `b` bytes.
pub open spec fn block_at(data: Seq<u8>, b: int, i: int) -> Seq<u8> {
    data.subrange(i * b, i * b + b)
}

/// The first `n` blocks that `blocks` gives, one after the other.
pub open spec fn join_blocks(blocks: spec_fn(int) -> Seq<u8>, n: nat) -> Seq<u8>
    decreases n,
{
    if n == 0 {
        Seq::empty()
    } else {
        join_blocks(blocks, (n - 1) as nat) + blocks(n - 1)
    }
}

/// The blocks of `data` itself, block by block.
pub open spec fn own_block_fn(data: Seq<u8>, b: int) -> spec_fn(int) -> Seq<u8> {
    |i: int| block_at(data, b, i)
}

/// The byte-wise XOR of two blocks.
pub open spec fn xor_blocks(a: Seq<u8>, b: Seq<u8>) -> Seq<u8> {
    Seq::new(a.len(), |i: int| a[i] ^ b[i])
}

/// The number of whole blocks of `b` bytes in `data`.
pub open spec fn block_count(data: Seq<u8>, b: int) -> nat {
    (data.len() as int / b) as nat
}

/// ECB encryption, block by block: block `i` of the result is the
/// encryption of block `i` of `data`.
pub open spec fn ecb_encrypt_block_fn<C: BlockCipher<B>, const B: usize>(
    data: Seq<u8>,
    schedule: Seq<u8>,
) -> spec_fn(int) -> Seq<u8> {
    |i: int| C::encrypt_block_spec(block_at(data, B as int, i), schedule)
}

/// ECB decryption, block by block: block `i` of the result is the
/// decryption of block `i` of `data`.
pub open spec fn ecb_decrypt_block_fn<C: BlockCipher<B>, const B: usize>(
    data: Seq<u8>,
    schedule: Seq<u8>,
) -> spec_fn(int) -> Seq<u8> {
    |i: int| C::decrypt_block_spec(block_at(data, B as int, i), schedule)
}

/// The ECB encryption of the whole blocks of `data`.
pub open spec fn ecb_encrypt_blocks<C: BlockCipher<B>, const B: usize>(
    data: Seq<u8>,
    schedule: Seq<u8>,
) -> Seq<u8> {
    join_blocks(ecb_encrypt_block_fn::<C, B>(data, schedule), block_count(data, B as int))
}

/// The ECB decryption of the whole blocks of `data`.
pub open spec fn ecb_decrypt_blocks<C: BlockCipher<B>, const B: usize>(
    data: Seq<u8>,
    schedule: Seq<u8>,
) -> Seq<u8> {
    join_blocks(ecb_decrypt_block_fn::<C, B>(data, schedule), block_count(data, B as int))
}

/// Ciphertext block `i` of a CBC encryption: the encryption of plaintext
/// block `i` XORed with the ciphertext block before it, and with the
/// initialization vector for the first block.
pub open spec fn cbc_chain<C: BlockCipher<B>, const B: usize>(
    data: Seq<u8>,
    iv: Seq<u8>,
    schedule: Seq<u8>,
    i: int,
) -> Seq<u8>
    decreases i,
{
    let prev = if i <= 0 {
        iv
    } else {
        cbc_chain::<C, B>(data, iv, schedule, i - 1)
    };
    C::encrypt_block_spec(xor_blocks(prev, block_at(data, B as int, i)), schedule)
}

/// CBC encryption, block by block.
pub open spec fn cbc_encrypt_block_fn<C: BlockCipher<B>, const B: usize>(
    data: Seq<u8>,
    iv: Seq<u8>,
    schedule: Seq<u8>,
) -> spec_fn(int) -> Seq<u8> {
    |i: int| cbc_chain::<C, B>(data, iv, schedule, i)
}

/// The block that stands before block `i` in a CBC chain over `data`: the
/// initialization vector before the first block.
pub open spec fn cbc_previous(data: Seq<u8>, iv: Seq<u8>, b: int, i: int) -> Seq<u8> {
    if i <= 0 {
        iv
    } else {
        block_at(data, b, i - 1)
    }
}

/// CBC decryption, block by block: plaintext block `i` is the decryption
/// of ciphertext block `i` XORed with the ciphertext block before it.
pub open spec fn cbc_decrypt_block_fn<C: BlockCipher<B>, const B: usize>(
    data: Seq<u8>,
    iv: Seq<u8>,
    schedule: Seq<u8>,
) -> spec_fn(int) -> Seq<u8> {
    |i: int|
        xor_blocks(
            cbc_previous(data, iv, B as int, i),
            C::decrypt_block_spec(block_at(data, B as int, i), schedule),
        )
}

/// The CBC encryption of the whole blocks of `data`.
pub open spec fn cbc_encrypt_blocks<C: BlockCipher<B>, const B: usize>(
    data: Seq<u8>,
    iv: Seq<u8>,
    schedule: Seq<u8>,
) -> Seq<u8> {
    join_blocks(cbc_encrypt_block_fn::<C, B>(data, iv, schedule), block_count(data, B as int))
}

/// The CBC decryption of the whole blocks of `data`.
pub open spec fn cbc_decrypt_blocks<C: BlockCipher<B>, const B: usize>(
    data: Seq<u8>,
    iv: Seq<u8>,
    schedule: Seq<u8>,
) -> Seq<u8> {
    join_blocks(cbc_decrypt_block_fn::<C, B>(data, iv, schedule), block_count(data, B as int))
}

/// A mode of operation: encryption and decryption of whole buffers with a
/// block cipher `C` on blocks of `B` bytes and a padding scheme `D`.
pub trait Modes<C: BlockCipher<B>, const B: usize, D: CipherPadding> {
    /// The mode can be used: its block size can be padded for, and what it
    /// holds fits the block size.
    spec fn wf(&self) -> bool;

    /// The ciphertext of `plain` under `key`.
    spec fn encrypt_spec(&self, plain: Seq<u8>, key: Seq<u8>) -> Seq<u8>;

    /// The plaintext of `cipher` under `key`.
    spec fn decrypt_spec(&self, cipher: Seq<u8>, key: Seq<u8>) -> Seq<u8>;

    /// Pads `plain_text` and encrypts it under `key`. A key that the cipher
    /// does not accept is the only error.
    fn encrypt(&self, plain_text: &[u8], key: &[u8]) -> (r: Result<Vec<u8>, ModeError>)
        requires
            self.wf(),
        ensures
            r is Ok <==> C::valid_key(key@),
            r matches Ok(c) ==> c@ == self.encrypt_spec(plain_text@, key@),
            r matches Err(e) ==> e == ModeError::InvalidKeyLength,
    ;

    /// Decrypts `cipher_text` under `key` and strips the padding. A key
    /// that the cipher does not accept is refused first, then a ciphertext
    /// that is not a whole number of blocks.
    fn decrypt(&self, cipher_text: &[u8], key: &[u8]) -> (r: Result<Vec<u8>, ModeError>)
        requires
            self.wf(),
        ensures
            r is Ok <==> C::valid_key(key@) && cipher_text@.len() % (B as nat) == 0,
            r matches Ok(p) ==> p@ == self.decrypt_spec(cipher_text@, key@),
            r matches Err(e) ==> (e == ModeError::InvalidKeyLength <==> !C::valid_key(key@)),
            r matches Err(e) ==> (e == ModeError::PartialBlock <==> C::valid_key(key@)),
    ;
}

/// Electronic codebook: every block is transformed on its own.
#[derive(Debug)]
pub struct EcbMode<C: BlockCipher<B>, const B: usize, D: CipherPadding> {
    _marker_c: PhantomData<C>,
    _marker_d: PhantomData<D>,
}

impl<C: BlockCipher<B>, const B: usize, D: CipherPadding> EcbMode<C, B, D> {
    /// A mode for blocks of `B` bytes, with `B` between 1 and 255.
    pub fn new() -> (mode: Self)
        requires
            1 <= B <= 255,
        ensures
            mode.wf(),
    {
        Self { _marker_c: PhantomData, _marker_d: PhantomData }
    }
}

/// Cipher block chaining: every block is XORed with the ciphertext block
/// before it, and the first with an initialization vector.
#[derive(Debug)]
pub struct CbcMode<C: BlockCipher<B>, const B: usize, D: CipherPadding> {
    iv: Vec<u8>,
    _marker_c: PhantomData<C>,
    _marker_d: PhantomData<D>,
}

impl<C: BlockCipher<B>, const B: usize, D: CipherPadding> CbcMode<C, B, D> {
    /// The initialization vector of the mode.
    pub closed spec fn iv_spec(&self) -> Seq<u8> {
        self.iv@
    }

    /// A mode with the default initialization vector: a block of zeros.
    pub fn new() -> (mode: Self)
        requires
            1 <= B <= 255,
        ensures
            mode.wf(),
            mode.iv_spec() == Seq::new(B as nat, |i: int| 0u8),
    {
        let iv = vec![0u8; B];
        assert(iv@ =~= Seq::new(B as nat, |i: int| 0u8));
        CbcMode { iv, _marker_c: PhantomData, _marker_d: PhantomData }
    }

    /// A mode with the initialization vector `iv`, which is one block.
    pub fn with_iv(iv: Vec<u8>) -> (mode: Self)
        requires
            1 <= B <= 255,
            iv@.len() == B,
        ensures
            mode.wf(),
            mode.iv_spec() == iv@,
    {
        CbcMode { iv, _marker_c: PhantomData, _marker_d: PhantomData }
    }
}

/// The blocks that were joined have one length: so has the whole, and each
/// block is found where it was put.
pub proof fn lemma_join_blocks(blocks: spec_fn(int) -> Seq<u8>, n: nat, b: int)
    requires
        b >= 1,
        forall|i: int| 0 <= i < n ==> (#[trigger] blocks(i)).len() == b,
    ensures
        join_blocks(blocks, n).len() == n * b,
        forall|i: int| 0 <= i < n ==> block_at(join_blocks(blocks, n), b, i) == #[trigger] blocks(i),
    decreases n,
{
    if n == 0 {
        assert(n * b == 0) by (nonlinear_arith)
            requires
                n == 0,
        ;
    } else {
        let m = (n - 1) as nat;
        lemma_join_blocks(blocks, m, b);
        let head = join_blocks(blocks, m);
        let whole = join_blocks(blocks, n);
        assert(whole == head + blocks(m as int));
        assert(m * b + b == n * b) by (nonlinear_arith)
            requires
                m == n - 1,
        ;
        assert forall|i: int| 0 <= i < n implies block_at(whole, b, i) == #[trigger] blocks(i) by {
            if i < m {
                assert(i * b + b <= m * b) by (nonlinear_arith)
                    requires
                        0 <= i < m,
                        b >= 1,
                ;
                assert(0 <= i * b) by (nonlinear_arith)
                    requires
                        0 <= i,
                        b >= 1,
                ;
                assert(block_at(whole, b, i) =~= block_at(head, b, i));
            } else {
                assert(block_at(whole, b, i) =~= blocks(i));
            }
        }
    }
}

/// Two ways to give blocks that agree on the first `n` join to the same.
pub proof fn lemma_join_blocks_agree(
    f: spec_fn(int) -> Seq<u8>,
    g: spec_fn(int) -> Seq<u8>,
    n: nat,
)
    requires
        forall|i: int| 0 <= i < n ==> #[trigger] f(i) == g(i),
    ensures
        join_blocks(f, n) == join_blocks(g, n),
    decreases n,
{
    if n > 0 {
        lemma_join_blocks_agree(f, g, (n - 1) as nat);
        assert(f(n - 1) == g(n - 1));
    }
}

/// A buffer of `n` whole blocks is the join of its blocks.
pub proof fn lemma_join_own_blocks(data: Seq<u8>, b: int, n: nat)
    requires
        b >= 1,
        n * b <= data.len(),
    ensures
        join_blocks(own_block_fn(data, b), n) == data.subrange(0, n * b),
    decreases n,
{
    let f = own_block_fn(data, b);
    if n == 0 {
        assert(n * b == 0) by (nonlinear_arith)
            requires
                n == 0,
        ;
        assert(join_blocks(f, n) =~= data.subrange(0, 0));
    } else {
        let m = (n - 1) as nat;
        assert(m * b + b == n * b && 0 <= m * b) by (nonlinear_arith)
            requires
                m == n - 1,
                0 <= m,
                b >= 1,
        ;
        lemma_join_own_blocks(data, b, m);
        assert(f(m as int) == data.subrange(m * b, m * b + b));
        assert(join_blocks(f, n) == join_blocks(f, m) + f(m as int));
        assert(data.subrange(0, m * b) + data.subrange(m * b, m * b + b) =~= data.subrange(
            0,
            n * b,
        ));
    }
}

/// A buffer of whole blocks has as many blocks as its length says.
pub proof fn lemma_block_count(data: Seq<u8>, b: int)
    requires
        b >= 1,
        data.len() % (b as nat) == 0,
    ensures
        block_count(data, b) * b == data.len(),
{
    assert((data.len() as int / b) * b == data.len()) by (nonlinear_arith)
        requires
            b >= 1,
            (data.len() as int) % b == 0,
    ;
}

/// A buffer of `n` blocks has `n` blocks.
pub proof fn lemma_block_count_of_product(data: Seq<u8>, b: int, n: nat)
    requires
        b >= 1,
        data.len() == n * b,
    ensures
        block_count(data, b) == n,
        data.len() % (b as nat) == 0,
{
    assert((n * b) / b == n && (n * b) % b == 0) by (nonlinear_arith)
        requires
            b >= 1,
    ;
}

proof fn lemma_xor_twice(a: u8, b: u8)
    by (bit_vector)
    ensures
        a ^ (a ^ b) == b,
        (a ^ b) ^ b == a,
{
}

/// XORing a block twice with the same block gives it back.
pub proof fn lemma_xor_blocks_cancel(a: Seq<u8>, b: Seq<u8>)
    requires
        a.len() == b.len(),
    ensures
        xor_blocks(a, b).len() == a.len(),
        xor_blocks(a, xor_blocks(a, b)) == b,
{
    assert forall|i: int| 0 <= i < a.len() implies a[i] ^ (a[i] ^ b[i]) == b[i] by {
        lemma_xor_twice(a[i], b[i]);
    }
    assert(xor_blocks(a, xor_blocks(a, b)) =~= b);
}

/// Every block of an ECB encryption and decryption has the block size.
pub proof fn lemma_ecb_block_lengths<C: BlockCipher<B>, const B: usize>(
    data: Seq<u8>,
    schedule: Seq<u8>,
    n: nat,
)
    requires
        B >= 1,
        C::valid_schedule(schedule),
        n * B <= data.len(),
    ensures
        forall|i: int|
            0 <= i < n ==> (#[trigger] ecb_encrypt_block_fn::<C, B>(data, schedule)(i)).len() == B,
        forall|i: int|
            0 <= i < n ==> (#[trigger] ecb_decrypt_block_fn::<C, B>(data, schedule)(i)).len() == B,
        forall|i: int| 0 <= i < n ==> (#[trigger] block_at(data, B as int, i)).len() == B,
{
    assert forall|i: int| 0 <= i < n implies (#[trigger] block_at(data, B as int, i)).len()
        == B by {
        lemma_block_in_range(data.len() as int, B as int, n as int, i);
    }
    assert forall|i: int| 0 <= i < n implies (#[trigger] ecb_encrypt_block_fn::<C, B>(
        data,
        schedule,
    )(i)).len() == B by {
        assert(block_at(data, B as int, i).len() == B);
        C::lemma_block_round_trip(block_at(data, B as int, i), schedule);
    }
    assert forall|i: int| 0 <= i < n implies (#[trigger] ecb_decrypt_block_fn::<C, B>(
        data,
        schedule,
    )(i)).len() == B by {
        assert(block_at(data, B as int, i).len() == B);
        C::lemma_block_round_trip(block_at(data, B as int, i), schedule);
    }
}

/// Block `i` of `n` lies inside a buffer of at least `n` blocks.
pub proof fn lemma_block_in_range(len: int, b: int, n: int, i: int)
    requires
        b >= 1,
        0 <= i < n,
        n * b <= len,
    ensures
        0 <= i * b,
        i * b + b <= len,
        (i + 1) * b == i * b + b,
{
    assert(0 <= i * b && i * b + b <= n * b && (i + 1) * b == i * b + b) by (nonlinear_arith)
        requires
            b >= 1,
            0 <= i < n,
    ;
}

/// Every block of a CBC chain has the block size.
pub proof fn lemma_cbc_chain_length<C: BlockCipher<B>, const B: usize>(
    data: Seq<u8>,
    iv: Seq<u8>,
    schedule: Seq<u8>,
    n: nat,
    i: int,
)
    requires
        B >= 1,
        C::valid_schedule(schedule),
        iv.len() == B,
        n * B <= data.len(),
        0 <= i < n,
    ensures
        cbc_chain::<C, B>(data, iv, schedule, i).len() == B,
        cbc_encrypt_block_fn::<C, B>(data, iv, schedule)(i).len() == B,
    decreases i,
{
    lemma_block_in_range(data.len() as int, B as int, n as int, i);
    let prev = if i <= 0 {
        iv
    } else {
        cbc_chain::<C, B>(data, iv, schedule, i - 1)
    };
    if i > 0 {
        lemma_cbc_chain_length::<C, B>(data, iv, schedule, n, i - 1);
    }
    C::lemma_block_round_trip(xor_blocks(prev, block_at(data, B as int, i)), schedule);
}

/// Every block of a CBC decryption has the block size.
pub proof fn lemma_cbc_plain_length<C: BlockCipher<B>, const B: usize>(
    data: Seq<u8>,
    iv: Seq<u8>,
    schedule: Seq<u8>,
    n: nat,
    i: int,
)
    requires
        B >= 1,
        C::valid_schedule(schedule),
        iv.len() == B,
        n * B <= data.len(),
        0 <= i < n,
    ensures
        cbc_previous(data, iv, B as int, i).len() == B,
        cbc_decrypt_block_fn::<C, B>(data, iv, schedule)(i).len() == B,
{
    lemma_block_in_range(data.len() as int, B as int, n as int, i);
    if i > 0 {
        lemma_block_in_range(data.len() as int, B as int, n as int, i - 1);
    }
}

/// Decrypting the ECB encryption of whole blocks gives them back.
pub proof fn lemma_ecb_blocks_round_trip<C: BlockCipher<B>, const B: usize>(
    data: Seq<u8>,
    schedule: Seq<u8>,
)
    requires
        B >= 1,
        C::valid_schedule(schedule),
        data.len() % (B as nat) == 0,
    ensures
        ecb_encrypt_blocks::<C, B>(data, schedule).len() == data.len(),
        ecb_decrypt_blocks::<C, B>(ecb_encrypt_blocks::<C, B>(data, schedule), schedule) == data,
{
    let b = B as int;
    let n = block_count(data, b);
    lemma_block_count(data, b);
    let enc = ecb_encrypt_block_fn::<C, B>(data, schedule);
    let ct = ecb_encrypt_blocks::<C, B>(data, schedule);
    lemma_ecb_block_lengths::<C, B>(data, schedule, n);
    lemma_join_blocks(enc, n, b);
    lemma_block_count_of_product(ct, b, n);
    let dec = ecb_decrypt_block_fn::<C, B>(ct, schedule);
    let own = own_block_fn(data, b);
    assert forall|i: int| 0 <= i < n implies #[trigger] dec(i) == own(i) by {
        assert(block_at(ct, b, i) == enc(i));
        assert(block_at(data, b, i).len() == B);
        C::lemma_block_round_trip(block_at(data, b, i), schedule);
    }
    lemma_join_blocks_agree(dec, own, n);
    lemma_join_own_blocks(data, b, n);
    assert(data.subrange(0, n * b) =~= data);
}

/// Decrypting the CBC encryption of whole blocks, with the same
/// initialization vector, gives them back.
pub proof fn lemma_cbc_blocks_round_trip<C: BlockCipher<B>, const B: usize>(
    data: Seq<u8>,
    iv: Seq<u8>,
    schedule: Seq<u8>,
)
    requires
        B >= 1,
        C::valid_schedule(schedule),
        iv.len() == B,
        data.len() % (B as nat) == 0,
    ensures
        cbc_encrypt_blocks::<C, B>(data, iv, schedule).len() == data.len(),
        cbc_decrypt_blocks::<C, B>(cbc_encrypt_blocks::<C, B>(data, iv, schedule), iv, schedule)
            == data,
{
    let b = B as int;
    let n = block_count(data, b);
    lemma_block_count(data, b);
    let enc = cbc_encrypt_block_fn::<C, B>(data, iv, schedule);
    let ct = cbc_encrypt_blocks::<C, B>(data, iv, schedule);
    assert forall|i: int| 0 <= i < n implies (#[trigger] enc(i)).len() == b by {
        lemma_cbc_chain_length::<C, B>(data, iv, schedule, n, i);
    }
    lemma_join_blocks(enc, n, b);
    lemma_block_count_of_product(ct, b, n);
    let dec = cbc_decrypt_block_fn::<C, B>(ct, iv, schedule);
    let own = own_block_fn(data, b);
    assert forall|i: int| 0 <= i < n implies #[trigger] dec(i) == own(i) by {
        lemma_block_in_range(data.len() as int, b, n as int, i);
        let prev = if i <= 0 {
            iv
        } else {
            cbc_chain::<C, B>(data, iv, schedule, i - 1)
        };
        if i > 0 {
            lemma_cbc_chain_length::<C, B>(data, iv, schedule, n, i - 1);
            assert(block_at(ct, b, i - 1) == enc(i - 1));
        }
        assert(cbc_previous(ct, iv, b, i) == prev);
        assert(block_at(ct, b, i) == enc(i));
        let mixed = xor_blocks(prev, block_at(data, b, i));
        C::lemma_block_round_trip(mixed, schedule);
        lemma_xor_blocks_cancel(prev, block_at(data, b, i));
    }
    lemma_join_blocks_agree(dec, own, n);
    lemma_join_own_blocks(data, b, n);
    assert(data.subrange(0, n * b) =~= data);
}

/// Where a walk through `n` blocks of `b` bytes stands after `i` of them: it
/// has more to do exactly while it stands before the end, and the next
/// block then lies inside the buffer.
proof fn lemma_block_cursor(i: nat, n: nat, b: int)
    requires
        b >= 1,
    ensures
        i < n <==> i * b < n * b,
        i < n ==> i * b + b <= n * b,
        0 <= i * b,
        (i + 1) * b == i * b + b,
{
    assert((i < n <==> i * b < n * b) && (i < n ==> i * b + b <= n * b) && 0 <= i * b && (i + 1)
        * b == i * b + b) by (nonlinear_arith)
        requires
            b >= 1,
            0 <= i,
            0 <= n,
    ;
}

/// One more block behind the first `i` gives the first `i + 1`.
proof fn lemma_join_step(blocks: spec_fn(int) -> Seq<u8>, i: nat, joined: Seq<u8>, block: Seq<u8>)
    requires
        joined == join_blocks(blocks, i),
        block == blocks(i as int),
    ensures
        joined + block == join_blocks(blocks, i + 1),
{
}

/// The byte-wise XOR of two blocks.
fn xor_arrays<const N: usize>(a: &[u8; N], b: &[u8; N]) -> (out: [u8; N])
    ensures
        out@ == xor_blocks(a@, b@),
{
    let mut out = [0u8; N];
    for i in 0..N
        invariant
            forall|j: int| 0 <= j < i ==> out@[j] == a@[j] ^ b@[j],
    {
        out[i] = a[i] ^ b[i];
    }
    assert(out@ =~= xor_blocks(a@, b@));
    out
}

/// Block `i` of `data` as an array.
fn take_block<const B: usize>(data: &[u8], start: usize, Ghost(i): Ghost<int>) -> (block: [u8; B])
    requires
        start == i * B,
        0 <= i,
        start + B <= data@.len(),
    ensures
        block@ == block_at(data@, B as int, i),
{
    let len = data.len();
    to_arr_range::<B>(data, start..start + B).unwrap()
}

impl<C: BlockCipher<B>, const B: usize, D: CipherPadding> Modes<C, B, D> for EcbMode<C, B, D> {
    open spec fn wf(&self) -> bool {
        1 <= B <= 255
    }

    open spec fn encrypt_spec(&self, plain: Seq<u8>, key: Seq<u8>) -> Seq<u8> {
        ecb_encrypt_blocks::<C, B>(D::pad_spec(plain, B as int), C::schedule_spec(key))
    }

    open spec fn decrypt_spec(&self, cipher: Seq<u8>, key: Seq<u8>) -> Seq<u8> {
        D::unpad_spec(ecb_decrypt_blocks::<C, B>(cipher, C::schedule_spec(key)))
    }

    fn encrypt(&self, plain_text: &[u8], key: &[u8]) -> (r: Result<Vec<u8>, ModeError>) {
        if !C::accepts_key(key) {
            return Err(ModeError::InvalidKeyLength);
        }
        let schedule = C::expand_key(key);
        // add padding
        let padded = D::add_pad::<B>(slice_to_vec(plain_text));
        proof {
            C::lemma_schedule_valid(key@);
            D::lemma_pad_round_trip(plain_text@, B as int);
            lemma_block_count(padded@, B as int);
            lemma_ecb_block_lengths::<C, B>(padded@, schedule@, block_count(padded@, B as int));
        }
        // apply cipher in ecb mode
        let ghost blocks = ecb_encrypt_block_fn::<C, B>(padded@, schedule@);
        let ghost n = block_count(padded@, B as int);
        let mut encrypted: Vec<u8> = Vec::with_capacity(padded.len());
        let mut start: usize = 0;
        let ghost mut i: nat = 0;
        while start < padded.len()
            invariant
                B >= 1,
                C::valid_schedule(schedule@),
                n * B == padded@.len(),
                i <= n,
                start == i * B,
                blocks == ecb_encrypt_block_fn::<C, B>(padded@, schedule@),
                encrypted@ == join_blocks(blocks, i),
            decreases n - i,
        {
            proof {
                lemma_block_cursor(i, n, B as int);
            }
            let block = take_block::<B>(padded.as_slice(), start, Ghost(i as int));
            let out = C::encrypt_block(block, schedule.as_slice());
            proof {
                lemma_join_step(blocks, i, encrypted@, out@);
            }
            encrypted.extend_from_slice(out.as_slice());
            start = start + B;
            proof {
                i = i + 1;
            }
        }
        proof {
            lemma_block_cursor(i, n, B as int);
        }
        Ok(encrypted)
    }

    fn decrypt(&self, cipher_text: &[u8], key: &[u8]) -> (r: Result<Vec<u8>, ModeError>) {
        if !C::accepts_key(key) {
            return Err(ModeError::InvalidKeyLength);
        }
        if cipher_text.len() % B != 0 {
            return Err(ModeError::PartialBlock);
        }
        let schedule = C::expand_key(key);
        proof {
            C::lemma_schedule_valid(key@);
            lemma_block_count(cipher_text@, B as int);
            lemma_ecb_block_lengths::<C, B>(
                cipher_text@,
                schedule@,
                block_count(cipher_text@, B as int),
            );
        }
        let ghost blocks = ecb_decrypt_block_fn::<C, B>(cipher_text@, schedule@);
        let ghost n = block_count(cipher_text@, B as int);
        let mut decrypted: Vec<u8> = Vec::with_capacity(cipher_text.len());
        let mut start: usize = 0;
        let ghost mut i: nat = 0;
        while start < cipher_text.len()
            invariant
                B >= 1,
                C::valid_schedule(schedule@),
                n * B == cipher_text@.len(),
                i <= n,
                start == i * B,
                blocks == ecb_decrypt_block_fn::<C, B>(cipher_text@, schedule@),
                decrypted@ == join_blocks(blocks, i),
            decreases n - i,
        {
            proof {
                lemma_block_cursor(i, n, B as int);
            }
            let block = take_block::<B>(cipher_text, start, Ghost(i as int));
            let out = C::decrypt_block(block, schedule.as_slice());
            proof {
                lemma_join_step(blocks, i, decrypted@, out@);
            }
            decrypted.extend_from_slice(out.as_slice());
            start = start + B;
            proof {
                i = i + 1;
            }
        }
        proof {
            lemma_block_cursor(i, n, B as int);
        }

        // remove padding
        Ok(D::remove_pad::<B>(decrypted))
    }
}

impl<C: BlockCipher<B>, const B: usize, D: CipherPadding> Modes<C, B, D> for CbcMode<C, B, D> {
    open spec fn wf(&self) -> bool {
        1 <= B <= 255 && self.iv_spec().len() == B
    }

    open spec fn encrypt_spec(&self, plain: Seq<u8>, key: Seq<u8>) -> Seq<u8> {
        cbc_encrypt_blocks::<C, B>(
            D::pad_spec(plain, B as int),
            self.iv_spec(),
            C::schedule_spec(key),
        )
    }

    open spec fn decrypt_spec(&self, cipher: Seq<u8>, key: Seq<u8>) -> Seq<u8> {
        D::unpad_spec(cbc_decrypt_blocks::<C, B>(cipher, self.iv_spec(), C::schedule_spec(key)))
    }

    fn encrypt(&self, plain_text: &[u8], key: &[u8]) -> (r: Result<Vec<u8>, ModeError>) {
        if !C::accepts_key(key) {
            return Err(ModeError::InvalidKeyLength);
        }
        let schedule = C::expand_key(key);
        // add padding
        let padded = D::add_pad::<B>(slice_to_vec(plain_text));
        proof {
            C::lemma_schedule_valid(key@);
            D::lemma_pad_round_trip(plain_text@, B as int);
            lemma_block_count(padded@, B as int);
        }
        let ghost blocks = cbc_encrypt_block_fn::<C, B>(padded@, self.iv@, schedule@);
        let ghost n = block_count(padded@, B as int);
        let mut previous: [u8; B] = to_arr::<B>(self.iv.as_slice()).unwrap();
        let mut encrypted: Vec<u8> = Vec::with_capacity(padded.len());
        let mut start: usize = 0;
        let ghost mut i: nat = 0;
        while start < padded.len()
            invariant
                B >= 1,
                C::valid_schedule(schedule@),
                self.iv@.len() == B,
                n * B == padded@.len(),
                i <= n,
                start == i * B,
                blocks == cbc_encrypt_block_fn::<C, B>(padded@, self.iv@, schedule@),
                encrypted@ == join_blocks(blocks, i),
                previous@ == if i == 0 {
                    self.iv@
                } else {
                    cbc_chain::<C, B>(padded@, self.iv@, schedule@, i - 1)
                },
            decreases n - i,
        {
            proof {
                lemma_block_cursor(i, n, B as int);
            }
            // CBC Encrypt
            // C[i] = Cipher(P[i] ^ C[i-1])
            let chunk = take_block::<B>(padded.as_slice(), start, Ghost(i as int));
            // xor chunk (c0 ^ p1)
            let xored = xor_arrays(&previous, &chunk);
            let block = C::encrypt_block(xored, schedule.as_slice());
            proof {
                lemma_join_step(blocks, i, encrypted@, block@);
            }
            encrypted.extend_from_slice(block.as_slice());
            previous = block;
            start = start + B;
            proof {
                i = i + 1;
            }
        }
        proof {
            lemma_block_cursor(i, n, B as int);
        }
        Ok(encrypted)
    }

    fn decrypt(&self, cipher_text: &[u8], key: &[u8]) -> (r: Result<Vec<u8>, ModeError>) {
        if !C::accepts_key(key) {
            return Err(ModeError::InvalidKeyLength);
        }
        if cipher_text.len() % B != 0 {
            return Err(ModeError::PartialBlock);
        }
        let schedule = C::expand_key(key);
        proof {
            C::lemma_schedule_valid(key@);
            lemma_block_count(cipher_text@, B as int);
        }
        let ghost blocks = cbc_decrypt_block_fn::<C, B>(cipher_text@, self.iv@, schedule@);
        let ghost n = block_count(cipher_text@, B as int);
        let mut previous: [u8; B] = to_arr::<B>(self.iv.as_slice()).unwrap();
        let mut decrypted: Vec<u8> = Vec::with_capacity(cipher_text.len());
        let mut start: usize = 0;
        let ghost mut i: nat = 0;
        while start < cipher_text.len()
            invariant
                B >= 1,
                C::valid_schedule(schedule@),
                self.iv@.len() == B,
                n * B == cipher_text@.len(),
                i <= n,
                start == i * B,
                blocks == cbc_decrypt_block_fn::<C, B>(cipher_text@, self.iv@, schedule@),
                decrypted@ == join_blocks(blocks, i),
                previous@ == cbc_previous(cipher_text@, self.iv@, B as int, i as int),
            decreases n - i,
        {
            proof {
                lemma_block_cursor(i, n, B as int);
            }
            // CBC Decrypt
            // P[i] = InvCipher(C[i]) ^ C[i-1]
            let c1 = take_block::<B>(cipher_text, start, Ghost(i as int));
            // apply inv cipher
            let block = C::decrypt_block(c1, schedule.as_slice());
            // xor chunk (c0 ^ InvCipher(c1))
            let xored = xor_arrays(&previous, &block);
            proof {
                lemma_join_step(blocks, i, decrypted@, xored@);
            }
            decrypted.extend_from_slice(xored.as_slice());
            previous = c1;
            start = start + B;
            proof {
                i = i + 1;
            }
        }
        proof {
            lemma_block_cursor(i, n, B as int);
        }

        // remove padding
        Ok(D::remove_pad::<B>(decrypted))
    }
}

/// Decryption undoes encryption in ECB mode: for every buffer and every
/// key that the cipher accepts, the ciphertext is a whole number of blocks,
/// longer than the buffer, and decrypts to the buffer.
pub proof fn lemma_ecb_round_trip<C: BlockCipher<B>, const B: usize, D: CipherPadding>(
    mode: &EcbMode<C, B, D>,
    plain: Seq<u8>,
    key: Seq<u8>,
)
    requires
        mode.wf(),
        C::valid_key(key),
    ensures
        mode.encrypt_spec(plain, key).len() % (B as nat) == 0,
        mode.encrypt_spec(plain, key).len() > plain.len(),
        mode.decrypt_spec(mode.encrypt_spec(plain, key), key) == plain,
{
    let padded = D::pad_spec(plain, B as int);
    D::lemma_pad_round_trip(plain, B as int);
    C::lemma_schedule_valid(key);
    lemma_ecb_blocks_round_trip::<C, B>(padded, C::schedule_spec(key));
}

/// Decryption undoes encryption in CBC mode: for every buffer, every
/// initialization vector of one block and every key that the cipher
/// accepts, the ciphertext is a whole number of blocks, longer than the
/// buffer, and decrypts to the buffer.
pub proof fn lemma_cbc_round_trip<C: BlockCipher<B>, const B: usize, D: CipherPadding>(
    mode: &CbcMode<C, B, D>,
    plain: Seq<u8>,
    key: Seq<u8>,
)
    requires
        mode.wf(),
        C::valid_key(key),
    ensures
        mode.encrypt_spec(plain, key).len() % (B as nat) == 0,
        mode.encrypt_spec(plain, key).len() > plain.len(),
        mode.decrypt_spec(mode.encrypt_spec(plain, key), key) == plain,
{
    let padded = D::pad_spec(plain, B as int);
    D::lemma_pad_round_trip(plain, B as int);
    C::lemma_schedule_valid(key);
    lemma_cbc_blocks_round_trip::<C, B>(padded, mode.iv_spec(), C::schedule_spec(key));
}

/// ECB is a codebook: under one key, two equal blocks of a plaintext give
/// two equal blocks of the ciphertext, wherever they stand.
pub proof fn lemma_ecb_equal_blocks<C: BlockCipher<B>, const B: usize, D: CipherPadding>(
    mode: &EcbMode<C, B, D>,
    plain: Seq<u8>,
    key: Seq<u8>,
    i: int,
    j: int,
)
    requires
        mode.wf(),
        C::valid_key(key),
        0 <= i && (i + 1) * B <= plain.len(),
        0 <= j && (j + 1) * B <= plain.len(),
        block_at(plain, B as int, i) == block_at(plain, B as int, j),
    ensures
        block_at(mode.encrypt_spec(plain, key), B as int, i) == block_at(
            mode.encrypt_spec(plain, key),
            B as int,
            j,
        ),
{
    let b = B as int;
    let schedule = C::schedule_spec(key);
    let padded = D::pad_spec(plain, b);
    D::lemma_pad_round_trip(plain, b);
    C::lemma_schedule_valid(key);
    let n = block_count(padded, b);
    lemma_block_count(padded, b);
    lemma_ecb_block_lengths::<C, B>(padded, schedule, n);
    let enc = ecb_encrypt_block_fn::<C, B>(padded, schedule);
    lemma_join_blocks(enc, n, b);
    lemma_prefix_block(plain, padded, b, i);
    lemma_prefix_block(plain, padded, b, j);
    lemma_block_index_bound(padded.len() as int, b, n as int, i);
    lemma_block_index_bound(padded.len() as int, b, n as int, j);
    assert(enc(i) == enc(j));
}

/// A whole block of a buffer is the same block of any buffer that the
/// first is a prefix of.
proof fn lemma_prefix_block(data: Seq<u8>, longer: Seq<u8>, b: int, i: int)
    requires
        b >= 1,
        0 <= i,
        (i + 1) * b <= data.len(),
        data.len() <= longer.len(),
        longer.subrange(0, data.len() as int) == data,
    ensures
        block_at(longer, b, i) == block_at(data, b, i),
{
    assert((i + 1) * b == i * b + b && 0 <= i * b) by (nonlinear_arith)
        requires
            0 <= i,
            b >= 1,
    ;
    assert forall|k: int| 0 <= k < b implies block_at(longer, b, i)[k] == block_at(data, b, i)[k] by {
        assert(longer.subrange(0, data.len() as int)[i * b + k] == longer[i * b + k]);
    }
    assert(block_at(longer, b, i) =~= block_at(data, b, i));
}

/// A block that ends inside a buffer of `n` blocks is one of the `n`.
proof fn lemma_block_index_bound(len: int, b: int, n: int, i: int)
    requires
        b >= 1,
        0 <= i,
        (i + 1) * b <= len,
        len == n * b,
    ensures
        i < n,
{
    assert(i < n) by (nonlinear_arith)
        requires
            b >= 1,
            (i + 1) * b <= n * b,
    ;
}

proof fn lemma_xor_difference(a: u8, b: u8, d: u8)
    by (bit_vector)
    ensures
        b ^ d == (a ^ d) ^ (a ^ b),
{
}

/// An error in one block of a CBC ciphertext reaches two blocks of the
/// plaintext and no other. Where two ciphertexts of equal length differ in
/// block `i` alone, their decryptions under one key and one initialization
/// vector agree in every block but `i` and `i + 1`; block `i + 1` differs
/// exactly where ciphertext block `i` does, bit for bit; and block `i`
/// differs.
pub proof fn lemma_cbc_error_propagation<C: BlockCipher<B>, const B: usize>(
    first: Seq<u8>,
    second: Seq<u8>,
    iv: Seq<u8>,
    schedule: Seq<u8>,
    i: int,
)
    requires
        B >= 1,
        C::valid_schedule(schedule),
        iv.len() == B,
        first.len() == second.len(),
        first.len() % (B as nat) == 0,
        0 <= i < block_count(first, B as int),
        forall|j: int|
            0 <= j < block_count(first, B as int) && j != i ==> #[trigger] block_at(
                first,
                B as int,
                j,
            ) == block_at(second, B as int, j),
    ensures
        forall|j: int|
            0 <= j < block_count(first, B as int) && j != i && j != i + 1 ==> #[trigger] block_at(
                cbc_decrypt_blocks::<C, B>(first, iv, schedule),
                B as int,
                j,
            ) == block_at(cbc_decrypt_blocks::<C, B>(second, iv, schedule), B as int, j),
        i + 1 < block_count(first, B as int) ==> block_at(
            cbc_decrypt_blocks::<C, B>(second, iv, schedule),
            B as int,
            i + 1,
        ) == xor_blocks(
            block_at(cbc_decrypt_blocks::<C, B>(first, iv, schedule), B as int, i + 1),
            xor_blocks(block_at(first, B as int, i), block_at(second, B as int, i)),
        ),
        block_at(first, B as int, i) != block_at(second, B as int, i) ==> block_at(
            cbc_decrypt_blocks::<C, B>(first, iv, schedule),
            B as int,
            i,
        ) != block_at(cbc_decrypt_blocks::<C, B>(second, iv, schedule), B as int, i),
{
    let b = B as int;
    let n = block_count(first, b);
    lemma_block_count(first, b);
    lemma_block_count(second, b);
    let f = cbc_decrypt_block_fn::<C, B>(first, iv, schedule);
    let g = cbc_decrypt_block_fn::<C, B>(second, iv, schedule);
    let p = cbc_decrypt_blocks::<C, B>(first, iv, schedule);
    let q = cbc_decrypt_blocks::<C, B>(second, iv, schedule);
    assert forall|j: int| 0 <= j < n implies (#[trigger] f(j)).len() == b by {
        lemma_cbc_plain_length::<C, B>(first, iv, schedule, n, j);
    }
    assert forall|j: int| 0 <= j < n implies (#[trigger] g(j)).len() == b by {
        lemma_cbc_plain_length::<C, B>(second, iv, schedule, n, j);
    }
    lemma_join_blocks(f, n, b);
    lemma_join_blocks(g, n, b);
    assert forall|j: int| 0 <= j < n && j != i && j != i + 1 implies #[trigger] block_at(p, b, j)
        == block_at(q, b, j) by {
        assert(block_at(p, b, j) == f(j));
        assert(block_at(q, b, j) == g(j));
        if j > 0 {
            assert(block_at(first, b, j - 1) == block_at(second, b, j - 1));
        }
    }
    if i + 1 < n {
        let a1 = block_at(first, b, i);
        let a2 = block_at(second, b, i);
        let d = C::decrypt_block_spec(block_at(first, b, i + 1), schedule);
        assert(block_at(second, b, i + 1) == block_at(first, b, i + 1));
        lemma_block_in_range(first.len() as int, b, n as int, i);
        lemma_block_in_range(first.len() as int, b, n as int, i + 1);
        C::lemma_block_round_trip(block_at(first, b, i + 1), schedule);
        lemma_cbc_plain_length::<C, B>(first, iv, schedule, n, i + 1);
        lemma_cbc_plain_length::<C, B>(second, iv, schedule, n, i + 1);
        assert(f(i + 1) == xor_blocks(a1, d));
        assert(g(i + 1) == xor_blocks(a2, d));
        assert(block_at(p, b, i + 1) == f(i + 1));
        assert(block_at(q, b, i + 1) == g(i + 1));
        assert forall|k: int| 0 <= k < b implies a2[k] ^ d[k] == (a1[k] ^ d[k]) ^ (a1[k]
            ^ a2[k]) by {
            lemma_xor_difference(a1[k], a2[k], d[k]);
        }
        assert(xor_blocks(a2, d) =~= xor_blocks(xor_blocks(a1, d), xor_blocks(a1, a2)));
    }
    if block_at(first, b, i) != block_at(second, b, i) {
        let c1 = block_at(first, b, i);
        let c2 = block_at(second, b, i);
        let prev = cbc_previous(first, iv, b, i);
        if i > 0 {
            assert(block_at(first, b, i - 1) == block_at(second, b, i - 1));
        }
        assert(cbc_previous(second, iv, b, i) == prev);
        lemma_cbc_plain_length::<C, B>(first, iv, schedule, n, i);
        lemma_cbc_plain_length::<C, B>(second, iv, schedule, n, i);
        lemma_block_in_range(first.len() as int, b, n as int, i);
        let d1 = C::decrypt_block_spec(c1, schedule);
        let d2 = C::decrypt_block_spec(c2, schedule);
        C::lemma_block_round_trip(c1, schedule);
        C::lemma_block_round_trip(c2, schedule);
        assert(block_at(p, b, i) == f(i));
        assert(block_at(q, b, i) == g(i));
        if xor_blocks(prev, d1) == xor_blocks(prev, d2) {
            lemma_xor_blocks_cancel(prev, d1);
            lemma_xor_blocks_cancel(prev, d2);
            assert(d1 == d2);
            assert(c1 == c2);
        }
    }
}

} // verus!
