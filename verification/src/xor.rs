//! XOR of buffers with keys, and the measures on bytes that breaking a
//! repeating key starts from.
use vstd::prelude::*;

verus! {

/// Why the distances for a key size cannot be taken.
#[derive(Debug, Clone, Copy, PartialEq, Eq)]
pub enum KeySizeError {
    /// The number of blocks is zero or odd, so the blocks do not pair up.
    UnpairedBlocks { num_block: usize },
    /// `num_block` blocks of the key size do not fit into the buffer.
    NotEnoughData { key_size: usize, num_block: usize, len: usize },
}

/// Each byte of `value` XORed with `xor_key`.
pub open spec fn xor_with_byte(value: Seq<u8>, xor_key: u8) -> Seq<u8> {
    Seq::new(value.len(), |i: int| value[i] ^ xor_key)
}

/// The number of bits that are set among the lowest `n` bits of `value`.
pub open spec fn ones_below(value: u8, n: nat) -> nat
    decreases n,
{
    if n == 0 {
        0
    } else {
        ones_below(value, (n - 1) as nat) + ((value >> ((n - 1) as u8)) & 1) as nat
    }
}

/// The number of bits that are set in `value`.
pub open spec fn count_ones(value: u8) -> nat {
    ones_below(value, 8)
}

/// The Hamming distance of two buffers of equal length: the number of bits
/// in which they differ.
pub open spec fn hamming_distance(a: Seq<u8>, b: Seq<u8>) -> nat
    decreases a.len(),
{
    if a.len() == 0 {
        0
    } else {
        hamming_distance(a.drop_last(), b.drop_last()) + count_ones(a.last() ^ b.last())
    }
}

/// Chunk `i` of `data` for chunks of `size` bytes.
pub open spec fn chunk_at(data: Seq<u8>, size: int, i: int) -> Seq<u8> {
    data.subrange(i * size, i * size + size)
}

/// The Hamming distances of the pairs of neighbours among the first chunks
/// of `data`: entry `j` is the distance of chunk `2 j` and chunk `2 j + 1`.
pub open spec fn pair_distances(data: Seq<u8>, size: int, pairs: nat) -> Seq<nat> {
    Seq::new(
        pairs,
        |j: int| hamming_distance(chunk_at(data, size, 2 * j), chunk_at(data, size, 2 * j + 1)),
    )
}

/// Column `i` of `data` when it is laid out in rows of `size` bytes: byte
/// `i` of every whole row.
pub open spec fn column_at(data: Seq<u8>, size: int, i: int) -> Seq<u8> {
    Seq::new((data.len() as int / size) as nat, |j: int| data[j * size + i])
}

proof fn lemma_bit(value: u8, i: u8)
    by (bit_vector)
    requires
        i < 8,
    ensures
        (value >> i) & 1 <= 1,
{
}

/// A byte has at most eight bits set.
pub proof fn lemma_ones_bound(value: u8, n: nat)
    requires
        n <= 8,
    ensures
        ones_below(value, n) <= n,
    decreases n,
{
    if n > 0 {
        lemma_ones_bound(value, (n - 1) as nat);
        lemma_bit(value, (n - 1) as u8);
    }
}

/// Block `i` of `n` blocks of `size` bytes lies inside `n * size` bytes.
proof fn lemma_chunk_in_range(len: int, size: int, n: int, i: int)
    requires
        size >= 1,
        0 <= i < n,
        n * size <= len,
    ensures
        0 <= i * size,
        i * size + size <= len,
        (i + 1) * size == i * size + size,
{
    assert(0 <= i * size && i * size + size <= n * size && (i + 1) * size == i * size + size)
        by (nonlinear_arith)
        requires
            size >= 1,
            0 <= i < n,
    ;
}

/// XORs every byte of `value` with `xor_key`.
pub fn xor_slice_by_char(value: &[u8], xor_key: u8) -> (out: Vec<u8>)
    ensures
        out@ == xor_with_byte(value@, xor_key),
{
    let mut out: Vec<u8> = Vec::with_capacity(value.len());
    for i in 0..value.len()
        invariant
            out@ == xor_with_byte(value@.subrange(0, i as int), xor_key),
    {
        out.push(value[i] ^ xor_key);
        assert(out@ =~= xor_with_byte(value@.subrange(0, i + 1), xor_key));
    }
    assert(value@.subrange(0, value@.len() as int) =~= value@);
    out
}

fn count_1s_bit(value: u8) -> (ones: u8)
    ensures
        ones == count_ones(value),
{
    let mut ones: u8 = 0;
    for i in 0..8u8
        invariant
            ones == ones_below(value, i as nat),
            ones <= i,
    {
        proof {
            lemma_bit(value, i);
        }
        ones += (value >> i) & 1;
    }
    ones
}

/// The number of bits in which two buffers of equal length differ.
pub fn calculate_hamming_distance(value1: &[u8], value2: &[u8]) -> (distance: usize)
    requires
        value1@.len() == value2@.len(),
        8 * value1@.len() <= usize::MAX,
    ensures
        distance == hamming_distance(value1@, value2@),
{
    let mut distance: usize = 0;
    for i in 0..value1.len()
        invariant
            value1@.len() == value2@.len(),
            8 * value1@.len() <= usize::MAX,
            distance == hamming_distance(
                value1@.subrange(0, i as int),
                value2@.subrange(0, i as int),
            ),
            distance <= 8 * i,
    {
        let a = value1[i];
        let b = value2[i];
        proof {
            let x = value1@.subrange(0, i + 1);
            let y = value2@.subrange(0, i + 1);
            assert(x.drop_last() =~= value1@.subrange(0, i as int));
            assert(y.drop_last() =~= value2@.subrange(0, i as int));
            lemma_ones_bound(a ^ b, 8);
        }
        distance += count_1s_bit(a ^ b) as usize;
    }
    assert(value1@.subrange(0, value1@.len() as int) =~= value1@);
    assert(value2@.subrange(0, value2@.len() as int) =~= value2@);
    distance
}

/// The Hamming distances of the pairs of neighbours among the first
/// `num_block` chunks of `k_size` bytes of `data`. The number of chunks must
/// be even and not zero, and the chunks must fit into the buffer.
pub fn chunk_pair_distances(data: &[u8], k_size: usize, num_block: usize) -> (r: Result<
    Vec<usize>,
    KeySizeError,
>)
    requires
        k_size > 0,
        8 * data@.len() <= usize::MAX,
    ensures
        num_block == 0 || num_block % 2 != 0 ==> r == Err::<Vec<usize>, KeySizeError>(
            KeySizeError::UnpairedBlocks { num_block },
        ),
        num_block != 0 && num_block % 2 == 0 && k_size * num_block > data@.len() ==> r == Err::<
            Vec<usize>,
            KeySizeError,
        >(KeySizeError::NotEnoughData { key_size: k_size, num_block, len: data@.len() as usize }),
        num_block != 0 && num_block % 2 == 0 && k_size * num_block <= data@.len() ==> (r matches Ok(
            dist,
        ) && dist@.map_values(|d: usize| d as nat) == pair_distances(
            data@,
            k_size as int,
            (num_block / 2) as nat,
        )),
{
    if num_block == 0 || num_block % 2 != 0 {
        return Err(KeySizeError::UnpairedBlocks { num_block });
    }
    let fits = match k_size.checked_mul(num_block) {
        Some(total) => total <= data.len(),
        None => false,
    };
    if !fits {
        return Err(KeySizeError::NotEnoughData { key_size: k_size, num_block, len: data.len() });
    }
    let pairs = num_block / 2;
    let ghost want = pair_distances(data@, k_size as int, pairs as nat);
    assert(num_block * k_size == k_size * num_block && 0 * k_size == 0) by (nonlinear_arith);
    let mut dist: Vec<usize> = Vec::with_capacity(pairs);
    let mut start: usize = 0;
    for j in 0..pairs
        invariant
            k_size > 0,
            8 * data@.len() <= usize::MAX,
            num_block == 2 * pairs,
            num_block * k_size <= data@.len(),
            start == (2 * j) * k_size,
            want == pair_distances(data@, k_size as int, pairs as nat),
            dist@.len() == j,
            forall|i: int| 0 <= i < j ==> dist@[i] as nat == want[i],
    {
        proof {
            lemma_chunk_in_range(data@.len() as int, k_size as int, num_block as int, 2 * j);
            lemma_chunk_in_range(data@.len() as int, k_size as int, num_block as int, 2 * j + 1);
            assert((2 * (j + 1)) * k_size == (2 * j + 1) * k_size + k_size) by (nonlinear_arith);
        }
        let chunk1 = vstd::slice::slice_subrange(data, start, start + k_size);
        let chunk2 = vstd::slice::slice_subrange(data, start + k_size, start + 2 * k_size);
        dist.push(calculate_hamming_distance(chunk1, chunk2));
        start = start + 2 * k_size;
    }
    assert(dist@.map_values(|d: usize| d as nat) =~= want);
    Ok(dist)
}

/// The columns of `data` when it is laid out in rows of `key_size` bytes:
/// column `i` holds byte `i` of every whole row, one row after the other.
pub fn transpose_blocks(data: &[u8], key_size: usize) -> (columns: Vec<Vec<u8>>)
    requires
        key_size > 0,
    ensures
        columns@.len() == key_size,
        forall|i: int|
            0 <= i < key_size ==> (#[trigger] columns@[i])@ == column_at(
                data@,
                key_size as int,
                i,
            ),
{
    let rows = data.len() / key_size;
    assert(rows * key_size <= data@.len()) by (nonlinear_arith)
        requires
            rows == data@.len() as int / key_size as int,
            key_size > 0,
    ;
    let mut columns: Vec<Vec<u8>> = Vec::with_capacity(key_size);
    for i in 0..key_size
        invariant
            key_size > 0,
            rows == data@.len() / key_size as nat,
            rows * key_size <= data@.len(),
            data@.len() <= usize::MAX,
            columns@.len() == i,
            forall|k: int|
                0 <= k < i ==> (#[trigger] columns@[k])@ == column_at(data@, key_size as int, k),
    {
        let mut column: Vec<u8> = Vec::with_capacity(rows);
        for j in 0..rows
            invariant
                key_size > 0,
                i < key_size,
                rows * key_size <= data@.len(),
                data@.len() <= usize::MAX,
                column@.len() == j,
                forall|k: int| 0 <= k < j ==> column@[k] == data@[k * key_size + i],
        {
            proof {
                lemma_chunk_in_range(data@.len() as int, key_size as int, rows as int, j as int);
            }
            column.push(data[j * key_size + i]);
        }
        assert(column@ =~= column_at(data@, key_size as int, i as int));
        columns.push(column);
    }
    columns
}

} // verus!
