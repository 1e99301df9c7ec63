//! Repeating-key XOR, and the count of repeated chunks by which a
//! ciphertext of a codebook mode gives itself away.
use vstd::prelude::*;
use vstd::relations::{sorted_by, total_ordering};
use vstd::seq_lib::{lemma_sorted_unique, to_multiset_insert};
use crate::hex::Hex;
use crate::xor::chunk_at;

verus! {

/// `value` XORed with `key`, where the key is repeated as often as needed.
pub open spec fn repeating_xor(value: Seq<u8>, key: Seq<u8>) -> Seq<u8> {
    Seq::new(value.len(), |i: int| value[i] ^ key[i % (key.len() as int)])
}

/// The number of chunks among the first `m` that are equal to chunk `i`.
pub open spec fn same_chunks_below(data: Seq<u8>, size: int, i: int, m: nat) -> nat
    decreases m,
{
    if m == 0 {
        0
    } else {
        same_chunks_below(data, size, i, (m - 1) as nat) + if chunk_at(data, size, m - 1)
            == chunk_at(data, size, i) {
            1nat
        } else {
            0nat
        }
    }
}

/// The number of whole chunks of `size` bytes in `data`.
pub open spec fn chunk_count(data: Seq<u8>, size: int) -> nat {
    (data.len() as int / size) as nat
}

/// How often the chunks occur that occur more than once: for each chunk
/// among the first `m` that stands where its content stands for the first
/// time, and whose content is found again somewhere in the buffer, the
/// number of chunks with that content.
pub open spec fn repeat_counts(data: Seq<u8>, size: int, m: nat) -> Seq<usize>
    decreases m,
{
    if m == 0 {
        Seq::empty()
    } else {
        let rest = repeat_counts(data, size, (m - 1) as nat);
        let total = same_chunks_below(data, size, m - 1, chunk_count(data, size));
        if same_chunks_below(data, size, m - 1, (m - 1) as nat) == 0 && total != 1 {
            rest.push(total as usize)
        } else {
            rest
        }
    }
}

/// The order from the largest to the smallest.
pub open spec fn descending() -> spec_fn(usize, usize) -> bool {
    |a: usize, b: usize| a >= b
}

/// The counts of the repeated chunks of `data`, the largest first.
pub open spec fn same_chunks_spec(data: Seq<u8>, size: int) -> Seq<usize> {
    repeat_counts(data, size, chunk_count(data, size)).sort_by(descending())
}

/// The sum of the entries of `s`.
pub open spec fn sum_of(s: Seq<usize>) -> int
    decreases s.len(),
{
    if s.len() == 0 {
        0
    } else {
        sum_of(s.drop_last()) + s.last()
    }
}

/// The mean of the counts of the repeated chunks of `size` bytes, rounded
/// down, and zero where no chunk is repeated.
pub open spec fn mean_repeat(data: Seq<u8>, size: int) -> int {
    let same = same_chunks_spec(data, size);
    if same.len() == 0 {
        0
    } else {
        sum_of(same) / (same.len() as int)
    }
}

/// The larger of two numbers.
pub open spec fn larger(a: int, b: int) -> int {
    if a >= b {
        a
    } else {
        b
    }
}

/// The largest of the means of the repeat counts for chunks of 16, 24 and
/// 36 bytes.
pub open spec fn ecb_score(data: Seq<u8>) -> int {
    larger(larger(larger(0, mean_repeat(data, 16)), mean_repeat(data, 24)), mean_repeat(data, 36))
}

/// A count of equal chunks is at most the number of chunks counted.
pub proof fn lemma_same_chunks_bound(data: Seq<u8>, size: int, i: int, m: nat)
    ensures
        same_chunks_below(data, size, i, m) <= m,
        0 <= i < m ==> same_chunks_below(data, size, i, m) >= 1,
    decreases m,
{
    if m > 0 {
        lemma_same_chunks_bound(data, size, i, (m - 1) as nat);
    }
}

/// There are at most as many repeat counts as chunks looked at, and none is
/// larger than the number of chunks.
pub proof fn lemma_repeat_counts_bound(data: Seq<u8>, size: int, m: nat)
    requires
        chunk_count(data, size) <= usize::MAX,
    ensures
        repeat_counts(data, size, m).len() <= m,
        forall|k: int|
            0 <= k < repeat_counts(data, size, m).len() ==> #[trigger] repeat_counts(
                data,
                size,
                m,
            )[k] <= chunk_count(data, size),
    decreases m,
{
    if m > 0 {
        lemma_repeat_counts_bound(data, size, (m - 1) as nat);
        lemma_same_chunks_bound(data, size, m - 1, chunk_count(data, size));
    }
}

/// The order from the largest to the smallest is a total order.
pub proof fn lemma_descending_is_total()
    ensures
        total_ordering(descending()),
{
    let leq = descending();
    assert(vstd::relations::reflexive(leq));
    assert(vstd::relations::antisymmetric(leq));
    assert(vstd::relations::transitive(leq));
    assert(vstd::relations::strongly_connected(leq));
}

/// Block `i` of `n` blocks of `size` bytes lies inside `n * size` bytes.
proof fn lemma_chunk_bounds(len: int, size: int, i: int)
    requires
        size >= 1,
        0 <= i < len / size,
    ensures
        0 <= i * size,
        i * size + size <= len,
{
    assert(0 <= i * size && i * size + size <= len) by (nonlinear_arith)
        requires
            size >= 1,
            0 <= i < len / size,
    ;
}

/// XORs `value` with `key`, which is repeated as often as needed and must
/// not be empty.
pub fn repeating_key_xor(value: &[u8], key: &[u8]) -> (out: Hex)
    requires
        key@.len() > 0,
    ensures
        out.0@ == repeating_xor(value@, key@),
{
    let keys = key;
    let keys_count = keys.len();

    let mut bytes: Vec<u8> = Vec::with_capacity(value.len());
    for i in 0..value.len()
        invariant
            keys@ == key@,
            keys_count == key@.len(),
            keys_count > 0,
            bytes@.len() == i,
            forall|k: int| 0 <= k < i ==> bytes@[k] == value@[k] ^ key@[k % (key@.len() as int)],
    {
        bytes.push(value[i] ^ keys[i % keys_count]);
    }
    assert(bytes@ =~= repeating_xor(value@, key@));
    Hex(bytes)
}

/// Tells whether chunk `i` and chunk `j` of `data` hold the same bytes.
fn same_chunk(data: &[u8], chunk_size: usize, i: usize, j: usize) -> (same: bool)
    requires
        chunk_size > 0,
        i < data@.len() / chunk_size as nat,
        j < data@.len() / chunk_size as nat,
    ensures
        same == (chunk_at(data@, chunk_size as int, i as int) == chunk_at(
            data@,
            chunk_size as int,
            j as int,
        )),
{
    let len = data.len();
    proof {
        lemma_chunk_bounds(len as int, chunk_size as int, i as int);
        lemma_chunk_bounds(len as int, chunk_size as int, j as int);
    }
    let a = vstd::slice::slice_subrange(data, i * chunk_size, i * chunk_size + chunk_size);
    let b = vstd::slice::slice_subrange(data, j * chunk_size, j * chunk_size + chunk_size);
    for k in 0..chunk_size
        invariant
            a@ == chunk_at(data@, chunk_size as int, i as int),
            b@ == chunk_at(data@, chunk_size as int, j as int),
            a@.len() == chunk_size,
            b@.len() == chunk_size,
            forall|t: int| 0 <= t < k ==> a@[t] == b@[t],
    {
        if a[k] != b[k] {
            return false;
        }
    }
    assert(a@ =~= b@);
    true
}

/// Counts the chunks among the first `m` that are equal to chunk `i`.
fn count_same(data: &[u8], chunk_size: usize, i: usize, m: usize) -> (count: usize)
    requires
        chunk_size > 0,
        i < data@.len() / chunk_size as nat,
        m <= data@.len() / chunk_size as nat,
    ensures
        count == same_chunks_below(data@, chunk_size as int, i as int, m as nat),
{
    let mut count: usize = 0;
    for j in 0..m
        invariant
            chunk_size > 0,
            i < data@.len() / chunk_size as nat,
            m <= data@.len() / chunk_size as nat,
            count == same_chunks_below(data@, chunk_size as int, i as int, j as nat),
            count <= j,
    {
        if same_chunk(data, chunk_size, j, i) {
            count += 1;
        }
    }
    count
}

/// Puts `value` into `values`, which are in order from the largest to the
/// smallest, at a place that keeps them so.
fn insert_descending(values: &mut Vec<usize>, value: usize)
    requires
        sorted_by(old(values)@, descending()),
    ensures
        sorted_by(final(values)@, descending()),
        final(values)@.to_multiset() == old(values)@.to_multiset().insert(value),
        final(values)@.len() == old(values)@.len() + 1,
{
    let mut at: usize = 0;
    while at < values.len() && values[at] >= value
        invariant
            at <= values@.len(),
            values@ == old(values)@,
            forall|k: int| 0 <= k < at ==> values@[k] >= value,
        decreases values@.len() - at,
    {
        at += 1;
    }
    let ghost before = values@;
    proof {
        to_multiset_insert(before, at as int, value);
    }
    values.insert(at, value);
    assert forall|a: int, b: int| 0 <= a < b < values@.len() implies #[trigger] descending()(
        values@[a],
        values@[b],
    ) by {
        if b < at {
            assert(descending()(before[a], before[b]));
        } else if b == at {
        } else if a < at {
            assert(descending()(before[a], before[b - 1]));
        } else if a == at {
            assert(descending()(before[at as int], before[b - 1]) || at as int == b - 1);
        } else {
            assert(descending()(before[a - 1], before[b - 1]));
        }
    }
}

/// Counts how often each repeated chunk of `chunk_size` bytes occurs in
/// `data`: one count for each content that occurs more than once, the
/// largest count first.
pub fn find_same_chunks(data: &[u8], chunk_size: usize) -> (values: Vec<usize>)
    requires
        chunk_size > 0,
    ensures
        values@ == same_chunks_spec(data@, chunk_size as int),
        values@.len() <= chunk_count(data@, chunk_size as int),
        forall|k: int|
            0 <= k < values@.len() ==> #[trigger] values@[k] <= chunk_count(
                data@,
                chunk_size as int,
            ),
{
    let n = data.len() / chunk_size;
    let ghost size = chunk_size as int;
    let mut values: Vec<usize> = Vec::new();
    for i in 0..n
        invariant
            chunk_size > 0,
            size == chunk_size as int,
            n == chunk_count(data@, size),
            sorted_by(values@, descending()),
            values@.to_multiset() == repeat_counts(data@, size, i as nat).to_multiset(),
            values@.len() == repeat_counts(data@, size, i as nat).len(),
    {
        let ghost counted = repeat_counts(data@, size, i as nat);
        if count_same(data, chunk_size, i, i) == 0 {
            let total = count_same(data, chunk_size, i, n);
            if total != 1 {
                proof {
                    vstd::seq_lib::to_multiset_build(counted, total);
                }
                insert_descending(&mut values, total);
            }
        }
    }
    proof {
        let counted = repeat_counts(data@, size, n as nat);
        lemma_descending_is_total();
        counted.lemma_sort_by_ensures(descending());
        lemma_sorted_unique(values@, counted.sort_by(descending()), descending());
        lemma_repeat_counts_bound(data@, size, n as nat);
        vstd::seq_lib::to_multiset_len(counted);
        vstd::seq_lib::to_multiset_len(values@);
        assert forall|k: int| 0 <= k < values@.len() implies #[trigger] values@[k] <= n by {
            vstd::seq_lib::to_multiset_contains(values@, values@[k]);
            vstd::seq_lib::to_multiset_contains(counted, values@[k]);
            assert(values@.contains(values@[k]));
            assert(counted.contains(values@[k]));
        }
    }
    values
}

/// The mean of the counts in `same`, rounded down, and zero where there is
/// none.
fn mean_of(same: &Vec<usize>) -> (mean: usize)
    ensures
        same@.len() == 0 ==> mean == 0,
        same@.len() > 0 ==> mean == sum_of(same@) / (same@.len() as int),
{
    let same_len = same.len();
    if same_len == 0 {
        return 0;
    }
    let mut sum: u128 = 0;
    for k in 0..same_len
        invariant
            same_len == same@.len(),
            sum == sum_of(same@.subrange(0, k as int)),
            sum <= k * usize::MAX,
    {
        proof {
            assert(same@.subrange(0, k + 1).drop_last() =~= same@.subrange(0, k as int));
            assert((k + 1) * usize::MAX == k * usize::MAX + usize::MAX) by (nonlinear_arith);
            assert(k * usize::MAX + usize::MAX <= u128::MAX) by (nonlinear_arith)
                requires
                    k < usize::MAX,
                    usize::MAX <= 0xffff_ffff_ffff_ffff,
            ;
        }
        sum = sum + same[k] as u128;
    }
    assert(same@.subrange(0, same_len as int) =~= same@);
    let mean = sum / (same_len as u128);
    assert(mean <= usize::MAX) by (nonlinear_arith)
        requires
            mean == sum / (same_len as u128),
            sum <= same_len * usize::MAX,
            same_len > 0,
    ;
    mean as usize
}

/// Scores how much `data` looks like the output of a codebook mode: the
/// largest mean count of repeated chunks, over chunks of 16, 24 and 36
/// bytes.
pub fn score_aes_ecb_data(data: &[u8]) -> (score: usize)
    ensures
        score == ecb_score(data@),
{
    let mut max_score: usize = 0;
    let sizes: [usize; 3] = [16usize, 24, 36];
    for t in 0..3usize
        invariant
            sizes@ == seq![16usize, 24, 36],
            t == 0 ==> max_score == 0,
            t == 1 ==> max_score == larger(0, mean_repeat(data@, 16)),
            t == 2 ==> max_score == larger(
                larger(0, mean_repeat(data@, 16)),
                mean_repeat(data@, 24),
            ),
            t == 3 ==> max_score == ecb_score(data@),
    {
        let k = sizes[t];
        let same = find_same_chunks(data, k);
        let mean = mean_of(&same);
        if mean > max_score {
            max_score = mean;
        }
    }
    max_score
}

} // verus!
