//! Padding of a buffer to a whole number of blocks.
use vstd::prelude::*;

verus! {

/// A reversible way to bring a buffer to a multiple of a block size.
pub trait CipherPadding {
    /// The buffer with its padding for blocks of `block` bytes.
    spec fn pad_spec(data: Seq<u8>, block: int) -> Seq<u8>;

    /// The buffer without its padding.
    spec fn unpad_spec(data: Seq<u8>) -> Seq<u8>;

    /// Padding appends at least one byte and at most a whole block, brings
    /// the length to a multiple of the block size, and is undone by
    /// [`unpad_spec`](CipherPadding::unpad_spec).
    proof fn lemma_pad_round_trip(data: Seq<u8>, block: int)
        requires
            1 <= block <= 255,
        ensures
            data.len() < Self::pad_spec(data, block).len() <= data.len() + block,
            Self::pad_spec(data, block).len() % (block as nat) == 0,
            Self::pad_spec(data, block).subrange(0, data.len() as int) == data,
            Self::unpad_spec(Self::pad_spec(data, block)) == data,
    ;

    /// Pads `data` for blocks of `B` bytes.
    fn add_pad<const B: usize>(data: Vec<u8>) -> (padded: Vec<u8>)
        requires
            1 <= B <= 255,
        ensures
            padded@ == Self::pad_spec(data@, B as int),
    ;

    /// Strips the padding from `data`.
    fn remove_pad<const B: usize>(data: Vec<u8>) -> (stripped: Vec<u8>)
        ensures
            stripped@ == Self::unpad_spec(data@),
    ;
}

/// PKCS#7 padding: `n` bytes of value `n` are appended, with `n` between one
/// and the block size.
pub struct PKCS7Padding;

/// The number of bytes that PKCS#7 appends to `len` bytes for blocks of
/// `block` bytes: what is missing to the next multiple, and a whole block
/// where nothing is missing.
pub open spec fn pkcs7_pad_len(len: nat, block: int) -> int {
    block - (len as int) % block
}

/// `data` with its PKCS#7 padding.
pub open spec fn pkcs7_pad(data: Seq<u8>, block: int) -> Seq<u8> {
    let n = pkcs7_pad_len(data.len(), block);
    data + Seq::new(n as nat, |i: int| n as u8)
}

/// `data` without the bytes that its last byte counts: the last byte is
/// read as the length of the padding, and that many bytes are cut off the
/// end, or all of them where it counts more than there are. The padding
/// bytes themselves are not checked.
pub open spec fn pkcs7_unpad(data: Seq<u8>) -> Seq<u8> {
    if data.len() == 0 {
        data
    } else if data.last() as int > data.len() {
        Seq::empty()
    } else {
        data.subrange(0, data.len() - data.last() as int)
    }
}

impl CipherPadding for PKCS7Padding {
    open spec fn pad_spec(data: Seq<u8>, block: int) -> Seq<u8> {
        pkcs7_pad(data, block)
    }

    open spec fn unpad_spec(data: Seq<u8>) -> Seq<u8> {
        pkcs7_unpad(data)
    }

    proof fn lemma_pad_round_trip(data: Seq<u8>, block: int) {
        let n = pkcs7_pad_len(data.len(), block);
        let padded = pkcs7_pad(data, block);
        assert(1 <= n <= block);
        assert(padded.len() == data.len() + n);
        assert((data.len() + n) % block == 0) by (nonlinear_arith)
            requires
                n == block - (data.len() as int) % block,
                block >= 1,
        ;
        assert(padded.last() == n as u8);
        assert(padded.subrange(0, data.len() as int) =~= data);
        assert(pkcs7_unpad(padded) =~= data);
    }

    fn add_pad<const B: usize>(data: Vec<u8>) -> (padded: Vec<u8>) {
        let mut data = data;
        let l = data.len();
        let ghost orig = data@;
        let pad = B - (l % B);
        let mut padding = vec![pad as u8; pad];
        data.append(&mut padding);
        assert(data@ =~= pkcs7_pad(orig, B as int));
        data
    }

    fn remove_pad<const B: usize>(data: Vec<u8>) -> (stripped: Vec<u8>) {
        let mut data = data;
        let ghost orig = data@;
        let padding_len = if data.len() == 0 {
            usize::MAX
        } else {
            data[data.len() - 1] as usize
        };
        let new_len = if padding_len > data.len() {
            0
        } else {
            data.len() - padding_len
        };
        data.truncate(new_len);
        assert(data@ =~= pkcs7_unpad(orig));
        data
    }
}

/// A buffer whose length is a multiple of the block size gains a whole
/// block of padding, and no buffer gains none.
pub proof fn lemma_pkcs7_full_block(data: Seq<u8>, block: int)
    requires
        1 <= block <= 255,
    ensures
        pkcs7_pad(data, block).len() > data.len(),
        (data.len() as int) % block == 0 ==> pkcs7_pad(data, block).len() == data.len() + block,
        forall|i: int|
            data.len() <= i < pkcs7_pad(data, block).len() ==> pkcs7_pad(data, block)[i]
                == pkcs7_pad(data, block).len() - data.len(),
{
}

/// Stripping the padding that was added gives the buffer back.
pub proof fn lemma_pkcs7_round_trip(data: Seq<u8>, block: int)
    requires
        1 <= block <= 255,
    ensures
        pkcs7_unpad(pkcs7_pad(data, block)) == data,
{
    PKCS7Padding::lemma_pad_round_trip(data, block);
}

} // verus!
