//! Fixed-width words read from and written to bytes.
//!
//! Results leave the device as 32-bit values laid out in the machine's byte
//! order. The library treats each value as its bit pattern (`u32`), so every
//! pattern, NaN and infinities of a float included, survives unchanged.
use vstd::prelude::*;

verus! {

/// Byte order of the words in a buffer.
#[derive(Clone, Copy, Debug, PartialEq, Eq, Structural)]
pub enum ByteOrder {
    Little,
    Big,
}

/// Width of one word in bytes.
pub const WORD_BYTES: usize = 4;

/// The word whose bytes, in the given order, are `b0 b1 b2 b3`.
pub open spec fn word_of(b0: u8, b1: u8, b2: u8, b3: u8, order: ByteOrder) -> u32 {
    match order {
        ByteOrder::Little => (b0 as u32) | ((b1 as u32) << 8u32) | ((b2 as u32) << 16u32) | ((b3 as u32) << 24u32),
        ByteOrder::Big => (b3 as u32) | ((b2 as u32) << 8u32) | ((b1 as u32) << 16u32) | ((b0 as u32) << 24u32),
    }
}

/// Bits `8 * k .. 8 * k + 8` of `w`, for `k` in `0..4`.
pub open spec fn lane(w: u32, k: int) -> u8 {
    if k == 0 {
        (w & 0xffu32) as u8
    } else if k == 1 {
        ((w >> 8u32) & 0xffu32) as u8
    } else if k == 2 {
        ((w >> 16u32) & 0xffu32) as u8
    } else {
        ((w >> 24u32) & 0xffu32) as u8
    }
}

/// Byte `j` (in `0..4`) of `w` as laid out in the given order.
pub open spec fn byte_of(w: u32, j: int, order: ByteOrder) -> u8 {
    match order {
        ByteOrder::Little => lane(w, j),
        ByteOrder::Big => lane(w, 3 - j),
    }
}

/// Word `i` of `bytes`.
pub open spec fn word_at(bytes: Seq<u8>, i: int, order: ByteOrder) -> u32 {
    word_of(bytes[4 * i], bytes[4 * i + 1], bytes[4 * i + 2], bytes[4 * i + 3], order)
}

/// The whole words of `bytes`, in order; a trailing partial word is left out.
pub open spec fn decoded(bytes: Seq<u8>, order: ByteOrder) -> Seq<u32> {
    Seq::new(bytes.len() / 4, |i: int| word_at(bytes, i, order))
}

/// The bytes of `words`, four per word, in order.
pub open spec fn encoded(words: Seq<u32>, order: ByteOrder) -> Seq<u8> {
    Seq::new(4 * words.len(), |k: int| byte_of(words[k / 4], k % 4, order))
}

proof fn lemma_word_of_bytes(w: u32, order: ByteOrder)
    ensures
        word_of(byte_of(w, 0, order), byte_of(w, 1, order), byte_of(w, 2, order), byte_of(w, 3, order), order) == w,
{
    let b0 = (w & 0xffu32) as u8;
    let b1 = ((w >> 8u32) & 0xffu32) as u8;
    let b2 = ((w >> 16u32) & 0xffu32) as u8;
    let b3 = ((w >> 24u32) & 0xffu32) as u8;
    assert((b0 as u32) | ((b1 as u32) << 8u32) | ((b2 as u32) << 16u32) | ((b3 as u32) << 24u32) == w) by (bit_vector)
        requires
            b0 == (w & 0xffu32) as u8,
            b1 == ((w >> 8u32) & 0xffu32) as u8,
            b2 == ((w >> 16u32) & 0xffu32) as u8,
            b3 == ((w >> 24u32) & 0xffu32) as u8,
    ;
}

proof fn lemma_bytes_of_word(b0: u8, b1: u8, b2: u8, b3: u8, order: ByteOrder)
    ensures
        byte_of(word_of(b0, b1, b2, b3, order), 0, order) == b0,
        byte_of(word_of(b0, b1, b2, b3, order), 1, order) == b1,
        byte_of(word_of(b0, b1, b2, b3, order), 2, order) == b2,
        byte_of(word_of(b0, b1, b2, b3, order), 3, order) == b3,
{
    let w = (b0 as u32) | ((b1 as u32) << 8u32) | ((b2 as u32) << 16u32) | ((b3 as u32) << 24u32);
    assert((w & 0xffu32) as u8 == b0 && ((w >> 8u32) & 0xffu32) as u8 == b1
        && ((w >> 16u32) & 0xffu32) as u8 == b2 && ((w >> 24u32) & 0xffu32) as u8 == b3) by (bit_vector)
        requires
            w == (b0 as u32) | ((b1 as u32) << 8u32) | ((b2 as u32) << 16u32) | ((b3 as u32) << 24u32),
    ;
    let v = (b3 as u32) | ((b2 as u32) << 8u32) | ((b1 as u32) << 16u32) | ((b0 as u32) << 24u32);
    assert((v & 0xffu32) as u8 == b3 && ((v >> 8u32) & 0xffu32) as u8 == b2
        && ((v >> 16u32) & 0xffu32) as u8 == b1 && ((v >> 24u32) & 0xffu32) as u8 == b0) by (bit_vector)
        requires
            v == (b3 as u32) | ((b2 as u32) << 8u32) | ((b1 as u32) << 16u32) | ((b0 as u32) << 24u32),
    ;
}

/// Decoding the encoding of any words gives the same words back, bit for bit.
pub proof fn lemma_decode_encode(words: Seq<u32>, order: ByteOrder)
    ensures
        decoded(encoded(words, order), order) == words,
{
    let bytes = encoded(words, order);
    assert forall|i: int| 0 <= i < words.len() implies #[trigger] word_at(bytes, i, order) == words[i] by {
        assert((4 * i) / 4 == i && (4 * i + 1) / 4 == i && (4 * i + 2) / 4 == i && (4 * i + 3) / 4 == i) by (nonlinear_arith)
            requires 0 <= i;
        assert((4 * i) % 4 == 0 && (4 * i + 1) % 4 == 1 && (4 * i + 2) % 4 == 2 && (4 * i + 3) % 4 == 3) by (nonlinear_arith)
            requires 0 <= i;
        assert(4 * i + 3 < 4 * words.len()) by (nonlinear_arith)
            requires 0 <= i < words.len();
        lemma_word_of_bytes(words[i], order);
    }
    assert(decoded(bytes, order) =~= words);
}

/// Encoding the decoding of bytes that hold whole words gives the same bytes back.
pub proof fn lemma_encode_decode(bytes: Seq<u8>, order: ByteOrder)
    requires
        bytes.len() % 4 == 0,
    ensures
        encoded(decoded(bytes, order), order) == bytes,
{
    let words = decoded(bytes, order);
    assert forall|k: int| 0 <= k < bytes.len() implies #[trigger] encoded(words, order)[k] == bytes[k] by {
        let i = k / 4;
        let j = k % 4;
        assert(k == 4 * i + j && 0 <= j < 4 && 0 <= i < bytes.len() / 4);
        lemma_bytes_of_word(bytes[4 * i], bytes[4 * i + 1], bytes[4 * i + 2], bytes[4 * i + 3], order);
    }
    assert(encoded(words, order) =~= bytes);
}

/// The whole words of `bytes` in the given order: `len / 4` of them, a
/// trailing partial word left out.
pub fn decode_words(bytes: &[u8], order: ByteOrder) -> (r: Vec<u32>)
    ensures
        r@ == decoded(bytes@, order),
        r@.len() == bytes@.len() / 4,
{
    let n: usize = bytes.len() / WORD_BYTES;
    let mut out: Vec<u32> = Vec::with_capacity(n);
    let mut i: usize = 0;
    while i < n
        invariant
            n == bytes@.len() / 4,
            4 * n <= bytes@.len(),
            bytes@.len() == bytes.len(),
            i <= n,
            out@ =~= decoded(bytes@, order).take(i as int),
        decreases n - i,
    {
        let k: usize = 4 * i;
        let b0 = bytes[k];
        let b1 = bytes[k + 1];
        let b2 = bytes[k + 2];
        let b3 = bytes[k + 3];
        let w: u32 = match order {
            ByteOrder::Little => (b0 as u32) | ((b1 as u32) << 8u32) | ((b2 as u32) << 16u32) | ((b3 as u32) << 24u32),
            ByteOrder::Big => (b3 as u32) | ((b2 as u32) << 8u32) | ((b1 as u32) << 16u32) | ((b0 as u32) << 24u32),
        };
        out.push(w);
        i = i + 1;
        assert(out@ =~= decoded(bytes@, order).take(i as int));
    }
    out
}

/// The bytes of `words` in the given order, four per word.
pub fn encode_words(words: &[u32], order: ByteOrder) -> (r: Vec<u8>)
    requires
        4 * words@.len() <= usize::MAX,
    ensures
        r@ == encoded(words@, order),
{
    let mut out: Vec<u8> = Vec::with_capacity(4 * words.len());
    let mut i: usize = 0;
    while i < words.len()
        invariant
            4 * words@.len() <= usize::MAX,
            i <= words@.len(),
            out@ =~= encoded(words@, order).take(4 * i),
        decreases words@.len() - i,
    {
        let w = words[i];
        let l0 = (w & 0xffu32) as u8;
        let l1 = ((w >> 8u32) & 0xffu32) as u8;
        let l2 = ((w >> 16u32) & 0xffu32) as u8;
        let l3 = ((w >> 24u32) & 0xffu32) as u8;
        match order {
            ByteOrder::Little => {
                out.push(l0);
                out.push(l1);
                out.push(l2);
                out.push(l3);
            },
            ByteOrder::Big => {
                out.push(l3);
                out.push(l2);
                out.push(l1);
                out.push(l0);
            },
        }
        proof {
            let e = encoded(words@, order);
            assert forall|j: int| 4 * i <= j < 4 * i + 4 implies #[trigger] e[j] == byte_of(w, j - 4 * i, order) by {
                assert(j / 4 == i as int && j % 4 == j - 4 * i);
            }
        }
        i = i + 1;
        assert(out@ =~= encoded(words@, order).take(4 * i));
    }
    assert(encoded(words@, order).take(4 * words@.len() as int) =~= encoded(words@, order));
    out
}

/// Relies on bytemuck::cast_slice from `u32` to `u8`: the words' own memory
/// read as bytes, four per word in the machine's byte order, little or big.
#[verifier::external_body]
fn native_bytes(words: &[u32]) -> (r: Vec<u8>)
    ensures
        r@ == encoded(words@, ByteOrder::Little) || r@ == encoded(words@, ByteOrder::Big),
{
    bytemuck::cast_slice::<u32, u8>(words).to_vec()
}

/// The bytes that a device buffer of `count` zero words starts with: all
/// zero, whatever the machine's byte order.
pub fn zeroed_words_bytes(count: usize) -> (r: Vec<u8>)
    requires
        count <= usize::MAX / 4,
    ensures
        r@ == Seq::new(4 * count as nat, |_k: int| 0u8),
{
    let mut words: Vec<u32> = Vec::with_capacity(count);
    let mut i: usize = 0;
    while i < count
        invariant
            i <= count,
            words@ == Seq::new(i as nat, |_k: int| 0u32),
        decreases count - i,
    {
        words.push(0u32);
        i = i + 1;
        assert(words@ =~= Seq::new(i as nat, |_k: int| 0u32));
    }
    let r = native_bytes(words.as_slice());
    proof {
        let z: u32 = 0;
        assert((z & 0xffu32) as u8 == 0u8 && ((z >> 8u32) & 0xffu32) as u8 == 0u8
            && ((z >> 16u32) & 0xffu32) as u8 == 0u8 && ((z >> 24u32) & 0xffu32) as u8 == 0u8) by (bit_vector)
            requires z == 0u32;
        assert(r@ =~= Seq::new(4 * count as nat, |_k: int| 0u8));
    }
    r
}

} // verus!
