//! Moving byte buffers into and out of arrays of 32-bit hardware registers.
//!
//! Bytes are packed into words in buffer order, the first byte of each group of
//! four going to the least significant position; any reordering is done by the
//! hardware according to its own endianness configuration.
use vstd::prelude::*;

verus! {

/// Width in bytes of one hardware register word.
pub const ALIGN_SIZE: usize = 4;

/// The word made of four bytes, `b0` in the least significant position.
pub open spec fn word_of(b0: u8, b1: u8, b2: u8, b3: u8) -> u32 {
    (b0 as u32) | ((b1 as u32) << 8u32) | ((b2 as u32) << 16u32) | ((b3 as u32) << 24u32)
}

/// Byte `k` (0 to 3, least significant first) of a word.
pub open spec fn byte_of(w: u32, k: u32) -> u8 {
    ((w >> (8 * k)) & 0xffu32) as u8
}

/// The `i`-th word that a byte buffer packs into.
pub open spec fn packed_word(data: Seq<u8>, i: int) -> u32 {
    word_of(data[4 * i], data[4 * i + 1], data[4 * i + 2], data[4 * i + 3])
}

/// A register array after `data` has been written to its start: the first
/// `data.len() / 4` words hold the packed bytes, the rest are untouched.
pub open spec fn written_words(regs: Seq<u32>, data: Seq<u8>) -> Seq<u32> {
    Seq::new(
        regs.len(),
        |i: int|
            if i < data.len() / 4 {
                packed_word(data, i)
            } else {
                regs[i]
            },
    )
}

/// The first `n` bytes that a register array holds, in buffer order.
pub open spec fn read_bytes(regs: Seq<u32>, n: nat) -> Seq<u8> {
    Seq::new(n, |i: int| byte_of(regs[i / 4], (i % 4) as u32))
}

/// A buffer length that a transfer over `word_count` words accepts: whole words,
/// and no more of them than there are registers.
pub open spec fn fits_words(len: nat, word_count: nat) -> bool {
    len % 4 == 0 && len <= word_count * 4
}

/// Each byte of a packed word reads back as the byte that was packed.
pub proof fn lemma_word_bytes(b0: u8, b1: u8, b2: u8, b3: u8)
    ensures
        byte_of(word_of(b0, b1, b2, b3), 0) == b0,
        byte_of(word_of(b0, b1, b2, b3), 1) == b1,
        byte_of(word_of(b0, b1, b2, b3), 2) == b2,
        byte_of(word_of(b0, b1, b2, b3), 3) == b3,
{
    let (x0, x1, x2, x3) = (b0 as u32, b1 as u32, b2 as u32, b3 as u32);
    assert(x0 < 256 && x1 < 256 && x2 < 256 && x3 < 256);
    assert(((x0 | (x1 << 8u32) | (x2 << 16u32) | (x3 << 24u32)) >> 0u32) & 0xffu32 == x0)
        by (bit_vector)
        requires x0 < 256u32 && x1 < 256u32 && x2 < 256u32 && x3 < 256u32;
    assert(((x0 | (x1 << 8u32) | (x2 << 16u32) | (x3 << 24u32)) >> 8u32) & 0xffu32 == x1)
        by (bit_vector)
        requires x0 < 256u32 && x1 < 256u32 && x2 < 256u32 && x3 < 256u32;
    assert(((x0 | (x1 << 8u32) | (x2 << 16u32) | (x3 << 24u32)) >> 16u32) & 0xffu32 == x2)
        by (bit_vector)
        requires x0 < 256u32 && x1 < 256u32 && x2 < 256u32 && x3 < 256u32;
    assert(((x0 | (x1 << 8u32) | (x2 << 16u32) | (x3 << 24u32)) >> 24u32) & 0xffu32 == x3)
        by (bit_vector)
        requires x0 < 256u32 && x1 < 256u32 && x2 < 256u32 && x3 < 256u32;
}

/// Writing a buffer of whole words into a register array and reading back as
/// many bytes gives the same buffer.
pub proof fn lemma_write_read_round_trip(regs: Seq<u32>, data: Seq<u8>, word_count: nat)
    requires
        fits_words(data.len(), word_count),
        word_count <= regs.len(),
    ensures
        read_bytes(written_words(regs, data), data.len()) =~= data,
{
    let w = written_words(regs, data);
    assert forall|i: int| 0 <= i < data.len() implies #[trigger] read_bytes(w, data.len())[i]
        == data[i] by {
        let j = i / 4;
        assert(4 * j + 3 < data.len());
        lemma_word_bytes(data[4 * j], data[4 * j + 1], data[4 * j + 2], data[4 * j + 3]);
        assert(w[j] == packed_word(data, j));
    }
}

/// Writes `data` into the first `data.len() / 4` of `word_count` registers of
/// `dst`, packing each group of four bytes in buffer order.
pub fn write_words(dst: &mut Vec<u32>, data: &[u8], word_count: usize)
    requires
        fits_words(data@.len(), word_count as nat),
        word_count <= old(dst)@.len(),
    ensures
        final(dst)@ == written_words(old(dst)@, data@),
{
    let words = data.len() / ALIGN_SIZE;
    let mut i: usize = 0;
    while i < words
        invariant
            words == data@.len() / 4,
            data@.len() % 4 == 0,
            4 * words == data@.len(),
            data@.len() <= usize::MAX,
            i <= words,
            dst@.len() == old(dst)@.len(),
            words <= dst@.len(),
            forall|j: int| 0 <= j < i ==> dst@[j] == packed_word(data@, j),
            forall|j: int| i <= j < dst@.len() ==> dst@[j] == old(dst)@[j],
        decreases words - i,
    {
        let k = 4 * i;
        let w: u32 = (data[k] as u32) | ((data[k + 1] as u32) << 8u32) | ((data[k + 2] as u32)
            << 16u32) | ((data[k + 3] as u32) << 24u32);
        dst.set(i, w);
        i = i + 1;
    }
    assert(dst@ =~= written_words(old(dst)@, data@));
}

/// Fills `out` from the registers of `src`, unpacking each of the first
/// `out.len() / 4` of `word_count` words into four bytes in buffer order.
pub fn read_words(src: &Vec<u32>, out: &mut [u8], word_count: usize)
    requires
        fits_words(old(out)@.len(), word_count as nat),
        word_count <= src@.len(),
    ensures
        final(out)@ == read_bytes(src@, old(out)@.len()),
{
    let n = out.len();
    let mut i: usize = 0;
    while i < n
        invariant
            n == out@.len(),
            n == old(out)@.len(),
            n % 4 == 0,
            n <= src@.len() * 4,
            i % 4 == 0,
            i <= n,
            forall|j: int| 0 <= j < i ==> out@[j] == byte_of(src@[j / 4], (j % 4) as u32),
        decreases n - i,
    {
        let w = src[i / 4];
        out[i] = (w & 0xffu32) as u8;
        out[i + 1] = ((w >> 8u32) & 0xffu32) as u8;
        out[i + 2] = ((w >> 16u32) & 0xffu32) as u8;
        out[i + 3] = ((w >> 24u32) & 0xffu32) as u8;
        assert(w >> 0u32 == w) by (bit_vector);
        i = i + 4;
    }
    assert(out@ =~= read_bytes(src@, n as nat));
}

} // verus!
