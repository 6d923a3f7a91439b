//! The byte stream that a run of generated words spells out.

use crate::xorshift::nth_seed;
use vstd::endian::{endianness, Endian};
use vstd::math::min;
use vstd::prelude::*;

verus! {

/// The eight bytes of `word`, least significant first.
pub open spec fn le_bytes(word: u64) -> Seq<u8> {
    Seq::new(8, |i: int| (word >> ((8 * i) as u64)) as u8)
}

/// The eight bytes of `word`, most significant first.
pub open spec fn be_bytes(word: u64) -> Seq<u8> {
    Seq::new(8, |i: int| (word >> ((8 * (7 - i)) as u64)) as u8)
}

/// The eight bytes of `word` as the machine keeps them in memory: least
/// significant first or most significant first, as `endianness()` of vstd
/// has it for the machine that runs the code.
pub open spec fn ne_bytes(word: u64) -> Seq<u8> {
    match endianness() {
        Endian::Little => le_bytes(word),
        Endian::Big => be_bytes(word),
    }
}

/// The number of words that `len` bytes take: one for each chunk of eight
/// bytes, and one more for a shorter chunk at the end.
pub open spec fn words_for(len: nat) -> nat {
    (len + 7) / 8
}

/// Byte `i` of the stream that starts at `seed`. Word `k` of the stream is
/// the seed after `k + 1` rounds, and it supplies bytes `8k` to `8k + 7`.
pub open spec fn stream_byte(seed: u64, i: int) -> u8 {
    ne_bytes(nth_seed(seed, (i / 8 + 1) as nat))[i % 8]
}

/// The first `len` bytes of the stream that starts at `seed`.
pub open spec fn stream(seed: u64, len: nat) -> Seq<u8> {
    Seq::new(len, |i: int| stream_byte(seed, i))
}

/// `u64::to_ne_bytes`: the memory representation of `word` in the byte order
/// of the target, which is what `to_le_bytes` returns on a little-endian
/// machine and what `to_be_bytes` returns on a big-endian one. The contract
/// takes `endianness()` of vstd to be the byte order of the target.
#[verifier::external_body]
pub(crate) fn native_bytes(word: u64) -> (bytes: [u8; 8])
    ensures
        bytes@ == ne_bytes(word),
{
    word.to_ne_bytes()
}

/// Copies the leading bytes of `bytes` into `buf` from `start` on: all eight
/// where they fit, and as many as remain where they do not.
pub(crate) fn put_chunk(buf: &mut [u8], start: usize, bytes: &[u8; 8]) -> (end: usize)
    requires
        start <= old(buf)@.len(),
    ensures
        final(buf)@.len() == old(buf)@.len(),
        end == min(start + 8, old(buf)@.len() as int),
        forall|i: int| 0 <= i < start ==> final(buf)@[i] == old(buf)@[i],
        forall|i: int| start <= i < end ==> final(buf)@[i] == bytes@[i - start],
        forall|i: int| end <= i < old(buf)@.len() ==> final(buf)@[i] == old(buf)@[i],
{
    let room: usize = buf.len() - start;
    let take: usize = if room < 8 { room } else { 8 };
    let mut i: usize = 0;
    while i < take
        invariant
            i <= take <= 8,
            start + take <= buf@.len() <= usize::MAX,
            buf@.len() == old(buf)@.len(),
            forall|j: int| 0 <= j < start ==> buf@[j] == old(buf)@[j],
            forall|j: int| start <= j < start + i ==> buf@[j] == bytes@[j - start],
            forall|j: int| start + i <= j < buf@.len() ==> buf@[j] == old(buf)@[j],
        decreases take - i,
    {
        buf[start + i] = bytes[i];
        i += 1;
    }
    start + take
}

} // verus!
