//! The device as a state machine over its seed, and what holds of every run
//! of it.

use crate::stream::{stream, stream_byte, words_for};
use crate::urandom::UrandomDev;
use crate::xorshift::{lemma_nth_seed_add, nth_seed};
use vstd::prelude::*;

verus! {

/// A request that the device serves.
pub enum Request {
    /// Read `len` bytes at `offset`.
    Read { offset: u64, len: nat },
    /// Write `data` at `offset`.
    Write { offset: u64, data: Seq<u8> },
    /// Cut the device to `size` bytes.
    Truncate { size: u64 },
    /// Report the attributes.
    GetAttr,
}

/// The number of words that serving `request` draws from the generator.
pub open spec fn words_of(request: Request) -> nat {
    match request {
        Request::Read { len, .. } => words_for(len),
        _ => 0,
    }
}

/// The seed that the device holds once it has served `request` from `seed`.
pub open spec fn seed_after(seed: u64, request: Request) -> u64 {
    match request {
        Request::Read { len, .. } => nth_seed(seed, words_for(len)),
        Request::Write { .. } => seed,
        Request::Truncate { .. } => seed,
        Request::GetAttr => seed,
    }
}

/// The seed that the device holds once it has served all of `history`, in
/// order, from `seed`.
pub open spec fn seed_after_all(seed: u64, history: Seq<Request>) -> u64
    decreases history.len(),
{
    if history.len() == 0 {
        seed
    } else {
        seed_after(seed_after_all(seed, history.drop_last()), history.last())
    }
}

/// The number of words that serving all of `history` draws.
pub open spec fn words_drawn(history: Seq<Request>) -> nat
    decreases history.len(),
{
    if history.len() == 0 {
        0
    } else {
        words_drawn(history.drop_last()) + words_of(history.last())
    }
}

/// Reading is deterministic: two devices with the same seed that serve the
/// same requests are left with the same seed, and the next read returns the
/// same bytes from both.
pub proof fn lemma_same_seed_same_stream(
    a: UrandomDev,
    b: UrandomDev,
    history: Seq<Request>,
    len: nat,
)
    requires
        a@ == b@,
    ensures
        seed_after_all(a@, history) == seed_after_all(b@, history),
        stream(seed_after_all(a@, history), len) == stream(seed_after_all(b@, history), len),
{
}

/// A write leaves the seed where it was, whatever is written and wherever:
/// the next read returns the bytes that it would have returned without it.
pub proof fn lemma_write_is_inert(seed: u64, offset: u64, data: Seq<u8>, len: nat)
    ensures
        seed_after(seed, (Request::Write { offset, data })) == seed,
        stream(seed_after(seed, (Request::Write { offset, data })), len) == stream(seed, len),
{
}

/// A truncation leaves the seed where it was, whatever the size: the next
/// read returns the bytes that it would have returned without it.
pub proof fn lemma_truncate_is_inert(seed: u64, size: u64, len: nat)
    ensures
        seed_after(seed, (Request::Truncate { size })) == seed,
        stream(seed_after(seed, (Request::Truncate { size })), len) == stream(seed, len),
{
}

/// Only reads move the stream. After any history the device holds the seed
/// that the words of its reads account for, so the bytes of the next read do
/// not depend on what was written, truncated or asked in between.
pub proof fn lemma_only_reads_advance(seed: u64, history: Seq<Request>, len: nat)
    ensures
        seed_after_all(seed, history) == nth_seed(seed, words_drawn(history)),
        stream(seed_after_all(seed, history), len) == stream(
            nth_seed(seed, words_drawn(history)),
            len,
        ),
    decreases history.len(),
{
    if history.len() > 0 {
        let earlier = history.drop_last();
        lemma_only_reads_advance(seed, earlier, len);
        lemma_nth_seed_add(seed, words_drawn(earlier), words_of(history.last()));
    }
}

/// A read may be served in pieces as long as every piece but the last is a
/// whole number of words: `first` bytes and then `rest` bytes are the bytes
/// of one read of `first + rest`, and leave the same seed.
pub proof fn lemma_read_splits_at_word_boundary(seed: u64, first: nat, rest: nat)
    requires
        first % 8 == 0,
    ensures
        stream(seed, first + rest) == stream(seed, first) + stream(
            nth_seed(seed, words_for(first)),
            rest,
        ),
        nth_seed(seed, words_for(first + rest)) == nth_seed(
            nth_seed(seed, words_for(first)),
            words_for(rest),
        ),
{
    let mid = nth_seed(seed, words_for(first));
    lemma_nth_seed_add(seed, words_for(first), words_for(rest));
    assert forall|j: int| 0 <= j < rest implies stream_byte(mid, j) == stream_byte(
        seed,
        first + j,
    ) by {
        lemma_nth_seed_add(seed, words_for(first), (j / 8 + 1) as nat);
    }
}

} // verus!
