//! The device held by one owner: a seed, and the node operations that draw
//! on it.

use crate::attr::{char_device_attr, NodeAttr};
use crate::model::{seed_after, Request};
use crate::stream::{native_bytes, put_chunk, stream, stream_byte, words_for};
use crate::xorshift::{lemma_step_zero, next_seed, nth_seed, step};
use axfs_vfs::VfsError;
use vstd::prelude::*;

verus! {

/// The seed that every new device starts from. It is a placeholder: a
/// deployment that wants its streams to differ seeds its devices itself,
/// with `with_seed`.
pub const INITIAL_SEED: u64 = 0x1234_5678_9abc_def0;

/// A device that behaves like `/dev/urandom`: reading it yields
/// pseudo-random bytes, and writing to it is accepted and ignored.
///
/// The device owns its seed, and the operations that advance the seed borrow
/// the device exclusively. So the bytes of every read are known from the
/// seed alone. `SharedUrandomDev` is the same device for readers that share
/// it.
pub struct UrandomDev {
    seed: u64,
}

impl View for UrandomDev {
    type V = u64;

    /// The seed that the next word is computed from.
    closed spec fn view(&self) -> u64 {
        self.seed
    }
}

impl UrandomDev {
    /// The seed is never zero: a round maps zero to zero, so a generator
    /// that reached it would hand out zeros for ever.
    #[verifier::type_invariant]
    spec fn seed_is_nonzero(self) -> bool {
        self.seed != 0
    }

    /// Creates a device with the fixed initial seed.
    pub fn new() -> (dev: Self)
        ensures
            dev@ == INITIAL_SEED,
    {
        Self { seed: INITIAL_SEED }
    }

    /// Creates a device that starts from `seed`, or none where `seed` is
    /// zero, which no round would ever leave.
    pub fn with_seed(seed: u64) -> (dev: Option<Self>)
        ensures
            seed == 0 ==> dev is None,
            seed != 0 ==> dev is Some && dev->0@ == seed,
    {
        if seed == 0 {
            None
        } else {
            Some(Self { seed })
        }
    }

    /// The seed that the next word is computed from.
    pub fn seed(&self) -> (seed: u64)
        ensures
            seed == self@,
            seed != 0,
    {
        proof {
            use_type_invariant(self);
        }
        self.seed
    }

    /// Advances the seed by one round and returns the new seed as the next
    /// word of the stream.
    pub fn next_u64(&mut self) -> (word: u64)
        ensures
            word == step(old(self)@),
            final(self)@ == word,
            word != 0,
    {
        proof {
            use_type_invariant(&*self);
            lemma_step_zero(self.seed);
        }
        let word = next_seed(self.seed);
        self.seed = word;
        word
    }

    /// Reports the attributes of the device, which are those of an empty
    /// character device whatever has been read or written.
    pub fn get_attr(&self) -> (result: Result<NodeAttr, VfsError>)
        ensures
            result matches Ok(attr) && attr == char_device_attr(),
            self@ == seed_after(self@, Request::GetAttr),
    {
        Ok(NodeAttr::char_device())
    }

    /// Fills `buf` with the next bytes of the stream and returns its length.
    /// The offset is ignored: the device has no position to seek to. Each
    /// chunk of eight bytes takes one word, and so does a shorter chunk at
    /// the end, which takes the leading bytes of its word.
    pub fn read_at(&mut self, _offset: u64, buf: &mut [u8]) -> (result: Result<usize, VfsError>)
        ensures
            result matches Ok(n) && n == old(buf)@.len(),
            final(buf)@ == stream(old(self)@, old(buf)@.len()),
            final(self)@ == seed_after(
                old(self)@,
                (Request::Read { offset: _offset, len: old(buf)@.len() }),
            ),
    {
        let len = buf.len();
        let mut pos: usize = 0;
        while pos < len
            invariant
                pos <= len,
                pos % 8 == 0 || pos == len,
                buf@.len() == len,
                self@ == nth_seed(old(self)@, words_for(pos as nat)),
                forall|i: int| 0 <= i < pos ==> buf@[i] == stream_byte(old(self)@, i),
            decreases len - pos,
        {
            let bytes = native_bytes(self.next_u64());
            pos = put_chunk(buf, pos, &bytes);
        }
        Ok(len)
    }

    /// Accepts `buf` and drops it: reports all of it as written, whatever it
    /// holds and whatever the offset. The device is borrowed shared, so its
    /// seed is the one that it had, as the model has it for a write.
    pub fn write_at(&self, _offset: u64, buf: &[u8]) -> (result: Result<usize, VfsError>)
        ensures
            result matches Ok(n) && n == buf@.len(),
            self@ == seed_after(self@, (Request::Write { offset: _offset, data: buf@ })),
    {
        Ok(buf.len())
    }

    /// Does nothing and succeeds, whatever the size: the device has no size
    /// to change. Its seed is the one that it had, as the model has it for a
    /// truncation.
    pub fn truncate(&self, _size: u64) -> (result: Result<(), VfsError>)
        ensures
            result is Ok,
            self@ == seed_after(self@, (Request::Truncate { size: _size })),
    {
        Ok(())
    }
}

impl Default for UrandomDev {
    /// The device that `new` creates.
    fn default() -> (dev: Self)
        ensures
            dev@ == INITIAL_SEED,
    {
        Self::new()
    }
}

} // verus!
