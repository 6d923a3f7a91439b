//! The device behind a shared reference, for readers that do not wait for
//! one another.

use crate::attr::{char_device_attr, NodeAttr};
use crate::stream::{native_bytes, put_chunk};
use crate::urandom::INITIAL_SEED;
use crate::xorshift::next_seed;
use axfs_vfs::VfsError;
use core::sync::atomic::AtomicU64;
use core::sync::atomic::Ordering;
use vstd::prelude::*;

verus! {

/// A device that any number of readers may use at once.
///
/// The seed sits in one atomic word. Each word of output loads it, advances
/// it by one round and stores it back, all with relaxed ordering and without
/// a lock. Readers that race may load the same seed and hand out the same
/// word, and the update of one may be lost under that of another. So nothing
/// is stated here of which bytes a read returns: a reader that has the
/// device to itself gets the stream of a `UrandomDev` with the same seed.
pub struct SharedUrandomDev {
    seed: AtomicU64,
}

impl SharedUrandomDev {
    /// Creates a device with the fixed initial seed.
    pub fn new() -> Self {
        Self { seed: AtomicU64::new(INITIAL_SEED) }
    }

    /// Creates a device that starts from `seed`, or none where `seed` is
    /// zero, which no round would ever leave.
    pub fn with_seed(seed: u64) -> (dev: Option<Self>)
        ensures
            dev is None <==> seed == 0,
    {
        if seed == 0 {
            None
        } else {
            Some(Self { seed: AtomicU64::new(seed) })
        }
    }

    /// Advances the seed by one round and returns the new seed as the next
    /// word of the stream.
    pub fn next_u64(&self) -> u64 {
        let word = next_seed(self.seed.load(Ordering::Relaxed));
        self.seed.store(word, Ordering::Relaxed);
        word
    }

    /// Fills `buf` with bytes of the stream and returns its length. The
    /// offset is ignored. Each chunk of eight bytes takes one word, and so
    /// does a shorter chunk at the end.
    pub fn read_at(&self, _offset: u64, buf: &mut [u8]) -> (result: Result<usize, VfsError>)
        ensures
            result matches Ok(n) && n == old(buf)@.len(),
            final(buf)@.len() == old(buf)@.len(),
    {
        let len = buf.len();
        let mut pos: usize = 0;
        while pos < len
            invariant
                pos <= len,
                buf@.len() == len,
            decreases len - pos,
        {
            let bytes = native_bytes(self.next_u64());
            pos = put_chunk(buf, pos, &bytes);
        }
        Ok(len)
    }

    /// Accepts `buf` and drops it: reports all of it as written, whatever it
    /// holds and whatever the offset.
    pub fn write_at(&self, _offset: u64, buf: &[u8]) -> (result: Result<usize, VfsError>)
        ensures
            result matches Ok(n) && n == buf@.len(),
    {
        Ok(buf.len())
    }

    /// Does nothing and succeeds, whatever the size.
    pub fn truncate(&self, _size: u64) -> (result: Result<(), VfsError>)
        ensures
            result is Ok,
    {
        Ok(())
    }

    /// Reports the attributes of the device, which are those of an empty
    /// character device whatever has been read or written.
    pub fn get_attr(&self) -> (result: Result<NodeAttr, VfsError>)
        ensures
            result matches Ok(attr) && attr == char_device_attr(),
    {
        Ok(NodeAttr::char_device())
    }
}

impl Default for SharedUrandomDev {
    /// The device that `new` creates.
    fn default() -> Self {
        Self::new()
    }
}

} // verus!
