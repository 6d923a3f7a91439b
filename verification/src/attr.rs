//! What a node reports of itself when it is asked for its attributes.

use axfs_vfs::VfsNodePerm;
use vstd::prelude::*;

verus! {

/// The kind of a node.
#[derive(Clone, Copy, Debug, PartialEq, Eq, Structural)]
pub enum NodeType {
    /// A named pipe.
    Fifo,
    /// A character device.
    CharDevice,
    /// A directory.
    Dir,
    /// A block device.
    BlockDevice,
    /// A regular file.
    File,
    /// A symbolic link.
    SymLink,
    /// A socket.
    Socket,
}

/// The attributes of a node.
#[derive(Clone, Copy, Debug, PartialEq, Eq, Structural)]
pub struct NodeAttr {
    /// The permission bits, as in the low nine bits of a Unix mode.
    pub mode: u16,
    /// The kind of the node.
    pub ty: NodeType,
    /// The size in bytes.
    pub size: u64,
    /// The number of 512-byte blocks allocated.
    pub blocks: u64,
}

/// The permission bits of a file that everyone may read and write.
pub const DEFAULT_FILE_MODE: u16 = 0o666;

/// The attributes of a character device without contents: readable and
/// writable by everyone, of size zero, with no blocks.
pub open spec fn char_device_attr() -> NodeAttr {
    NodeAttr { mode: DEFAULT_FILE_MODE, ty: NodeType::CharDevice, size: 0, blocks: 0 }
}

impl NodeAttr {
    /// The attributes of a character device without contents.
    pub fn char_device() -> (attr: Self)
        ensures
            attr == char_device_attr(),
    {
        NodeAttr { mode: default_file_mode(), ty: NodeType::CharDevice, size: 0, blocks: 0 }
    }
}

/// `VfsNodePerm::default_file`, read through `bits`: the permission that
/// `axfs_vfs` gives a file by default. Its source builds it from `0o666`,
/// and each of those bits is a flag that the type knows, so the bits come
/// back as they went in.
#[verifier::external_body]
fn default_file_mode() -> (mode: u16)
    ensures
        mode == 0o666,
{
    VfsNodePerm::default_file().bits()
}

} // verus!
