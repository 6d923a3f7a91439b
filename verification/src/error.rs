//! The error type of the node operations.

use vstd::prelude::*;

verus! {

/// `axfs_vfs::VfsError`, which is another name for `axerrno::AxError`. The
/// device never makes one: the type stands in the results of its operations
/// so that they fit the node interface of `axfs_vfs`, and nothing is claimed
/// of its values.
#[verifier::external_type_specification]
#[verifier::external_body]
pub struct ExVfsError(axfs_vfs::VfsError);

} // verus!
