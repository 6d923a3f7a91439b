//! A character device that hands out an endless stream of pseudo-random
//! bytes, in the manner of `/dev/urandom`.
//!
//! The generator is a 64-bit xorshift: fast and allocation-free, and in no
//! way a source of cryptographic randomness.
//!
//! - `xorshift`: the transform, and what holds of its rounds.
//! - `stream`: the bytes that a run of words spells out.
//! - `attr`: the attributes that the device reports.
//! - `urandom`: the device held by one owner, with the bytes of every read
//!   stated.
//! - `shared`: the device behind a shared reference, with its seed in an
//!   atomic word.
//! - `model`: the device as a state machine, and what holds of every run.
//! - `error`: the error type of the node interface.

pub mod attr;
pub mod error;
pub mod model;
pub mod shared;
pub mod stream;
pub mod urandom;
pub mod xorshift;

pub use attr::{NodeAttr, NodeType};
pub use shared::SharedUrandomDev;
pub use urandom::UrandomDev;
