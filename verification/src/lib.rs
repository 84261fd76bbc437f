//! In-memory registry mapping block hashes to each block's world state.
//!
//! A [`registry::Storage`] maps every observed 256-bit block hash to an
//! optional, shared snapshot of that block's state.  The snapshot itself,
//! a [`trie::BlockStorage`], is a flat byte-key/byte-value store plus a set
//! of independently keyed child tries.  Snapshots are built privately, then
//! published through the registry and from then on shared read-only by
//! reference count.

pub mod hash;
pub mod registry;
pub mod trie;

pub use hash::BlockHash;
pub use registry::{Block, IntegrityError, Storage};
pub use trie::{BlockStorage, Child};
