//! A layered block-device composition and verification harness.
//!
//! Storage is addressed in 512-byte sectors through [`sector::Sector`].  A
//! device pool ([`pool`]) allocates memory-backed devices; the [`stack`]
//! module layers transforms (linear remapping, fault injection, encryption,
//! write-back caching) on top of them, each layer again usable as a block
//! device; [`io`] provides raw sector-addressed reads and writes and a
//! pattern-driven engine that writes and reads known data across a device
//! and checks round-trip integrity.

pub mod blkdev;
pub mod bytes;
pub mod io;
pub mod error;
pub mod pool;
pub mod sector;
pub mod stack;
pub mod strutil;
pub mod writeboost;

pub use error::Error;
pub use pool::Env;
pub use pool::RawBlk;
pub use sector::Sector;
pub use stack::EmptyDMStack;
pub use stack::Stack;
