//! Independent read cursors over one shared file handle.
//!
//! A [`SharedFile`] pairs a handle with a private byte offset. Duplicates share
//! the handle and start again at offset zero; reads are addressed by the stored
//! offset, and seeks are pure arithmetic on it.
pub mod cursor;
pub mod laws;
pub mod offset;

pub use cursor::{SeekOverflow, SeekTarget, SharedFile};
pub use offset::{calc_pos, u64_from};
