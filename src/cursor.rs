//! The cursor: a shared handle and a private offset.
use std::sync::Arc;
use vstd::prelude::*;

use crate::offset::{calc_pos, offset_after, u64_from};

verus! {

/// Where a seek is addressed from.
#[derive(Clone, Copy, Debug, PartialEq, Eq, Structural)]
pub enum SeekTarget {
    /// An absolute offset from the start of the file.
    Start(u64),
    /// A signed distance from the end of the file.
    End(i64),
    /// A signed distance from the cursor's current offset.
    Current(i64),
}

/// A seek whose arithmetic leaves the range of non-negative `i64` offsets.
#[derive(Clone, Copy, Debug, PartialEq, Eq, Structural)]
pub struct SeekOverflow;

/// The offset a seek to `target` reaches from `pos`, on a file of `file_len`
/// bytes; `None` when the arithmetic fails.
pub open spec fn seek_result(pos: u64, target: SeekTarget, file_len: u64) -> Option<u64> {
    match target {
        SeekTarget::Start(n) => Some(n),
        SeekTarget::End(d) => offset_after(file_len, d),
        SeekTarget::Current(d) => offset_after(pos, d),
    }
}

/// The bytes that a positional read of up to `n` bytes at `pos` finds in
/// `content`: none at or past the end, else as many as remain, at most `n`.
pub open spec fn read_window(content: Seq<u8>, pos: int, n: int) -> Seq<u8> {
    if pos >= content.len() {
        Seq::empty()
    } else if pos + n <= content.len() {
        content.subrange(pos, pos + n)
    } else {
        content.subrange(pos, content.len() as int)
    }
}

impl SeekTarget {
    /// Whether a seek to this target needs the file's length.
    pub fn needs_file_len(&self) -> (r: bool)
        ensures
            r == (*self is End),
    {
        matches!(*self, SeekTarget::End(_))
    }
}

/// A cheaply duplicated cursor over a shared file handle.
///
/// Every duplicate shares the handle `F` (a borrowed reference, or an `Arc`)
/// and keeps an offset of its own, which starts at zero.
pub struct SharedFile<F> {
    file: F,
    pos: u64,
}

impl<F> SharedFile<F> {
    /// The cursor's offset.
    pub closed spec fn position_spec(&self) -> u64 {
        self.pos
    }

    /// The handle the cursor reads through.
    pub closed spec fn handle_spec(&self) -> F {
        self.file
    }

    /// A cursor over `file` at offset zero.
    pub fn new(file: F) -> (r: Self)
        ensures
            r.position_spec() == 0,
            r.handle_spec() == file,
    {
        SharedFile { file, pos: 0 }
    }

    /// The cursor's offset.
    pub fn position(&self) -> (r: u64)
        ensures
            r == self.position_spec(),
    {
        self.pos
    }

    /// The handle the cursor reads through.
    pub fn handle(&self) -> (r: &F)
        ensures
            *r == self.handle_spec(),
    {
        &self.file
    }

    /// The largest number of bytes a read may ask for so that the offset,
    /// advanced by the count read, stays within `u64`.
    pub fn read_limit(&self, buf_len: usize) -> (r: usize)
        ensures
            r <= buf_len,
            self.position_spec() + r <= u64::MAX,
            r == buf_len || self.position_spec() + r == u64::MAX,
    {
        let room: u64 = u64::MAX - self.pos;
        if u64_from(buf_len) <= room {
            buf_len
        } else {
            room as usize
        }
    }

    /// Takes in the outcome of a positional read made at this cursor's
    /// offset: a count advances the offset by exactly that count, and an
    /// error leaves the offset as it was. The outcome is handed back.
    pub fn record_read<E>(&mut self, outcome: Result<usize, E>) -> (r: Result<usize, E>)
        requires
            outcome is Ok ==> old(self).position_spec() + outcome->Ok_0 <= u64::MAX,
        ensures
            r == outcome,
            final(self).handle_spec() == old(self).handle_spec(),
            final(self).position_spec() == match outcome {
                Ok(k) => (old(self).position_spec() + k) as u64,
                Err(_) => old(self).position_spec(),
            },
    {
        match outcome {
            Ok(k) => {
                self.pos = self.pos + u64_from(k);
                Ok(k)
            },
            Err(e) => Err(e),
        }
    }

    /// Reads up to `n` bytes from `content`, the bytes of the file, at this
    /// cursor's offset, and advances the offset by the count read.
    pub fn read_from(&mut self, content: &[u8], n: usize) -> (r: Vec<u8>)
        ensures
            r@ == read_window(content@, old(self).position_spec() as int, n as int),
            final(self).position_spec() == old(self).position_spec() + r@.len(),
            final(self).handle_spec() == old(self).handle_spec(),
    {
        let len: usize = content.len();
        let mut out: Vec<u8> = Vec::new();
        if self.pos >= u64_from(len) {
            return out;
        }
        let start: usize = self.pos as usize;
        let end: usize = if n <= len - start { start + n } else { len };
        let mut i: usize = start;
        while i < end
            invariant
                start <= i <= end <= len,
                len == content@.len(),
                out@ == content@.subrange(start as int, i as int),
            decreases end - i,
        {
            out.push(content[i]);
            i = i + 1;
        }
        assert(out@ == read_window(content@, start as int, n as int));
        self.pos = self.pos + u64_from(end - start);
        out
    }

    /// Moves the offset to `target`. `file_len` is the file's current length,
    /// which only a seek from the end reads. On success the new offset is
    /// stored and returned; on overflow the offset stays as it was.
    pub fn seek(&mut self, target: SeekTarget, file_len: u64) -> (r: Result<u64, SeekOverflow>)
        ensures
            final(self).handle_spec() == old(self).handle_spec(),
            match seek_result(old(self).position_spec(), target, file_len) {
                Some(p) => r == Ok::<u64, SeekOverflow>(p) && final(self).position_spec() == p,
                None => r == Err::<u64, SeekOverflow>(SeekOverflow)
                    && final(self).position_spec() == old(self).position_spec(),
            },
    {
        let next: Option<u64> = match target {
            SeekTarget::Start(n) => Some(n),
            SeekTarget::End(d) => calc_pos(file_len, d),
            SeekTarget::Current(d) => calc_pos(self.pos, d),
        };
        match next {
            Some(p) => {
                self.pos = p;
                Ok(p)
            },
            None => Err(SeekOverflow),
        }
    }
}

impl<F: Clone> SharedFile<F> {
    /// A new cursor over a clone of the same handle, at offset zero. The
    /// offset of `self` is not copied.
    pub fn duplicate(&self) -> (r: Self)
        ensures
            r.position_spec() == 0,
            cloned(self.handle_spec(), r.handle_spec()),
    {
        SharedFile { file: self.file.clone(), pos: 0 }
    }
}

impl<F: Clone> Clone for SharedFile<F> {
    fn clone(&self) -> (r: Self)
        ensures
            r.position_spec() == 0,
    {
        self.duplicate()
    }
}

impl<T> SharedFile<Arc<T>> {
    /// Takes ownership of `file` and shares it through an `Arc`; the cursor
    /// starts at offset zero.
    pub fn new_owned(file: T) -> (r: Self)
        ensures
            r.position_spec() == 0,
            *r.handle_spec() == file,
    {
        Self::new(Arc::new(file))
    }
}

} // verus!
