//! Laws relating reads, seeks and duplication.
use vstd::prelude::*;

use crate::cursor::{read_window, seek_result, SeekTarget, SharedFile};

verus! {

/// Two cursors at the same offset over the same bytes read the same bytes,
/// whatever either of them did before: a read addresses the file by the
/// cursor's own offset alone.
pub proof fn lemma_equal_positions_read_alike<F>(
    content: Seq<u8>,
    a: SharedFile<F>,
    b: SharedFile<F>,
    n: nat,
)
    requires
        a.position_spec() == b.position_spec(),
    ensures
        read_window(content, a.position_spec() as int, n as int) == read_window(
            content,
            b.position_spec() as int,
            n as int,
        ),
{
}

/// A read returns no bytes exactly when it starts at or past the end of the
/// file or asks for none; otherwise the offset moves forward.
pub proof fn lemma_read_count(content: Seq<u8>, pos: u64, n: nat)
    ensures
        read_window(content, pos as int, n as int).len() == 0 <==> (pos >= content.len() || n
            == 0),
        read_window(content, pos as int, n as int).len() <= n,
{
}

/// Reading `n` bytes and then `m` more gives the same bytes as one read of
/// `n + m` from the same offset.
pub proof fn lemma_reads_concatenate(content: Seq<u8>, pos: u64, n: nat, m: nat)
    ensures
        read_window(content, pos as int, n as int) + read_window(
            content,
            pos + read_window(content, pos as int, n as int).len(),
            m as int,
        ) =~= read_window(content, pos as int, (n + m) as int),
{
}

/// A seek to an absolute offset lands on it from any offset, so doing it a
/// second time lands on it again.
pub proof fn lemma_seek_start_twice(pos: u64, n: u64, file_len: u64)
    ensures
        seek_result(pos, SeekTarget::Start(n), file_len) == Some(n),
        seek_result(n, SeekTarget::Start(n), file_len) == Some(n),
{
}

/// On a file of `file_len` bytes, a seek `d` bytes back from the end, with
/// `d` at most `file_len`, lands on `file_len - d`; a seek further back fails.
/// Lengths beyond `i64::MAX` are left out: there every seek from the end fails.
pub proof fn lemma_seek_from_end(file_len: u64, d: i64)
    requires
        file_len <= i64::MAX,
        0 <= d,
    ensures
        d <= file_len ==> seek_result(0, SeekTarget::End((-d) as i64), file_len) == Some(
            (file_len - d) as u64,
        ),
        forall|pos: u64, delta: i64| #[trigger]
            seek_result(pos, SeekTarget::End(delta), file_len) is None <== file_len + delta < 0,
{
}

/// A relative seek whose target lies outside the `u64` offsets fails.
pub proof fn lemma_seek_current_out_of_range(pos: u64, delta: i64, file_len: u64)
    requires
        pos + delta < 0 || pos + delta > u64::MAX,
    ensures
        seek_result(pos, SeekTarget::Current(delta), file_len) is None,
{
}

/// A relative seek by zero keeps any offset an `i64` can hold.
pub proof fn lemma_seek_current_zero(pos: u64, file_len: u64)
    requires
        pos <= i64::MAX,
    ensures
        seek_result(pos, SeekTarget::Current(0), file_len) == Some(pos),
{
}

} // verus!
