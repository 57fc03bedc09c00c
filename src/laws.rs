//! Properties of the adapters over memory cursors, stated over the steps that
//! the adapters' contracts promise.
use vstd::prelude::*;
use crate::memory::{splice, MemoryCursor};
use crate::resource::{BlockingRead, BlockingWrite};

verus! {

/// Bytes written through an adapter to a cursor at position 0 whose storage
/// holds at least as many bytes are all accepted and stored in order at the
/// front; reading the same storage back from position 0 into a buffer of that
/// length yields exactly those bytes.
pub proof fn lemma_write_then_read_back(
    pre: MemoryCursor,
    post: MemoryCursor,
    bytes: Seq<u8>,
    written: Result<usize, std::io::Error>,
    back: MemoryCursor,
    after: MemoryCursor,
    buf_pre: Seq<u8>,
    buf_post: Seq<u8>,
    read: Result<usize, std::io::Error>,
)
    requires
        pre.pos() == 0,
        bytes.len() <= pre.storage().len(),
        MemoryCursor::write_step(pre, post, bytes, written),
        back.storage() == post.storage(),
        back.pos() == 0,
        buf_pre.len() == bytes.len(),
        MemoryCursor::read_step(back, after, buf_pre, buf_post, read),
    ensures
        written == Ok::<usize, std::io::Error>(bytes.len() as usize),
        post.storage().take(bytes.len() as int) == bytes,
        read == Ok::<usize, std::io::Error>(bytes.len() as usize),
        buf_post == bytes,
{
    assert(post.storage().take(bytes.len() as int) =~= bytes);
    assert(buf_post =~= bytes);
}

/// A write offered more bytes than the cursor has room for accepts exactly as
/// many as fit, stores those in order from the position on, and leaves no room:
/// the rest has to be offered again by a later poll.
pub proof fn lemma_short_write(
    pre: MemoryCursor,
    post: MemoryCursor,
    bytes: Seq<u8>,
    written: Result<usize, std::io::Error>,
)
    requires
        pre.room() < bytes.len(),
        MemoryCursor::write_step(pre, post, bytes, written),
    ensures
        written == Ok::<usize, std::io::Error>(pre.room() as usize),
        post.storage() == splice(pre.storage(), pre.pos(), bytes.take(pre.room() as int)),
        post.room() == 0,
{
}

} // verus!
