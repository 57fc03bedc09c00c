//! The adapter over two resources: one for reading, one for writing.
use vstd::prelude::*;
use std::task::Context;
use std::task::Poll;
use crate::resource::{BlockingRead, BlockingWrite};

verus! {

/// A reading resource and a writing resource seen together as one
/// bidirectional endpoint of the poll-based interface.
///
/// Reads go to `reader` alone; writes, flushes and closes to `writer` alone.
/// The two halves never interact.
pub struct PseudoAsyncIoPair<R: BlockingRead, W: BlockingWrite> {
    pub reader: R,
    pub writer: W,
}

/// Wraps `r` and `w` in a pair adapter; the same as `PseudoAsyncIoPair::new`.
pub fn wrap_pair<R: BlockingRead, W: BlockingWrite>(r: R, w: W) -> (p: PseudoAsyncIoPair<R, W>)
    ensures
        p.reader == r,
        p.writer == w,
{
    PseudoAsyncIoPair::new(r, w)
}

impl<R: BlockingRead, W: BlockingWrite> PseudoAsyncIoPair<R, W> {
    /// Takes ownership of both resources; cannot fail.
    pub fn new(r: R, w: W) -> (p: PseudoAsyncIoPair<R, W>)
        ensures
            p.reader == r,
            p.writer == w,
    {
        PseudoAsyncIoPair { reader: r, writer: w }
    }

    /// Performs one blocking read from `reader` into `b` and reports its
    /// outcome as ready; `writer` is not touched.
    pub fn poll_read(&mut self, _cx: &mut Context, b: &mut [u8]) -> (r: Poll<
        Result<usize, std::io::Error>,
    >)
        ensures
            r matches Poll::Ready(res) && R::read_step(
                old(self).reader,
                final(self).reader,
                old(b)@,
                final(b)@,
                res,
            ),
            final(self).writer == old(self).writer,
            final(b)@.len() == old(b)@.len(),
            r matches Poll::Ready(Ok(n)) ==> n <= old(b)@.len(),
    {
        Poll::Ready(self.reader.read(b))
    }

    /// Performs one blocking write of `b` to `writer` and reports its outcome
    /// as ready; `reader` is not touched.
    pub fn poll_write(&mut self, _cx: &mut Context, b: &[u8]) -> (r: Poll<
        Result<usize, std::io::Error>,
    >)
        ensures
            r matches Poll::Ready(res) && W::write_step(
                old(self).writer,
                final(self).writer,
                b@,
                res,
            ),
            final(self).reader == old(self).reader,
            r matches Poll::Ready(Ok(n)) ==> n <= b@.len(),
    {
        Poll::Ready(self.writer.write(b))
    }

    /// Performs one blocking flush of `writer` and reports its outcome, error
    /// included, as ready; `reader` is not touched.
    pub fn poll_flush(&mut self, _cx: &mut Context) -> (r: Poll<Result<(), std::io::Error>>)
        ensures
            r matches Poll::Ready(res) && W::flush_step(
                old(self).writer,
                final(self).writer,
                res,
            ),
            final(self).reader == old(self).reader,
    {
        Poll::Ready(self.writer.flush())
    }

    /// Reports success at once and leaves both resources as they are.
    pub fn poll_close(&mut self, _cx: &mut Context) -> (r: Poll<Result<(), std::io::Error>>)
        ensures
            r == Poll::<Result<(), std::io::Error>>::Ready(Ok(())),
            *final(self) == *old(self),
    {
        Poll::Ready(Ok(()))
    }
}

} // verus!
