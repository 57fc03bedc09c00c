//! The adapter over one resource that both reads and writes.
use vstd::prelude::*;
use std::task::Context;
use std::task::Poll;
use crate::resource::{BlockingRead, BlockingWrite};

verus! {

/// One blocking resource seen through the poll-based interface.
///
/// The resource stays reachable as `inner`, for inspection and direct use by
/// the adapter's owner. The adapter holds nothing else.
pub struct PseudoAsyncIo<I> {
    pub inner: I,
}

/// Wraps `i` in an adapter; the same as `PseudoAsyncIo::new`.
pub fn wrap<I>(i: I) -> (r: PseudoAsyncIo<I>)
    ensures
        r.inner == i,
{
    PseudoAsyncIo::new(i)
}

impl<I> PseudoAsyncIo<I> {
    /// Takes ownership of `i`; cannot fail.
    pub fn new(i: I) -> (r: PseudoAsyncIo<I>)
        ensures
            r.inner == i,
    {
        PseudoAsyncIo { inner: i }
    }
}

impl<I: BlockingRead> PseudoAsyncIo<I> {
    /// Performs one blocking read into `buf` and reports its outcome as ready.
    ///
    /// The context is ignored. The calling thread is blocked for the whole read.
    pub fn poll_read(&mut self, _cx: &mut Context, buf: &mut [u8]) -> (r: Poll<
        Result<usize, std::io::Error>,
    >)
        ensures
            r matches Poll::Ready(res) && I::read_step(
                old(self).inner,
                final(self).inner,
                old(buf)@,
                final(buf)@,
                res,
            ),
            final(buf)@.len() == old(buf)@.len(),
            r matches Poll::Ready(Ok(n)) ==> n <= old(buf)@.len(),
    {
        Poll::Ready(self.inner.read(buf))
    }
}

impl<I: BlockingWrite> PseudoAsyncIo<I> {
    /// Performs one blocking write of `b` and reports its outcome as ready.
    ///
    /// A short write (fewer bytes accepted than offered) is reported as it is;
    /// the caller polls again for the rest.
    pub fn poll_write(&mut self, _cx: &mut Context, b: &[u8]) -> (r: Poll<
        Result<usize, std::io::Error>,
    >)
        ensures
            r matches Poll::Ready(res) && I::write_step(
                old(self).inner,
                final(self).inner,
                b@,
                res,
            ),
            r matches Poll::Ready(Ok(n)) ==> n <= b@.len(),
    {
        Poll::Ready(self.inner.write(b))
    }

    /// Performs one blocking flush and reports its outcome, error included,
    /// as ready.
    pub fn poll_flush(&mut self, _cx: &mut Context) -> (r: Poll<Result<(), std::io::Error>>)
        ensures
            r matches Poll::Ready(res) && I::flush_step(old(self).inner, final(self).inner, res),
    {
        Poll::Ready(self.inner.flush())
    }

    /// Reports success at once and leaves the resource as it is.
    pub fn poll_close(&mut self, _cx: &mut Context) -> (r: Poll<Result<(), std::io::Error>>)
        ensures
            r == Poll::<Result<(), std::io::Error>>::Ready(Ok(())),
            *final(self) == *old(self),
    {
        Poll::Ready(Ok(()))
    }
}

} // verus!
