//! The blocking operations that the adapters need from a wrapped resource.
use vstd::prelude::*;

verus! {

/// The I/O error type of the standard library, carried through unchanged.
#[verifier::external_type_specification]
#[verifier::external_body]
pub struct ExIoError(std::io::Error);

/// The outcome of a poll: complete with a value, or not yet.
#[verifier::external_type_specification]
#[verifier::reject_recursive_types(T)]
pub struct ExPoll<T>(std::task::Poll<T>);

/// The waker context handed to each poll; the adapters accept it and leave it untouched.
#[verifier::external_type_specification]
#[verifier::external_body]
pub struct ExContext<'a>(std::task::Context<'a>);

/// A resource with a blocking read.
///
/// `read` returns only once it has transferred bytes into a prefix of the
/// buffer, reached the end of the stream (`Ok(0)`), or failed.
pub trait BlockingRead: Sized {
    /// Whether one call of `read` may take the resource from `pre` to `post`,
    /// turn the buffer's contents `buf_pre` into `buf_post`, and return `r`.
    /// A resource that does not describe its reads admits every step.
    open spec fn read_step(
        pre: Self,
        post: Self,
        buf_pre: Seq<u8>,
        buf_post: Seq<u8>,
        r: Result<usize, std::io::Error>,
    ) -> bool {
        true
    }

    fn read(&mut self, buf: &mut [u8]) -> (r: Result<usize, std::io::Error>)
        ensures
            Self::read_step(*old(self), *final(self), old(buf)@, final(buf)@, r),
            final(buf)@.len() == old(buf)@.len(),
            r matches Ok(n) ==> n <= old(buf)@.len(),
    ;
}

/// A resource with a blocking write and a blocking flush.
///
/// `write` returns only once it has accepted a prefix of the bytes (possibly
/// fewer than offered) or failed; `flush` returns once buffered output has
/// reached its destination or failed.
pub trait BlockingWrite: Sized {
    /// Whether one call of `write` may take the resource from `pre` to `post`
    /// when offered `bytes`, returning `r`. A resource that does not describe
    /// its writes admits every step.
    open spec fn write_step(
        pre: Self,
        post: Self,
        bytes: Seq<u8>,
        r: Result<usize, std::io::Error>,
    ) -> bool {
        true
    }

    /// Whether one call of `flush` may take the resource from `pre` to `post`,
    /// returning `r`. A resource that does not describe its flushes admits
    /// every step.
    open spec fn flush_step(pre: Self, post: Self, r: Result<(), std::io::Error>) -> bool {
        true
    }

    fn write(&mut self, bytes: &[u8]) -> (r: Result<usize, std::io::Error>)
        ensures
            Self::write_step(*old(self), *final(self), bytes@, r),
            r matches Ok(n) ==> n <= bytes@.len(),
    ;

    fn flush(&mut self) -> (r: Result<(), std::io::Error>)
        ensures
            Self::flush_step(*old(self), *final(self), r),
    ;
}

} // verus!
