//! Blocking byte resources presented through a poll-based interface.
//!
//! Every poll completes at once: the adapters perform the blocking call on the
//! resource they own and report its outcome as `Poll::Ready`. They never report
//! `Poll::Pending`, never keep the waker context, and block the calling thread
//! for as long as the underlying call takes.

pub mod resource;
pub mod single;
pub mod pair;
pub mod memory;
pub mod laws;

pub use resource::{BlockingRead, BlockingWrite};
pub use single::{wrap, PseudoAsyncIo};
pub use pair::{wrap_pair, PseudoAsyncIoPair};
pub use memory::MemoryCursor;
