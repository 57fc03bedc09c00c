//! A fixed-capacity in-memory resource: a byte store with a position.
use vstd::prelude::*;
use crate::resource::{BlockingRead, BlockingWrite};

verus! {

/// `dst` with `src` laid over it from index `at` on.
pub open spec fn splice(dst: Seq<u8>, at: nat, src: Seq<u8>) -> Seq<u8> {
    Seq::new(
        dst.len(),
        |i: int|
            if at <= i < at + src.len() {
                src[i - at]
            } else {
                dst[i]
            },
    )
}

/// Bytes held in memory, read and written from a position that each transfer
/// advances.
///
/// The storage never grows: a write stores only as many bytes as fit between
/// the position and the end (a short write), and a read at or past the end
/// reports the end of the stream. Neither ever fails.
pub struct MemoryCursor {
    data: Vec<u8>,
    pos: usize,
}

impl MemoryCursor {
    /// The stored bytes.
    pub closed spec fn storage(self) -> Seq<u8> {
        self.data@
    }

    /// The position of the next transfer.
    pub closed spec fn pos(self) -> nat {
        self.pos as nat
    }

    /// How many bytes lie between the position and the end of the storage.
    pub open spec fn room(self) -> nat {
        if self.pos() < self.storage().len() {
            (self.storage().len() - self.pos()) as nat
        } else {
            0
        }
    }

    /// The `n` stored bytes that start at the position.
    pub open spec fn window(self, n: nat) -> Seq<u8> {
        Seq::new(n, |i: int| self.storage()[self.pos() + i])
    }

    /// How many of `want` bytes one transfer moves.
    pub open spec fn transfer_len(self, want: nat) -> nat {
        if want < self.room() {
            want
        } else {
            self.room()
        }
    }

    /// A cursor over `data`, at position 0.
    pub fn new(data: Vec<u8>) -> (c: MemoryCursor)
        ensures
            c.storage() == data@,
            c.pos() == 0,
    {
        MemoryCursor { data, pos: 0 }
    }

    /// The stored bytes.
    pub fn get_ref(&self) -> (r: &Vec<u8>)
        ensures
            r@ == self.storage(),
    {
        &self.data
    }

    /// Gives the stored bytes back.
    pub fn into_inner(self) -> (r: Vec<u8>)
        ensures
            r@ == self.storage(),
    {
        self.data
    }

    /// The position of the next transfer.
    pub fn position(&self) -> (r: usize)
        ensures
            r == self.pos(),
    {
        self.pos
    }

    /// Moves to position `p`, which may lie past the end.
    pub fn set_position(&mut self, p: usize)
        ensures
            final(self).storage() == old(self).storage(),
            final(self).pos() == p,
    {
        self.pos = p;
    }

    fn room_exec(&self) -> (r: usize)
        ensures
            r == self.room(),
            self.storage().len() <= usize::MAX,
    {
        if self.pos < self.data.len() {
            self.data.len() - self.pos
        } else {
            0
        }
    }
}

impl BlockingRead for MemoryCursor {
    /// Copies as many bytes as both the buffer and the room allow, from the
    /// position on, into the front of the buffer, and moves past them.
    open spec fn read_step(
        pre: Self,
        post: Self,
        buf_pre: Seq<u8>,
        buf_post: Seq<u8>,
        r: Result<usize, std::io::Error>,
    ) -> bool {
        let n = pre.transfer_len(buf_pre.len());
        &&& r == Ok::<usize, std::io::Error>(n as usize)
        &&& post.storage() == pre.storage()
        &&& post.pos() == pre.pos() + n
        &&& buf_post == splice(buf_pre, 0, pre.window(n))
    }

    fn read(&mut self, buf: &mut [u8]) -> (r: Result<usize, std::io::Error>) {
        let ghost buf0 = buf@;
        let room = self.room_exec();
        let n: usize = if buf.len() < room {
            buf.len()
        } else {
            room
        };
        let mut i: usize = 0;
        while i < n
            invariant
                i <= n,
                n == self.transfer_len(buf0.len()),
                n == 0 || self.pos() + n <= self.storage().len(),
                self.storage().len() <= usize::MAX,
                buf@.len() == buf0.len(),
                forall|j: int| 0 <= j < i ==> buf@[j] == self.storage()[self.pos() + j],
                forall|j: int| i <= j < buf0.len() ==> buf@[j] == buf0[j],
            decreases n - i,
        {
            buf[i] = self.data[self.pos + i];
            i = i + 1;
        }
        self.pos = self.pos + n;
        assert(buf@ =~= splice(buf0, 0, old(self).window(n as nat)));
        Ok(n)
    }
}

impl BlockingWrite for MemoryCursor {
    /// Stores as many of the bytes as fit in the room from the position on,
    /// and moves past them.
    open spec fn write_step(
        pre: Self,
        post: Self,
        bytes: Seq<u8>,
        r: Result<usize, std::io::Error>,
    ) -> bool {
        let n = pre.transfer_len(bytes.len());
        &&& r == Ok::<usize, std::io::Error>(n as usize)
        &&& post.storage() == splice(pre.storage(), pre.pos(), bytes.take(n as int))
        &&& post.pos() == pre.pos() + n
    }

    /// Nothing is buffered: succeeds and changes nothing.
    open spec fn flush_step(pre: Self, post: Self, r: Result<(), std::io::Error>) -> bool {
        &&& r == Ok::<(), std::io::Error>(())
        &&& post == pre
    }

    fn write(&mut self, bytes: &[u8]) -> (r: Result<usize, std::io::Error>) {
        let ghost data0 = self.data@;
        let room = self.room_exec();
        let n: usize = if bytes.len() < room {
            bytes.len()
        } else {
            room
        };
        let mut i: usize = 0;
        while i < n
            invariant
                i <= n,
                n == old(self).transfer_len(bytes@.len()),
                self.pos == old(self).pos,
                n == 0 || self.pos() + n <= data0.len(),
                data0.len() <= usize::MAX,
                self.data@.len() == data0.len(),
                data0 == old(self).storage(),
                forall|j: int| 0 <= j < i ==> self.data@[self.pos() + j] == bytes@[j],
                forall|j: int|
                    0 <= j < data0.len() && !(self.pos() <= j < self.pos() + i) ==> self.data@[j]
                        == data0[j],
            decreases n - i,
        {
            let p = self.pos + i;
            self.data.set(p, bytes[i]);
            i = i + 1;
        }
        assert(self.data@ =~= splice(data0, old(self).pos(), bytes@.take(n as int)));
        self.pos = self.pos + n;
        Ok(n)
    }

    fn flush(&mut self) -> (r: Result<(), std::io::Error>) {
        Ok(())
    }
}

} // verus!
