use pseudo_async_io::{wrap, wrap_pair, BlockingRead, BlockingWrite, MemoryCursor, PseudoAsyncIo, PseudoAsyncIoPair};
use std::task::{Context, Poll, Waker};

fn ready<T>(p: Poll<T>) -> T {
    match p {
        Poll::Ready(v) => v,
        Poll::Pending => panic!("a poll reported pending"),
    }
}

/// A writer whose flush always fails with the given kind and message.
struct FailingFlush {
    kind: std::io::ErrorKind,
    flushes: usize,
}

impl BlockingWrite for FailingFlush {
    fn write(&mut self, bytes: &[u8]) -> Result<usize, std::io::Error> {
        Ok(bytes.len())
    }

    fn flush(&mut self) -> Result<(), std::io::Error> {
        self.flushes += 1;
        Err(std::io::Error::new(self.kind, "flush refused"))
    }
}

/// A reader whose read always fails.
struct FailingRead;

impl BlockingRead for FailingRead {
    fn read(&mut self, _buf: &mut [u8]) -> Result<usize, std::io::Error> {
        Err(std::io::Error::new(std::io::ErrorKind::ConnectionReset, "reset"))
    }
}

#[test]
fn single_adapter_write_then_read() {
    let mut cx = Context::from_waker(Waker::noop());
    let mut w = wrap(MemoryCursor::new(vec![1; 6]));
    let n = ready(w.poll_write(&mut cx, &[1, 2, 3])).unwrap();
    assert_eq!(n, 3);
    assert_eq!(w.inner.get_ref(), &vec![1, 2, 3, 1, 1, 1]);
    let mut tmp = [0u8; 4];
    let m = ready(w.poll_read(&mut cx, &mut tmp)).unwrap();
    assert_eq!(m, 3);
    assert_eq!(&tmp, &[1, 1, 1, 0]);
}

#[test]
fn pair_adapter_write_then_read() {
    let mut cx = Context::from_waker(Waker::noop());
    let rc = MemoryCursor::new(vec![5, 4, 3, 2, 1, 0]);
    let wc = MemoryCursor::new(vec![0; 6]);
    let mut w = wrap_pair(rc, wc);
    assert_eq!(ready(w.poll_write(&mut cx, &[1, 2, 3])).unwrap(), 3);
    assert_eq!(w.writer.get_ref(), &vec![1, 2, 3, 0, 0, 0]);
    assert_eq!(w.reader.get_ref(), &vec![5, 4, 3, 2, 1, 0]);
    let mut tmp = [0u8; 3];
    assert_eq!(ready(w.poll_read(&mut cx, &mut tmp)).unwrap(), 3);
    assert_eq!(&tmp, &[5, 4, 3]);
    assert_eq!(w.writer.position(), 3);
    assert_eq!(w.reader.position(), 3);
}

#[test]
fn written_bytes_read_back_in_order() {
    let mut cx = Context::from_waker(Waker::noop());
    let bytes = [9u8, 0, 255, 7, 7, 128, 1];
    let mut w = PseudoAsyncIo::new(MemoryCursor::new(vec![0; bytes.len()]));
    assert_eq!(ready(w.poll_write(&mut cx, &bytes)).unwrap(), bytes.len());
    assert_eq!(w.inner.get_ref().as_slice(), &bytes);
    w.inner.set_position(0);
    let mut back = [0u8; 7];
    assert_eq!(ready(w.poll_read(&mut cx, &mut back)).unwrap(), bytes.len());
    assert_eq!(back, bytes);
}

#[test]
fn every_poll_is_ready_at_once() {
    let mut cx = Context::from_waker(Waker::noop());
    let mut w = wrap(MemoryCursor::new(vec![3; 2]));
    let mut buf = [0u8; 1];
    assert!(w.poll_read(&mut cx, &mut buf).is_ready());
    assert!(w.poll_write(&mut cx, &[4]).is_ready());
    assert!(w.poll_flush(&mut cx).is_ready());
    assert!(w.poll_close(&mut cx).is_ready());
    let mut p = PseudoAsyncIoPair::new(MemoryCursor::new(vec![1]), MemoryCursor::new(vec![]));
    assert!(p.poll_read(&mut cx, &mut buf).is_ready());
    assert!(p.poll_write(&mut cx, &[4]).is_ready());
    assert!(p.poll_flush(&mut cx).is_ready());
    assert!(p.poll_close(&mut cx).is_ready());
}

#[test]
fn short_write_reports_what_fit() {
    let mut cx = Context::from_waker(Waker::noop());
    let mut w = wrap(MemoryCursor::new(vec![0; 2]));
    assert_eq!(ready(w.poll_write(&mut cx, &[6, 7, 8, 9])).unwrap(), 2);
    assert_eq!(w.inner.get_ref(), &vec![6, 7]);
    assert_eq!(ready(w.poll_write(&mut cx, &[8, 9])).unwrap(), 0);
    assert_eq!(w.inner.get_ref(), &vec![6, 7]);
}

#[test]
fn short_write_then_rest_on_next_poll() {
    let mut cx = Context::from_waker(Waker::noop());
    let mut w = wrap(MemoryCursor::new(vec![0; 5]));
    w.inner.set_position(3);
    assert_eq!(ready(w.poll_write(&mut cx, &[1, 2, 3])).unwrap(), 2);
    assert_eq!(w.inner.get_ref(), &vec![0, 0, 0, 1, 2]);
    w.inner.set_position(0);
    assert_eq!(ready(w.poll_write(&mut cx, &[3])).unwrap(), 1);
    assert_eq!(w.inner.get_ref(), &vec![3, 0, 0, 1, 2]);
}

#[test]
fn empty_buffers_and_end_of_stream() {
    let mut cx = Context::from_waker(Waker::noop());
    let mut w = wrap(MemoryCursor::new(vec![1, 2]));
    let mut empty: [u8; 0] = [];
    assert_eq!(ready(w.poll_read(&mut cx, &mut empty)).unwrap(), 0);
    assert_eq!(ready(w.poll_write(&mut cx, &[])).unwrap(), 0);
    let mut buf = [7u8; 4];
    assert_eq!(ready(w.poll_read(&mut cx, &mut buf)).unwrap(), 2);
    assert_eq!(buf, [1, 2, 7, 7]);
    assert_eq!(ready(w.poll_read(&mut cx, &mut buf)).unwrap(), 0);
    assert_eq!(buf, [1, 2, 7, 7]);
    w.inner.set_position(10);
    assert_eq!(ready(w.poll_read(&mut cx, &mut buf)).unwrap(), 0);
    assert_eq!(ready(w.poll_write(&mut cx, &[5])).unwrap(), 0);
    assert_eq!(w.inner.into_inner(), vec![1, 2]);
}

#[test]
fn close_succeeds_and_changes_nothing() {
    let mut cx = Context::from_waker(Waker::noop());
    let mut w = wrap(MemoryCursor::new(vec![4, 5, 6]));
    ready(w.poll_write(&mut cx, &[1])).unwrap();
    assert!(ready(w.poll_close(&mut cx)).is_ok());
    assert_eq!(w.inner.get_ref(), &vec![1, 5, 6]);
    assert_eq!(w.inner.position(), 1);
    let mut f = wrap(FailingFlush { kind: std::io::ErrorKind::BrokenPipe, flushes: 0 });
    assert!(ready(f.poll_flush(&mut cx)).is_err());
    assert!(ready(f.poll_close(&mut cx)).is_ok());
    assert_eq!(f.inner.flushes, 1);
    let mut p = wrap_pair(FailingRead, MemoryCursor::new(vec![0; 2]));
    let mut buf = [0u8; 2];
    assert!(ready(p.poll_read(&mut cx, &mut buf)).is_err());
    assert!(ready(p.poll_close(&mut cx)).is_ok());
    assert_eq!(p.writer.get_ref(), &vec![0, 0]);
    assert_eq!(p.writer.position(), 0);
}

#[test]
fn flush_passes_the_error_through() {
    let mut cx = Context::from_waker(Waker::noop());
    let mut w = wrap(MemoryCursor::new(vec![0; 1]));
    assert!(ready(w.poll_flush(&mut cx)).is_ok());
    let mut f = wrap(FailingFlush { kind: std::io::ErrorKind::PermissionDenied, flushes: 0 });
    let e = ready(f.poll_flush(&mut cx)).unwrap_err();
    assert_eq!(e.kind(), std::io::ErrorKind::PermissionDenied);
    assert_eq!(e.to_string(), "flush refused");
    assert_eq!(f.inner.flushes, 1);
    let mut p = wrap_pair(MemoryCursor::new(vec![]), FailingFlush { kind: std::io::ErrorKind::WriteZero, flushes: 0 });
    let e = ready(p.poll_flush(&mut cx)).unwrap_err();
    assert_eq!(e.kind(), std::io::ErrorKind::WriteZero);
    assert_eq!(p.writer.flushes, 1);
}

#[test]
fn read_error_passes_through() {
    let mut cx = Context::from_waker(Waker::noop());
    let mut w = wrap_pair(FailingRead, MemoryCursor::new(vec![0; 1]));
    let mut buf = [0u8; 1];
    let e = ready(w.poll_read(&mut cx, &mut buf)).unwrap_err();
    assert_eq!(e.kind(), std::io::ErrorKind::ConnectionReset);
    assert_eq!(ready(w.poll_write(&mut cx, &[2, 3])).unwrap(), 1);
    assert_eq!(w.writer.get_ref(), &vec![2]);
}
