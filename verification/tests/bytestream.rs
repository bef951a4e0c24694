use netstream::poll::{absorb, after_allocation, begin, narrow};
use netstream::{
    AllocationError, Buffer, IoError, IoErrorKind, PollError, PollResult, PollStep, TcpStream,
    VecBuffer, VecBufferPool,
};
use std::cell::RefCell;
use std::collections::VecDeque;

/// One turn of a scripted connection.
enum Turn {
    Idle,
    Bytes(Vec<u8>),
    Stale,
    Broken(IoError),
    Shutdown,
}

struct SimConnection {
    script: RefCell<VecDeque<Turn>>,
}

impl SimConnection {
    fn new(script: Vec<Turn>) -> SimConnection {
        SimConnection { script: RefCell::new(script.into()) }
    }

    fn poll_readable(&self) -> bool {
        let mut script = self.script.borrow_mut();
        match script.front() {
            None => false,
            Some(Turn::Idle) => {
                script.pop_front();
                false
            }
            Some(_) => true,
        }
    }

    fn read(&self, region: &mut [u8]) -> Result<usize, IoError> {
        let mut script = self.script.borrow_mut();
        match script.pop_front() {
            Some(Turn::Bytes(data)) => {
                let n = data.len().min(region.len());
                region[..n].copy_from_slice(&data[..n]);
                if n < data.len() {
                    script.push_front(Turn::Bytes(data[n..].to_vec()));
                }
                Ok(n)
            }
            Some(Turn::Shutdown) => {
                script.push_front(Turn::Shutdown);
                Ok(0)
            }
            Some(Turn::Broken(e)) => Err(e),
            _ => Err(IoError::new(IoErrorKind::WouldBlock)),
        }
    }
}

fn poll_next(stream: &TcpStream<SimConnection, VecBufferPool>) -> PollResult<VecBuffer> {
    let socket = stream.socket();
    match stream.poll_begin(socket.poll_readable()) {
        PollStep::Done(result) => result,
        PollStep::Receive(mut buf) => {
            let read = socket.read(buf.as_mut());
            stream.poll_finish(buf, read)
        }
    }
}

fn connection(script: Vec<Turn>, size: usize) -> TcpStream<SimConnection, VecBufferPool> {
    TcpStream::new(SimConnection::new(script), VecBufferPool::new(size))
}

#[test]
fn zero_byte_read_is_the_end_of_the_sequence() {
    let stream = connection(vec![], 8);
    let r = stream.poll_finish(VecBuffer::new(8), Ok(0));
    assert!(matches!(r, PollResult::EndOfSequence));
    assert!(!matches!(r, PollResult::NotReady));
    assert!(!matches!(r, PollResult::Error(_)));
    assert!(!matches!(r, PollResult::Ready(_)));
}

#[test]
fn chunks_then_shutdown() {
    let stream = connection(
        vec![Turn::Bytes(b"abcdefghij".to_vec()), Turn::Idle, Turn::Shutdown],
        4,
    );
    let mut chunks: Vec<Vec<u8>> = Vec::new();
    let mut idle = 0;
    loop {
        match poll_next(&stream) {
            PollResult::Ready(buf) => chunks.push(buf.bytes().to_vec()),
            PollResult::NotReady => idle += 1,
            PollResult::EndOfSequence => break,
            PollResult::Error(e) => panic!("{:?}", e),
        }
    }
    assert_eq!(chunks, vec![b"abcd".to_vec(), b"efgh".to_vec(), b"ij".to_vec()]);
    assert_eq!(idle, 1);
    assert!(matches!(poll_next(&stream), PollResult::EndOfSequence));
}

#[test]
fn unreadable_connection_gives_not_ready() {
    let stream = connection(vec![Turn::Idle, Turn::Idle], 8);
    for _ in 0..5 {
        assert!(matches!(poll_next(&stream), PollResult::NotReady));
    }
    assert!(matches!(stream.poll_begin(false), PollStep::Done(PollResult::NotReady)));
}

#[test]
fn stale_readiness_on_a_connection_gives_not_ready() {
    let stream = connection(vec![Turn::Stale, Turn::Bytes(b"x".to_vec())], 8);
    assert!(matches!(poll_next(&stream), PollResult::NotReady));
    match poll_next(&stream) {
        PollResult::Ready(buf) => assert_eq!(buf.bytes(), b"x"),
        other => panic!("{:?}", other),
    }
}

#[test]
fn read_error_surfaces_each_time() {
    let e = IoError { kind: IoErrorKind::BrokenPipe, code: Some(32) };
    let stream = connection(vec![Turn::Broken(e), Turn::Broken(e)], 8);
    for _ in 0..2 {
        match poll_next(&stream) {
            PollResult::Error(PollError::Io(got)) => assert_eq!(got, e),
            other => panic!("{:?}", other),
        }
    }
}

#[test]
fn full_buffer_read_keeps_every_byte() {
    let stream = connection(vec![], 4);
    let mut buf = VecBuffer::new(4);
    buf.as_mut().copy_from_slice(&[9, 8, 7, 6]);
    match stream.poll_finish(buf, Ok(4)) {
        PollResult::Ready(buf) => assert_eq!(buf.bytes(), &[9, 8, 7, 6]),
        other => panic!("{:?}", other),
    }
}

#[test]
fn after_allocation_maps_each_outcome() {
    let ok: PollStep<VecBuffer, VecBuffer> = after_allocation(Ok(VecBuffer::new(5)));
    match ok {
        PollStep::Receive(mut buf) => assert_eq!(buf.as_mut().len(), 5),
        PollStep::Done(_) => panic!("no buffer"),
    }
    let failed: PollStep<VecBuffer, VecBuffer> =
        after_allocation(Err(AllocationError { requested: 5 }));
    match failed {
        PollStep::Done(PollResult::Error(PollError::Allocation(e))) => {
            assert_eq!(e, AllocationError { requested: 5 })
        }
        _ => panic!("no error"),
    }
}

#[test]
fn begin_asks_the_pool_only_when_readable() {
    let pool = VecBufferPool::new(3);
    let idle: PollStep<VecBuffer, VecBuffer> = begin(&pool, false);
    assert!(matches!(idle, PollStep::Done(PollResult::NotReady)));
    let ready: PollStep<VecBuffer, VecBuffer> = begin(&pool, true);
    match ready {
        PollStep::Receive(buf) => assert_eq!(buf.bytes(), &[0, 0, 0]),
        PollStep::Done(_) => panic!("no buffer"),
    }
}

#[test]
fn absorb_tells_would_block_from_failure() {
    let wait: PollResult<u8> = absorb(IoError::new(IoErrorKind::WouldBlock));
    assert_eq!(wait, PollResult::NotReady);
    let e = IoError { kind: IoErrorKind::TimedOut, code: Some(110) };
    let failed: PollResult<u8> = absorb(e);
    assert_eq!(failed, PollResult::Error(PollError::Io(e)));
}

#[test]
fn narrow_keeps_the_front_bytes() {
    let mut buf = VecBuffer::new(6);
    buf.as_mut().copy_from_slice(b"abcdef");
    let mut buf = narrow(buf, 2);
    assert_eq!(buf.bytes(), b"ab");
    assert_eq!(buf.as_mut().len(), 6);
    assert_eq!(buf.as_mut(), b"abcdef");
    let buf = narrow(buf, 6);
    assert_eq!(buf.bytes(), b"abcdef");
    let buf = narrow(buf, 0);
    assert_eq!(buf.bytes(), b"");
}
