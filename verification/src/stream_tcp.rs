//! The adapter for a connected socket: a sequence of chunks of the byte
//! stream, which ends when the peer shuts the connection down.

use vstd::prelude::*;
use crate::buffer::{capacity, payload, well_formed, Buffer, BufferPool};
use crate::error::{IoError, PollError};
use crate::poll::{
    absorb, begin, begin_result, failure_result, narrow, narrowed, PollResult, PollStep,
};

verus! {

/// A connected socket and the pool that its buffers come from. The adapter
/// keeps both for as long as it lives and keeps nothing else: every poll
/// stands for itself.
pub struct TcpStream<S, B: BufferPool> {
    socket: S,
    pool: B,
}

/// Whether `r` is what a byte-stream poll gives for the buffer `buf` and
/// for what the read into it reported. A read of no bytes is the end of the
/// sequence; a read of `n > 0` bytes gives the buffer narrowed to `n` bytes.
pub open spec fn stream_result<Buf: Buffer>(
    buf: Buf,
    read: Result<usize, IoError>,
    r: PollResult<Buf>,
) -> bool {
    match read {
        Ok(n) => if n == 0 {
            r == PollResult::<Buf>::EndOfSequence
        } else {
            r matches PollResult::Ready(b) && narrowed(buf, b, n as nat)
        },
        Err(e) => r == failure_result::<Buf>(e),
    }
}

impl<S, B: BufferPool> TcpStream<S, B> {
    /// The socket handle that the adapter was made with.
    pub closed spec fn spec_socket(&self) -> &S {
        &self.socket
    }

    /// The pool that the adapter was made with.
    pub closed spec fn pool(&self) -> B {
        self.pool
    }

    /// An adapter over `socket` that takes its buffers from `b`.
    pub fn new(socket: S, b: B) -> (stream: TcpStream<S, B>)
        ensures
            *stream.socket() == socket,
            stream.pool() == b,
    {
        TcpStream { socket, pool: b }
    }

    /// The socket handle.
    #[verifier::when_used_as_spec(spec_socket)]
    pub fn socket(&self) -> (socket: &S)
        ensures
            socket == self.socket(),
    {
        &self.socket
    }

    /// Begins a poll, given whether the socket reports itself readable.
    /// Where it does not, the poll is over with `NotReady` and the pool is
    /// not asked. Where it does, the pool is asked for one buffer: the step
    /// hands it out to read into, or the poll is over with the pool's
    /// failure.
    pub fn poll_begin(&self, readable: bool) -> (step: PollStep<B::Item, B::Item>)
        ensures
            begin_result(self.pool(), readable, step),
            step matches PollStep::Receive(buf) ==> capacity(buf) == self.pool().buffer_size()
                && well_formed(buf),
    {
        begin(&self.pool, readable)
    }

    /// Finishes a poll with the buffer that `poll_begin` handed out and
    /// what the one read into its writable region reported: the number of
    /// bytes, or the error.
    ///
    /// A read of no bytes is the end of the sequence (so it is for every
    /// read into a buffer of capacity 0). A read of `n > 0` bytes gives the
    /// buffer, narrowed to those `n` bytes. An error that says the read
    /// would block gives `NotReady`, however readable the socket looked; any
    /// other error is the poll's error, unchanged.
    pub fn poll_finish(&self, buf: B::Item, read: Result<usize, IoError>) -> (r: PollResult<
        B::Item,
    >)
        requires
            read matches Ok(n) ==> n <= capacity(buf),
        ensures
            stream_result(buf, read, r),
            r matches PollResult::Ready(b) ==> read matches Ok(n) && well_formed(b) && capacity(b)
                == capacity(buf) && payload(b).len() == n && payload(b) == buf.storage().take(
                n as int,
            ),
    {
        match read {
            Ok(n) => {
                if n == 0 {
                    PollResult::EndOfSequence
                } else {
                    PollResult::Ready(narrow(buf, n))
                }
            },
            Err(e) => absorb(e),
        }
    }
}

/// A read of no bytes gives the end of the sequence, which is none of
/// `NotReady`, an error and an item.
pub proof fn lemma_empty_read_ends_the_sequence<Buf: Buffer>(buf: Buf, r: PollResult<Buf>)
    requires
        stream_result(buf, Ok(0), r),
    ensures
        r == PollResult::<Buf>::EndOfSequence,
        !(r is NotReady) && !(r is Error) && !(r is Ready),
{
}

/// The item of a byte-stream poll holds exactly what the read delivered:
/// where the region began with the `data` of a read that was not empty, the
/// poll gives a buffer that says `data`.
pub proof fn lemma_chunk_is_yielded_intact<Buf: Buffer>(
    buf: Buf,
    data: Seq<u8>,
    n: usize,
    r: PollResult<Buf>,
)
    requires
        n == data.len(),
        0 < n <= capacity(buf),
        buf.storage().take(n as int) == data,
        stream_result(buf, Ok(n), r),
    ensures
        r matches PollResult::Ready(b) && b.filled() == n && payload(b) == data,
{
}

/// A read that would block, however readable the socket looked, gives
/// `NotReady`; any other error gives that error, in every poll that meets
/// it: two polls that meet the same error give the same result, whichever
/// buffers they held.
pub proof fn lemma_stream_errors<Buf: Buffer>(
    e: IoError,
    first_buf: Buf,
    first: PollResult<Buf>,
    second_buf: Buf,
    second: PollResult<Buf>,
)
    requires
        stream_result(first_buf, Err(e), first),
        stream_result(second_buf, Err(e), second),
    ensures
        second == first,
        e.would_block() ==> first == PollResult::<Buf>::NotReady,
        !e.would_block() ==> first == PollResult::<Buf>::Error(PollError::Io(e)),
{
}

} // verus!
