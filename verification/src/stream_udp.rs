//! The adapter for a connectionless socket: a sequence of datagrams, each
//! with the address it came from.

use vstd::prelude::*;
use crate::buffer::{capacity, payload, well_formed, Buffer, BufferPool};
use crate::error::{IoError, PollError};
use crate::poll::{
    absorb, begin, begin_result, failure_result, narrow, narrowed, PollResult, PollStep,
};

verus! {

/// A datagram socket and the pool that its buffers come from. The adapter
/// keeps both for as long as it lives and keeps nothing else: every poll
/// stands for itself.
///
/// `S` is the socket handle, which the adapter only carries; a handle that
/// is shared (a reference-counted one, say) may serve several adapters.
pub struct UdpStream<S, B: BufferPool> {
    socket: S,
    pool: B,
}

/// Whether `r` is what a datagram poll gives for the buffer `buf` and for
/// what the receive into it reported. A datagram of `n` bytes from `peer`
/// gives the buffer narrowed to `n` bytes, with `peer`, even where `n` is 0.
pub open spec fn datagram_result<Buf: Buffer, A>(
    buf: Buf,
    received: Result<(usize, A), IoError>,
    r: PollResult<(Buf, A)>,
) -> bool {
    match received {
        Ok((n, peer)) => r matches PollResult::Ready((b, p)) && p == peer && narrowed(
            buf,
            b,
            n as nat,
        ),
        Err(e) => r == failure_result::<(Buf, A)>(e),
    }
}

impl<S, B: BufferPool> UdpStream<S, B> {
    /// The socket handle that the adapter was made with.
    pub closed spec fn spec_socket(&self) -> &S {
        &self.socket
    }

    /// The pool that the adapter was made with.
    pub closed spec fn pool(&self) -> B {
        self.pool
    }

    /// An adapter over `socket` that takes its buffers from `b`.
    pub fn new(socket: S, b: B) -> (stream: UdpStream<S, B>)
        ensures
            *stream.socket() == socket,
            stream.pool() == b,
    {
        UdpStream { socket, pool: b }
    }

    /// The socket handle.
    #[verifier::when_used_as_spec(spec_socket)]
    pub fn socket(&self) -> (socket: &S)
        ensures
            socket == self.socket(),
    {
        &self.socket
    }

    /// Begins a poll, given whether the socket reports itself readable.
    /// Where it does not, the poll is over with `NotReady` and the pool is
    /// not asked. Where it does, the pool is asked for one buffer: the step
    /// hands it out to receive into, or the poll is over with the pool's
    /// failure.
    pub fn poll_begin<A>(&self, readable: bool) -> (step: PollStep<B::Item, (B::Item, A)>)
        ensures
            begin_result(self.pool(), readable, step),
            step matches PollStep::Receive(buf) ==> capacity(buf) == self.pool().buffer_size()
                && well_formed(buf),
    {
        begin(&self.pool, readable)
    }

    /// Finishes a poll with the buffer that `poll_begin` handed out and
    /// what the one receive into its writable region reported: the number
    /// of bytes and the sender, or the error.
    ///
    /// A datagram of `n` bytes gives the buffer, narrowed to those `n` bytes,
    /// and the sender. An error that says the receive would block gives
    /// `NotReady`, however readable the socket looked; any other error is
    /// the poll's error, unchanged. In both the buffer is dropped.
    pub fn poll_finish<A>(&self, buf: B::Item, received: Result<(usize, A), IoError>) -> (r:
        PollResult<(B::Item, A)>)
        requires
            received matches Ok((n, _)) ==> n <= capacity(buf),
        ensures
            datagram_result(buf, received, r),
            r matches PollResult::Ready((b, _)) ==> received matches Ok((n, _)) && well_formed(b)
                && capacity(b) == capacity(buf) && payload(b).len() == n && payload(b)
                == buf.storage().take(n as int),
    {
        match received {
            Ok((n, peer)) => PollResult::Ready((narrow(buf, n), peer)),
            Err(e) => absorb(e),
        }
    }
}

/// The item of a datagram poll holds exactly what the receive delivered:
/// where the region began with the `data` of a datagram from `peer`, the
/// poll gives a buffer that says `data`, and `peer`.
pub proof fn lemma_datagram_is_yielded_intact<Buf: Buffer, A>(
    buf: Buf,
    data: Seq<u8>,
    peer: A,
    n: usize,
    r: PollResult<(Buf, A)>,
)
    requires
        n == data.len(),
        n <= capacity(buf),
        buf.storage().take(n as int) == data,
        datagram_result(buf, Ok((n, peer)), r),
    ensures
        r matches PollResult::Ready((b, p)) && p == peer && b.filled() == n && payload(b) == data,
{
}

/// A receive that would block, however readable the socket looked, gives
/// `NotReady`; any other error gives that error, in every poll that meets
/// it: two polls that meet the same error give the same result, whichever
/// buffers they held.
pub proof fn lemma_datagram_errors<Buf: Buffer, A>(
    e: IoError,
    first_buf: Buf,
    first: PollResult<(Buf, A)>,
    second_buf: Buf,
    second: PollResult<(Buf, A)>,
)
    requires
        datagram_result(first_buf, Err(e), first),
        datagram_result(second_buf, Err(e), second),
    ensures
        second == first,
        e.would_block() ==> first == PollResult::<(Buf, A)>::NotReady,
        !e.would_block() ==> first == PollResult::<(Buf, A)>::Error(PollError::Io(e)),
{
}

/// A datagram poll never gives the end of the sequence.
pub proof fn lemma_datagrams_never_end<Buf: Buffer, A>(
    buf: Buf,
    received: Result<(usize, A), IoError>,
    r: PollResult<(Buf, A)>,
)
    requires
        datagram_result(buf, received, r),
    ensures
        !(r is EndOfSequence),
{
}

} // verus!
