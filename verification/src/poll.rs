//! What the two adapters share: the result of a poll, its first half, and
//! the rule for a receive that failed.
//!
//! A poll has two halves with the socket's one receive between them. `begin`
//! takes the socket's readiness and either ends the poll or hands out a
//! buffer to receive into. The adapter's `poll_finish` takes that buffer back
//! with what the receive reported and gives the poll's result.

use vstd::prelude::*;
use crate::buffer::{capacity, payload, well_formed, Buffer, BufferPool};
use crate::error::{AllocationError, IoError, PollError};

verus! {

/// What one poll of an adapter gives.
#[derive(Debug, PartialEq, Eq)]
pub enum PollResult<T> {
    /// Nothing to read for now; poll again later.
    NotReady,
    /// The next item of the sequence.
    Ready(T),
    /// This poll failed.
    Error(PollError),
    /// The peer has shut the connection down in good order; no item follows.
    EndOfSequence,
}

/// How the first half of a poll ends.
#[derive(Debug, PartialEq, Eq)]
pub enum PollStep<Buf, T> {
    /// The poll is over, with this result.
    Done(PollResult<T>),
    /// Receive once, without blocking, into this buffer's writable region,
    /// then finish the poll with the buffer and what the receive reported.
    Receive(Buf),
}

/// The step that follows from what the pool returned: a buffer is to be
/// received into, a failure of the pool is the poll's failure.
pub open spec fn step_of<Buf, T>(got: Result<Buf, AllocationError>) -> PollStep<Buf, T> {
    match got {
        Ok(buf) => PollStep::Receive(buf),
        Err(e) => PollStep::Done(PollResult::Error(PollError::Allocation(e))),
    }
}

/// Whether `step` is how a poll may begin on `pool` with the socket's
/// readiness `readable`: without a buffer where the socket is not readable,
/// and else by what the pool returned.
pub open spec fn begin_result<P: BufferPool, T>(
    pool: P,
    readable: bool,
    step: PollStep<P::Item, T>,
) -> bool {
    if readable {
        exists|got: Result<P::Item, AllocationError>| #[trigger]
            pool.yields(got) && step == step_of::<P::Item, T>(got)
    } else {
        step == PollStep::<P::Item, T>::Done(PollResult::NotReady)
    }
}

/// `after` is `before` narrowed to `n` bytes: the same bytes, with logical
/// length `n`.
pub open spec fn narrowed<Buf: Buffer>(before: Buf, after: Buf, n: nat) -> bool {
    after.storage() == before.storage() && after.filled() == n
}

/// The result for a failed receive: a would-block is no failure of the
/// poll, every other error is, and is passed on as it came.
pub open spec fn failure_result<T>(e: IoError) -> PollResult<T> {
    if e.would_block() {
        PollResult::NotReady
    } else {
        PollResult::Error(PollError::Io(e))
    }
}

/// Turns what the pool returned into the step to take.
pub fn after_allocation<Buf, T>(got: Result<Buf, AllocationError>) -> (step: PollStep<Buf, T>)
    ensures
        step == step_of::<Buf, T>(got),
{
    match got {
        Ok(buf) => PollStep::Receive(buf),
        Err(e) => PollStep::Done(PollResult::Error(PollError::Allocation(e))),
    }
}

/// The first half of a poll. A socket that is not readable ends the poll
/// before the pool is asked for anything; a readable one has the pool
/// asked once.
pub fn begin<P: BufferPool, T>(pool: &P, readable: bool) -> (step: PollStep<P::Item, T>)
    ensures
        begin_result(*pool, readable, step),
        step matches PollStep::Receive(buf) ==> capacity(buf) == pool.buffer_size()
            && well_formed(buf),
{
    if !readable {
        return PollStep::Done(PollResult::NotReady);
    }
    let got = pool.get();
    after_allocation(got)
}

/// Gives the result for a failed receive.
pub fn absorb<T>(e: IoError) -> (r: PollResult<T>)
    ensures
        r == failure_result::<T>(e),
{
    if e.is_would_block() {
        PollResult::NotReady
    } else {
        PollResult::Error(PollError::Io(e))
    }
}

/// Narrows `buf` to its first `n` bytes.
pub fn narrow<Buf: Buffer>(buf: Buf, n: usize) -> (after: Buf)
    requires
        n <= capacity(buf),
    ensures
        narrowed(buf, after, n as nat),
        well_formed(after),
        capacity(after) == capacity(buf),
        payload(after) == buf.storage().take(n as int),
        payload(after).len() == n,
{
    let mut buf = buf;
    buf.advance(n);
    buf
}

/// While the socket is not readable, a poll ends at once with `NotReady`
/// and no buffer exists, whatever the pool might have given.
pub proof fn lemma_unreadable_gives_not_ready<P: BufferPool, T>(
    pool: P,
    step: PollStep<P::Item, T>,
)
    requires
        begin_result(pool, false, step),
    ensures
        step == PollStep::<P::Item, T>::Done(PollResult::NotReady),
        !(step is Receive),
{
}

/// A readable socket leads to a buffer or to the pool's failure, never to
/// `NotReady` and never to the end of the sequence.
pub proof fn lemma_readable_asks_the_pool<P: BufferPool, T>(pool: P, step: PollStep<P::Item, T>)
    requires
        begin_result(pool, true, step),
    ensures
        step is Receive || (step matches PollStep::Done(r) && r matches PollResult::Error(e)
            && e is Allocation),
{
}

/// A buffer narrowed to `data.len()` bytes, whose region began with `data`
/// when the receive had written it, says `data` to its reader: that many
/// bytes, and those bytes.
pub proof fn lemma_payload_is_received_data<Buf: Buffer>(before: Buf, after: Buf, data: Seq<u8>)
    requires
        data.len() <= capacity(before),
        before.storage().take(data.len() as int) == data,
        narrowed(before, after, data.len()),
    ensures
        after.filled() == data.len(),
        payload(after) == data,
{
}

} // verus!
