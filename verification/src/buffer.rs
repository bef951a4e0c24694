//! Fixed-capacity byte buffers and the pools that hand them out.

use vstd::prelude::*;
use crate::error::AllocationError;

verus! {

/// A mutable region of bytes of fixed capacity, of which a prefix, the
/// logical length, holds valid data.
///
/// The two spec functions are the buffer's model. A type outside verified
/// code may leave them as they are; a verified one defines them.
pub trait Buffer: Sized {
    /// Every byte of the region, valid or not. Its length is the capacity.
    open spec fn storage(&self) -> Seq<u8> {
        arbitrary()
    }

    /// The logical length: how many bytes at the front are valid.
    open spec fn filled(&self) -> nat {
        arbitrary()
    }

    /// The writable region: all bytes of the buffer, up to its capacity.
    /// Writing through it changes the bytes and nothing else.
    fn as_mut(&mut self) -> (region: &mut [u8])
        ensures
            region@ == old(self).storage(),
            final(self).storage() == final(region)@,
            final(self).filled() == old(self).filled(),
    ;

    /// Sets the logical length to `n`, leaving every byte as it is.
    fn advance(&mut self, n: usize)
        requires
            n <= old(self).storage().len(),
        ensures
            final(self).storage() == old(self).storage(),
            final(self).filled() == n,
    ;

    /// The valid bytes: those below the logical length.
    fn bytes(&self) -> (valid: &[u8])
        requires
            self.filled() <= self.storage().len(),
        ensures
            valid@ == self.storage().take(self.filled() as int),
    ;
}

/// The number of bytes the buffer's region holds.
pub open spec fn capacity<B: Buffer>(b: B) -> nat {
    b.storage().len()
}

/// What a buffer says to its reader: the bytes below the logical length.
pub open spec fn payload<B: Buffer>(b: B) -> Seq<u8> {
    b.storage().take(b.filled() as int)
}

/// Whether the logical length lies within the capacity.
pub open spec fn well_formed<B: Buffer>(b: B) -> bool {
    b.filled() <= b.storage().len()
}

/// A buffer that keeps its bytes in a `Vec<u8>`. The vector's length is the
/// capacity; the logical length is kept beside it.
#[derive(Debug)]
pub struct VecBuffer {
    buf: Vec<u8>,
    len: usize,
}

impl VecBuffer {
    /// A buffer of `sz` zero bytes, all of them counted as valid.
    pub fn new(sz: usize) -> (b: VecBuffer)
        ensures
            b.storage() == Seq::new(sz as nat, |i: int| 0u8),
            b.filled() == sz,
            well_formed(b),
    {
        let buf = vec![0u8; sz];
        assert(buf@ =~= Seq::new(sz as nat, |i: int| 0u8));
        VecBuffer { buf, len: sz }
    }
}

impl Buffer for VecBuffer {
    closed spec fn storage(&self) -> Seq<u8> {
        self.buf@
    }

    closed spec fn filled(&self) -> nat {
        self.len as nat
    }

    fn as_mut(&mut self) -> (region: &mut [u8]) {
        self.buf.as_mut_slice()
    }

    fn advance(&mut self, n: usize) {
        self.len = n;
    }

    fn bytes(&self) -> (valid: &[u8]) {
        let (valid, _) = self.buf.as_slice().split_at(self.len);
        valid
    }
}

/// A factory of buffers, all of one capacity.
pub trait BufferPool {
    /// The buffers that the pool hands out.
    type Item: Buffer;

    /// The capacity of every buffer that the pool hands out.
    open spec fn buffer_size(&self) -> nat {
        arbitrary()
    }

    /// What a call of `get` may return. A pool that can say more than every
    /// pool must (that it never fails, what its buffers hold) says it here.
    open spec fn yields(&self, r: Result<Self::Item, AllocationError>) -> bool {
        true
    }

    /// A new buffer of the pool's capacity, or the reason why there is none.
    /// Its logical length is the pool's own choice, within the capacity.
    fn get(&self) -> (r: Result<Self::Item, AllocationError>)
        ensures
            self.yields(r),
            r matches Ok(b) ==> b.storage().len() == self.buffer_size() && b.filled()
                <= b.storage().len(),
    ;
}

/// A pool that makes each buffer anew, as a `VecBuffer` of zero bytes.
#[derive(Clone, Copy, Debug)]
pub struct VecBufferPool {
    size: usize,
}

impl VecBufferPool {
    /// A pool whose buffers have capacity `sz`.
    pub fn new(sz: usize) -> (pool: VecBufferPool)
        ensures
            pool.buffer_size() == sz,
    {
        VecBufferPool { size: sz }
    }
}

impl BufferPool for VecBufferPool {
    type Item = VecBuffer;

    closed spec fn buffer_size(&self) -> nat {
        self.size as nat
    }

    /// Never fails, and gives zero bytes, all of them counted as valid.
    open spec fn yields(&self, r: Result<VecBuffer, AllocationError>) -> bool {
        r matches Ok(b) && b.filled() == self.buffer_size() && b.storage() == Seq::new(
            self.buffer_size(),
            |i: int| 0u8,
        )
    }

    fn get(&self) -> (r: Result<VecBuffer, AllocationError>) {
        Ok(VecBuffer::new(self.size))
    }
}

} // verus!
