use vstd::prelude::*;

verus! {

/// Capacity of the window that holds compressed bytes between source reads.
pub const BUFFER_SIZE: usize = 32 * 1024;

/// Fixed-capacity window of compressed bytes read from the source.
///
/// Bytes `[pos, len)` are filled but not yet decoded, `[0, pos)` are already
/// consumed and `[len, capacity)` is free for the next refill.
pub struct RawBuffer {
    storage: Vec<u8>,
    pos: usize,
    len: usize,
}

impl RawBuffer {
    /// `0 <= pos <= len <= capacity`, with the capacity fixed at `BUFFER_SIZE`.
    pub open spec fn wf(&self) -> bool {
        &&& self.stored().len() == BUFFER_SIZE
        &&& self.pos_spec() <= self.len_spec()
        &&& self.len_spec() <= BUFFER_SIZE
    }

    /// The whole backing storage.
    pub closed spec fn stored(&self) -> Seq<u8> {
        self.storage@
    }

    pub closed spec fn pos_spec(&self) -> nat {
        self.pos as nat
    }

    pub closed spec fn len_spec(&self) -> nat {
        self.len as nat
    }

    /// The filled bytes that were not decoded yet.
    pub open spec fn pending(&self) -> Seq<u8> {
        self.stored().subrange(self.pos_spec() as int, self.len_spec() as int)
    }

    /// An exhausted buffer of `BUFFER_SIZE` bytes.
    pub fn new() -> (b: RawBuffer)
        ensures
            b.wf(),
            b.pos_spec() == BUFFER_SIZE,
            b.len_spec() == BUFFER_SIZE,
            b.pending().len() == 0,
    {
        RawBuffer { storage: vec![0u8; BUFFER_SIZE], pos: BUFFER_SIZE, len: BUFFER_SIZE }
    }

    pub fn capacity(&self) -> (c: usize)
        requires
            self.wf(),
        ensures
            c == BUFFER_SIZE,
    {
        self.storage.len()
    }

    pub fn pos(&self) -> (p: usize)
        ensures
            p == self.pos_spec(),
    {
        self.pos
    }

    pub fn len(&self) -> (l: usize)
        ensures
            l == self.len_spec(),
    {
        self.len
    }

    /// Number of filled bytes still waiting to be decoded: `len - pos`.
    pub fn remaining_to_decode(&self) -> (n: usize)
        requires
            self.wf(),
        ensures
            n == self.len_spec() - self.pos_spec(),
            n == self.pending().len(),
    {
        self.len - self.pos
    }

    /// Whether every filled byte has been consumed: `pos == len`.
    pub fn is_exhausted(&self) -> (e: bool)
        requires
            self.wf(),
        ensures
            e == (self.pos_spec() == self.len_spec()),
            e == (self.pending().len() == 0),
    {
        self.pos == self.len
    }

    /// The filled bytes that were not decoded yet.
    pub fn unconsumed(&self) -> (s: &[u8])
        requires
            self.wf(),
        ensures
            s@ == self.pending(),
    {
        vstd::slice::slice_subrange(self.storage.as_slice(), self.pos, self.len)
    }

    /// The first `n` bytes of the storage, for a source to write into.
    /// Cursor and length are left as they are.
    pub fn window(&mut self, n: usize) -> (w: &mut [u8])
        requires
            old(self).wf(),
            n <= BUFFER_SIZE,
        ensures
            w@ == old(self).stored().subrange(0, n as int),
            final(w)@.len() == n ==> final(self).wf(),
            final(self).stored() == final(w)@ + old(self).stored().subrange(n as int, BUFFER_SIZE as int),
            final(self).pos_spec() == old(self).pos_spec(),
            final(self).len_spec() == old(self).len_spec(),
    {
        let (front, _back) = self.storage.as_mut_slice().split_at_mut(n);
        front
    }

    /// Marks the first `n` bytes of the storage as filled and not yet decoded.
    pub fn refill(&mut self, n: usize)
        requires
            old(self).wf(),
            n <= BUFFER_SIZE,
        ensures
            final(self).wf(),
            final(self).stored() == old(self).stored(),
            final(self).pos_spec() == 0,
            final(self).len_spec() == n,
            final(self).pending() == old(self).stored().subrange(0, n as int),
    {
        self.pos = 0;
        self.len = n;
    }

    /// Marks the next `n` filled bytes as decoded.
    pub fn consume(&mut self, n: usize)
        requires
            old(self).wf(),
            old(self).pos_spec() + n <= old(self).len_spec(),
        ensures
            final(self).wf(),
            final(self).stored() == old(self).stored(),
            final(self).pos_spec() == old(self).pos_spec() + n,
            final(self).len_spec() == old(self).len_spec(),
            final(self).pending() == old(self).pending().subrange(n as int, old(self).pending().len() as int),
    {
        self.pos = self.pos + n;
    }
}

} // verus!
