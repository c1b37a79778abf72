//! An in-memory source of bytes that is read front to back.

use vstd::prelude::*;
use vstd::slice::{slice_subrange, slice_to_vec};

verus! {

/// Bytes received so far, with a mark behind the last one consumed.
pub struct ByteSource {
    data: Vec<u8>,
    pos: usize,
}

impl ByteSource {
    #[verifier::type_invariant]
    spec fn in_bounds(&self) -> bool {
        self.pos <= self.data@.len()
    }

    /// All bytes of the source, consumed or not.
    pub closed spec fn content(&self) -> Seq<u8> {
        self.data@
    }

    /// How many bytes have been consumed.
    pub closed spec fn consumed(&self) -> nat {
        self.pos as nat
    }

    /// The bytes that are still to be read.
    pub open spec fn pending(&self) -> Seq<u8> {
        self.content().skip(self.consumed() as int)
    }

    /// A source over `data`, with nothing consumed.
    pub fn new(data: Vec<u8>) -> (src: ByteSource)
        ensures
            src.content() == data@,
            src.consumed() == 0,
    {
        ByteSource { data, pos: 0 }
    }

    /// The number of bytes consumed.
    pub fn position(&self) -> (n: usize)
        ensures
            n == self.consumed(),
            n <= self.content().len(),
    {
        proof {
            use_type_invariant(self);
        }
        self.pos
    }

    /// The number of bytes still to be read.
    pub fn remaining(&self) -> (n: usize)
        ensures
            n == self.pending().len(),
            n + self.consumed() == self.content().len(),
    {
        proof {
            use_type_invariant(self);
        }
        self.data.len() - self.pos
    }

    /// Reads one byte, or nothing if none is left.
    pub fn read_u8(&mut self) -> (res: Option<u8>)
        ensures
            final(self).content() == old(self).content(),
            final(self).consumed() <= final(self).content().len(),
            old(self).pending().len() >= 1 ==> res == Some(old(self).pending()[0])
                && final(self).consumed() == old(self).consumed() + 1,
            old(self).pending().len() < 1 ==> res.is_none() && final(self).consumed() == old(
                self,
            ).consumed(),
    {
        proof {
            use_type_invariant(&*self);
        }
        if self.pos < self.data.len() {
            let b = self.data[self.pos];
            self.pos = self.pos + 1;
            Some(b)
        } else {
            None
        }
    }

    /// Reads exactly `n` bytes. Where fewer are left, reads nothing.
    pub fn read_exact(&mut self, n: usize) -> (res: Option<Vec<u8>>)
        ensures
            final(self).content() == old(self).content(),
            final(self).consumed() <= final(self).content().len(),
            old(self).pending().len() >= n ==> res.is_some() && res.unwrap()@ == old(
                self,
            ).pending().take(n as int) && final(self).consumed() == old(self).consumed() + n,
            old(self).pending().len() < n ==> res.is_none() && final(self).consumed() == old(
                self,
            ).consumed(),
    {
        proof {
            use_type_invariant(&*self);
        }
        if n <= self.data.len() - self.pos {
            let end = self.pos + n;
            let out = slice_to_vec(slice_subrange(self.data.as_slice(), self.pos, end));
            assert(out@ =~= old(self).pending().take(n as int));
            self.pos = end;
            Some(out)
        } else {
            None
        }
    }
}

} // verus!
